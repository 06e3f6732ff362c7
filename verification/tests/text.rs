use media_converter::text::{chars_of, find_from, is_whitespace, stands_at, trim_range};

fn chars(text: &str) -> Vec<char> {
    text.chars().collect()
}

#[test]
fn the_characters_of_a_text_come_in_order() {
    assert_eq!(chars_of(""), Vec::<char>::new());
    assert_eq!(chars_of("abc"), vec!['a', 'b', 'c']);
    assert_eq!(chars_of("çö\u{1F600}x"), vec!['ç', 'ö', '\u{1F600}', 'x']);
}

#[test]
fn white_space_is_what_unicode_says() {
    let mut count = 0;
    for code in 0..=0x10ffffu32 {
        if let Some(c) = char::from_u32(code) {
            assert_eq!(is_whitespace(c), c.is_whitespace());
            if is_whitespace(c) {
                count += 1;
            }
        }
    }
    assert_eq!(count, 25);
}

#[test]
fn some_characters_are_white_space_and_some_are_not() {
    for c in [' ', '\t', '\n', '\r', '\u{0b}', '\u{0c}', '\u{85}', '\u{a0}', '\u{3000}'] {
        assert!(is_whitespace(c));
    }
    for c in ['a', '0', '_', '\u{08}', '\u{0e}', '\u{200b}', '\u{180e}', '\u{feff}'] {
        assert!(!is_whitespace(c));
    }
}

#[test]
fn a_token_stands_where_its_characters_stand() {
    let text = chars("abcabc");
    assert!(stands_at(&text, &chars("abc"), 0));
    assert!(stands_at(&text, &chars("abc"), 3));
    assert!(!stands_at(&text, &chars("abc"), 1));
    assert!(!stands_at(&text, &chars("abc"), 4));
    assert!(!stands_at(&text, &chars("abc"), 6));
    assert!(!stands_at(&text, &chars("abc"), usize::MAX));
    assert!(stands_at(&text, &chars(""), 6));
    assert!(!stands_at(&text, &chars(""), 7));
    assert!(!stands_at(&chars("ab"), &chars("abc"), 0));
}

#[test]
fn the_leftmost_occurrence_is_found() {
    let text = chars("xxabxxabxx");
    let token = chars("ab");
    assert_eq!(find_from(&text, &token, 0), Some(2));
    assert_eq!(find_from(&text, &token, 2), Some(2));
    assert_eq!(find_from(&text, &token, 3), Some(6));
    assert_eq!(find_from(&text, &token, 7), None);
    assert_eq!(find_from(&text, &token, 10), None);
    assert_eq!(find_from(&text, &token, 11), None);
    assert_eq!(find_from(&text, &chars("xxx"), 0), None);
    assert_eq!(find_from(&text, &chars(""), 4), Some(4));
    assert_eq!(find_from(&chars(""), &chars(""), 0), Some(0));
    assert_eq!(find_from(&chars(""), &chars("a"), 0), None);
    assert_eq!(find_from(&chars("aaa"), &chars("aa"), 1), Some(1));
}

#[test]
fn trimming_gives_the_bounds_of_the_rest() {
    let text = chars("  ab c \t");
    assert_eq!(trim_range(&text, 0, 8), (2, 6));
    assert_eq!(trim_range(&text, 2, 6), (2, 6));
    assert_eq!(trim_range(&text, 3, 5), (3, 4));
    assert_eq!(trim_range(&text, 4, 5), (5, 5));
    assert_eq!(trim_range(&text, 6, 8), (8, 8));
    assert_eq!(trim_range(&text, 0, 0), (0, 0));
    assert_eq!(trim_range(&text, 8, 8), (8, 8));
    assert_eq!(trim_range(&text, 0, 2), (2, 2));
}

#[test]
fn trimming_agrees_with_the_standard_trim() {
    let samples = [
        "",
        " ",
        "a",
        " a",
        "a ",
        "\u{2003}a b\u{2028}\u{205f}",
        "\r\n x \r\n",
        "\u{200b} zero width is kept \u{200b}",
    ];
    for sample in samples.iter() {
        let text = chars(sample);
        let (low, high) = trim_range(&text, 0, text.len());
        let kept: String = text[low..high].iter().collect();
        assert_eq!(kept, sample.trim());
    }
}
