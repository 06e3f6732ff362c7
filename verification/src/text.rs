//! Searching and trimming of text, as sequences of characters.

use vstd::prelude::*;

verus! {

/// Whether a character is white space: the characters with the Unicode
/// property `White_Space`.
pub open spec fn is_space(c: char) -> bool {
    let u = c as u32;
    ||| 0x09 <= u <= 0x0d
    ||| u == 0x20
    ||| u == 0x85
    ||| u == 0xa0
    ||| u == 0x1680
    ||| 0x2000 <= u <= 0x200a
    ||| u == 0x2028
    ||| u == 0x2029
    ||| u == 0x202f
    ||| u == 0x205f
    ||| u == 0x3000
}

/// Tells whether a character is white space.
pub fn is_whitespace(c: char) -> (space: bool)
    ensures
        space == is_space(c),
{
    let u: u32 = c as u32;
    (0x09 <= u && u <= 0x0d) || u == 0x20 || u == 0x85 || u == 0xa0 || u == 0x1680 || (0x2000 <= u
        && u <= 0x200a) || u == 0x2028 || u == 0x2029 || u == 0x202f || u == 0x205f || u == 0x3000
}

/// How many white-space characters open the text.
pub open spec fn leading_spaces(text: Seq<char>) -> nat
    decreases text.len(),
{
    if text.len() > 0 && is_space(text[0]) {
        1 + leading_spaces(text.skip(1))
    } else {
        0
    }
}

/// How many white-space characters close the text.
pub open spec fn trailing_spaces(text: Seq<char>) -> nat
    decreases text.len(),
{
    if text.len() > 0 && is_space(text.last()) {
        1 + trailing_spaces(text.drop_last())
    } else {
        0
    }
}

/// The text without the white space that opens it.
pub open spec fn trim_start(text: Seq<char>) -> Seq<char> {
    text.skip(leading_spaces(text) as int)
}

/// The text without the white space that closes it.
pub open spec fn trim_end(text: Seq<char>) -> Seq<char> {
    text.take(text.len() - trailing_spaces(text))
}

/// The text without the white space at either end.
pub open spec fn trim(text: Seq<char>) -> Seq<char> {
    trim_end(trim_start(text))
}

/// Whether `token` stands in `text` at index `at`.
pub open spec fn occurs_at(text: Seq<char>, token: Seq<char>, at: int) -> bool {
    &&& 0 <= at
    &&& at + token.len() <= text.len()
    &&& text.subrange(at, at + token.len()) == token
}

/// Whether `token` stands in `text` at index `from` or later.
pub open spec fn occurs_from(text: Seq<char>, token: Seq<char>, from: int) -> bool {
    exists|at: int| from <= at && occurs_at(text, token, at)
}

/// Whether `token` stands anywhere in `text`.
pub open spec fn occurs(text: Seq<char>, token: Seq<char>) -> bool {
    occurs_from(text, token, 0)
}

/// Whether `at` is the leftmost index, not before `from`, at which `token`
/// stands in `text`.
pub open spec fn is_next_occurrence(text: Seq<char>, token: Seq<char>, from: int, at: int) -> bool {
    &&& from <= at
    &&& occurs_at(text, token, at)
    &&& forall|earlier: int| from <= earlier < at ==> !occurs_at(text, token, earlier)
}

/// The leftmost index, not before `from`, at which `token` stands in `text`,
/// where it stands there at all.
pub open spec fn next_occurrence(text: Seq<char>, token: Seq<char>, from: int) -> int {
    choose|at: int| is_next_occurrence(text, token, from, at)
}

/// The leftmost occurrence from an index on is unique.
pub proof fn lemma_next_occurrence_unique(text: Seq<char>, token: Seq<char>, from: int, at: int)
    requires
        is_next_occurrence(text, token, from, at),
    ensures
        occurs_from(text, token, from),
        next_occurrence(text, token, from) == at,
{
    let chosen = next_occurrence(text, token, from);
    assert(is_next_occurrence(text, token, from, chosen));
    if chosen < at {
        assert(!occurs_at(text, token, chosen));
    } else if at < chosen {
        assert(!occurs_at(text, token, at));
    }
}

/// Tells whether `token` stands in `text` at index `at`.
pub fn stands_at(text: &Vec<char>, token: &Vec<char>, at: usize) -> (found: bool)
    ensures
        found == occurs_at(text@, token@, at as int),
{
    if token.len() > text.len() || at > text.len() - token.len() {
        return false;
    }
    let mut i: usize = 0;
    while i < token.len()
        invariant
            i <= token.len(),
            at + token.len() <= text.len(),
            forall|j: int| 0 <= j < i ==> text@[at + j] == token@[j],
        decreases token.len() - i,
    {
        if text[at + i] != token[i] {
            assert(text@.subrange(at as int, at + token.len())[i as int] != token@[i as int]);
            return false;
        }
        i += 1;
    }
    assert(text@.subrange(at as int, at + token.len()) =~= token@);
    true
}

/// Finds the leftmost index, not before `from`, at which `token` stands in
/// `text`.
pub fn find_from(text: &Vec<char>, token: &Vec<char>, from: usize) -> (found: Option<usize>)
    ensures
        match found {
            Some(at) => {
                &&& occurs_from(text@, token@, from as int)
                &&& is_next_occurrence(text@, token@, from as int, at as int)
                &&& at == next_occurrence(text@, token@, from as int)
            },
            None => !occurs_from(text@, token@, from as int),
        },
{
    let mut at: usize = from;
    loop
        invariant
            from <= at,
            forall|j: int| from <= j < at ==> !occurs_at(text@, token@, j),
        decreases text.len() - at,
    {
        if stands_at(text, token, at) {
            proof {
                lemma_next_occurrence_unique(text@, token@, from as int, at as int);
            }
            return Some(at);
        }
        if at >= text.len() {
            return None;
        }
        at += 1;
    }
}

/// The count of leading white space is the index of the first character that
/// is none, or the length where all are.
pub proof fn lemma_leading_spaces(text: Seq<char>, n: int)
    requires
        0 <= n <= text.len(),
        forall|i: int| 0 <= i < n ==> is_space(#[trigger] text[i]),
        n == text.len() || !is_space(text[n]),
    ensures
        leading_spaces(text) == n,
    decreases n,
{
    if n > 0 {
        let rest = text.skip(1);
        assert forall|i: int| 0 <= i < n - 1 implies is_space(#[trigger] rest[i]) by {
            assert(rest[i] == text[i + 1]);
        }
        lemma_leading_spaces(rest, n - 1);
    }
}

/// The count of trailing white space is what follows the last character that
/// is none, or the length where all are.
pub proof fn lemma_trailing_spaces(text: Seq<char>, n: int)
    requires
        0 <= n <= text.len(),
        forall|i: int| text.len() - n <= i < text.len() ==> is_space(#[trigger] text[i]),
        n == text.len() || !is_space(text[text.len() - n - 1]),
    ensures
        trailing_spaces(text) == n,
    decreases n,
{
    if n > 0 {
        let rest = text.drop_last();
        assert forall|i: int| rest.len() - (n - 1) <= i < rest.len() implies is_space(
            #[trigger] rest[i],
        ) by {
            assert(rest[i] == text[i]);
        }
        lemma_trailing_spaces(rest, n - 1);
    }
}

/// Trims the part of `text` from `start` up to `end`: gives the bounds of
/// what is left of it without the white space at either end.
pub fn trim_range(text: &Vec<char>, start: usize, end: usize) -> (bounds: (usize, usize))
    requires
        start <= end <= text.len(),
    ensures
        start <= bounds.0 <= bounds.1 <= end,
        text@.subrange(bounds.0 as int, bounds.1 as int) == trim(
            text@.subrange(start as int, end as int),
        ),
{
    let ghost part = text@.subrange(start as int, end as int);
    let mut low: usize = start;
    while low < end && is_whitespace(text[low])
        invariant
            start <= low <= end <= text.len(),
            forall|i: int| start <= i < low ==> is_space(#[trigger] text@[i]),
        decreases end - low,
    {
        low += 1;
    }
    proof {
        assert forall|i: int| 0 <= i < low - start implies is_space(#[trigger] part[i]) by {
            assert(part[i] == text@[start + i]);
        }
        lemma_leading_spaces(part, low - start);
    }
    let ghost tail = trim_start(part);
    assert(tail =~= text@.subrange(low as int, end as int));
    let mut high: usize = end;
    while high > low && is_whitespace(text[high - 1])
        invariant
            low <= high <= end <= text.len(),
            forall|i: int| high <= i < end ==> is_space(#[trigger] text@[i]),
        decreases high - low,
    {
        high -= 1;
    }
    proof {
        assert forall|i: int| tail.len() - (end - high) <= i < tail.len() implies is_space(
            #[trigger] tail[i],
        ) by {
            assert(tail[i] == text@[low + i]);
        }
        if high == low {
            assert(low == end) by {
                if low < end {
                    assert(is_space(text@[low as int]));
                }
            }
        } else {
            assert(tail[tail.len() - (end - high) - 1] == text@[high - 1]);
        }
        lemma_trailing_spaces(tail, end - high);
        assert(trim_end(tail) =~= text@.subrange(low as int, high as int));
    }
    (low, high)
}

/// The characters of a text, one by one.
pub fn chars_of(text: &str) -> (chars: Vec<char>)
    ensures
        chars@ == text@,
{
    let mut chars: Vec<char> = Vec::new();
    for c in it: text.chars()
        invariant
            it.seq() == text@,
            chars@ == text@.take(it.index() as int),
    {
        chars.push(c);
        assert(chars@ =~= text@.take(it.index() + 1));
    }
    assert(chars@ =~= text@);
    chars
}

} // verus!
