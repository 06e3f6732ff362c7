use media_converter::progress::{progress_event_name, time_field, ConversionProgress};

fn field(line: &str) -> Option<String> {
    time_field(line)
}

fn seconds_text(field: &str) -> Option<String> {
    let micros: f64 = field.parse().ok()?;
    Some(format!("{:.1}", micros / 1_000_000.0))
}

#[test]
fn a_progress_line_gives_its_number() {
    assert_eq!(field("out_time_ms=2500000"), Some("2500000".to_string()));
}

#[test]
fn a_progress_line_reports_two_and_a_half_seconds() {
    let field = time_field("out_time_ms=2500000").unwrap();
    let update = ConversionProgress::at_seconds(&seconds_text(&field).unwrap());
    assert_eq!(update.time, "2.5s");
    assert_eq!(update.percentage, 0);
    assert_eq!(update.speed, "1x");
    assert_eq!(update.bitrate, "0kbits/s");
}

#[test]
fn a_line_without_the_token_has_no_field() {
    assert_eq!(field(""), None);
    assert_eq!(field("frame=120"), None);
    assert_eq!(field("out_time=00:00:02.500000"), None);
    assert_eq!(field("out_time_us=2500000"), None);
    assert_eq!(field("out_time_ms"), None);
    assert_eq!(field("out_time_ms ="), None);
    assert_eq!(field("OUT_TIME_MS=5"), None);
    assert_eq!(field("progress=continue"), None);
    assert_eq!(field("ut_time_ms=5"), None);
}

#[test]
fn white_space_round_the_field_does_not_count() {
    assert_eq!(field("out_time_ms=  42 \t"), Some("42".to_string()));
    assert_eq!(field("out_time_ms=\r"), Some(String::new()));
    assert_eq!(field("out_time_ms=7\r"), Some("7".to_string()));
    assert_eq!(field("out_time_ms=\u{3000}5\u{a0}"), Some("5".to_string()));
    assert_eq!(field("out_time_ms= 1 2 "), Some("1 2".to_string()));
}

#[test]
fn an_empty_field_is_still_a_field() {
    assert_eq!(field("out_time_ms="), Some(String::new()));
    assert_eq!(field("out_time_ms=   "), Some(String::new()));
}

#[test]
fn the_field_ends_at_the_next_token() {
    assert_eq!(field("out_time_ms=1out_time_ms=2"), Some("1".to_string()));
    assert_eq!(field("out_time_ms=out_time_ms=2"), Some(String::new()));
    assert_eq!(field("out_time_ms= 3 out_time_ms=4 out_time_ms=5"), Some("3".to_string()));
}

#[test]
fn the_token_may_stand_anywhere_in_the_line() {
    assert_eq!(field("xx out_time_ms=7"), Some("7".to_string()));
    assert_eq!(field("zaman ölçümü out_time_ms=9 "), Some("9".to_string()));
    assert_eq!(field("out_time_out_time_ms=11"), Some("11".to_string()));
}

#[test]
fn the_field_is_not_judged() {
    assert_eq!(field("out_time_ms=N/A"), Some("N/A".to_string()));
    assert_eq!(field("out_time_ms=-5"), Some("-5".to_string()));
    assert_eq!(field("out_time_ms=2.5e6"), Some("2.5e6".to_string()));
    assert_eq!(seconds_text("N/A"), None);
    assert_eq!(seconds_text(""), None);
}

#[test]
fn the_field_agrees_with_splitting_the_line() {
    let lines = [
        "out_time_ms=2500000",
        "frame=1",
        " out_time_ms= 12 out_time_ms=13",
        "out_time_ms=\u{2003}x\u{2028}",
        "out_time_ms=out_time_ms=",
        "öout_time_ms=ç",
        "",
    ];
    for line in lines.iter() {
        let expected = if line.contains("out_time_ms=") {
            line.split("out_time_ms=").nth(1).map(|part| part.trim().to_string())
        } else {
            None
        };
        assert_eq!(field(line), expected);
    }
}

#[test]
fn an_update_carries_the_seconds_and_the_placeholders() {
    let update = ConversionProgress::at_seconds("0.0");
    assert_eq!(
        update,
        ConversionProgress {
            percentage: 0,
            time: "0.0s".to_string(),
            speed: "1x".to_string(),
            bitrate: "0kbits/s".to_string(),
        }
    );
    assert_eq!(ConversionProgress::at_seconds("").time, "s");
    assert_eq!(ConversionProgress::at_seconds("3723.4").time, "3723.4s");
}

#[test]
fn whole_and_fractional_seconds_are_shown_with_one_decimal() {
    let update = |line: &str| {
        let field = time_field(line).unwrap();
        ConversionProgress::at_seconds(&seconds_text(&field).unwrap()).time
    };
    assert_eq!(update("out_time_ms=0"), "0.0s");
    assert_eq!(update("out_time_ms=1000000"), "1.0s");
    assert_eq!(update("out_time_ms=61300000"), "61.3s");
    assert_eq!(update("out_time_ms=-1500000"), "-1.5s");
}

#[test]
fn updates_are_published_under_one_name() {
    assert_eq!(progress_event_name(), "conversion-progress");
}
