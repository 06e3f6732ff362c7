use media_converter::outcome::ConversionOutcome;

#[test]
fn a_success_status_is_a_success() {
    let outcome = ConversionOutcome::from_exit(true, "warnings only");
    assert_eq!(outcome, ConversionOutcome::Success("Dönüştürme başarılı!".to_string()));
    assert!(outcome.is_success());
    assert_eq!(outcome.message(), "Dönüştürme başarılı!");
    assert_eq!(outcome.into_result(), Ok("Dönüştürme başarılı!".to_string()));
}

#[test]
fn another_status_is_a_failure_that_shows_standard_error() {
    let stderr = "out.mp4: No such file or directory\nConversion failed!\n";
    let outcome = ConversionOutcome::from_exit(false, stderr);
    assert_eq!(
        outcome,
        ConversionOutcome::Failure(
            "FFmpeg hatası: out.mp4: No such file or directory\nConversion failed!\n"
                .to_string()
        )
    );
    assert!(!outcome.is_success());
    assert!(outcome.message().ends_with(stderr));
    assert!(outcome.message().contains(stderr));
    assert_eq!(outcome.into_result(), Err(format!("FFmpeg hatası: {}", stderr)));
}

#[test]
fn a_failure_with_empty_standard_error_has_only_the_prefix() {
    let outcome = ConversionOutcome::from_exit(false, "");
    assert_eq!(outcome, ConversionOutcome::Failure("FFmpeg hatası: ".to_string()));
}

#[test]
fn standard_error_bytes_are_decoded() {
    let outcome = ConversionOutcome::from_exit_bytes(false, "dosya bulunamadı".as_bytes());
    assert_eq!(outcome, ConversionOutcome::Failure("FFmpeg hatası: dosya bulunamadı".to_string()));
    let outcome = ConversionOutcome::from_exit_bytes(false, b"");
    assert_eq!(outcome, ConversionOutcome::Failure("FFmpeg hatası: ".to_string()));
    let outcome = ConversionOutcome::from_exit_bytes(true, b"ignored");
    assert_eq!(outcome, ConversionOutcome::Success("Dönüştürme başarılı!".to_string()));
}

#[test]
fn invalid_bytes_are_replaced_not_dropped() {
    let outcome = ConversionOutcome::from_exit_bytes(false, &[0x66, 0xff, 0x6f, 0xc3]);
    assert_eq!(
        outcome,
        ConversionOutcome::Failure("FFmpeg hatası: f\u{fffd}o\u{fffd}".to_string())
    );
}

#[test]
fn a_cancelled_job_says_so() {
    let outcome = ConversionOutcome::cancelled();
    assert_eq!(outcome, ConversionOutcome::Cancelled("Dönüştürme iptal edildi".to_string()));
    assert!(!outcome.is_success());
    assert_eq!(outcome.into_result(), Err("Dönüştürme iptal edildi".to_string()));
}

#[test]
fn a_failed_launch_gives_its_reason() {
    let outcome = ConversionOutcome::spawn_failed("No such file or directory (os error 2)");
    assert_eq!(
        outcome,
        ConversionOutcome::SpawnError(
            "FFmpeg başlatılamadı: No such file or directory (os error 2)".to_string()
        )
    );
    assert_eq!(
        outcome.into_result(),
        Err("FFmpeg başlatılamadı: No such file or directory (os error 2)".to_string())
    );
}

#[test]
fn a_missing_stream_is_a_stream_error() {
    let outcome = ConversionOutcome::stream_unavailable();
    assert_eq!(outcome, ConversionOutcome::StreamError("FFmpeg stdout alınamadı".to_string()));
    assert_eq!(outcome.into_result(), Err("FFmpeg stdout alınamadı".to_string()));
}

#[test]
fn a_failed_wait_gives_its_reason() {
    let outcome = ConversionOutcome::wait_failed("interrupted");
    assert_eq!(
        outcome,
        ConversionOutcome::WaitError("FFmpeg çalıştırılamadı: interrupted".to_string())
    );
    assert_eq!(outcome.message(), "FFmpeg çalıştırılamadı: interrupted");
    assert_eq!(outcome.into_result(), Err("FFmpeg çalıştırılamadı: interrupted".to_string()));
}
