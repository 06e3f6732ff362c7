use media_converter::catalog::get_presets;
use media_converter::settings::{build_args, ConversionSettings};

fn bare(input: &str, output: &str) -> ConversionSettings {
    ConversionSettings {
        input_path: input.to_string(),
        output_path: output.to_string(),
        format: "mp4".to_string(),
        video_codec: None,
        audio_codec: None,
        video_bitrate: None,
        audio_bitrate: None,
        resolution: None,
        fps: None,
        quality: None,
        preset: None,
    }
}

fn full() -> ConversionSettings {
    ConversionSettings {
        input_path: "in.mov".to_string(),
        output_path: "out.mp4".to_string(),
        format: "mp4".to_string(),
        video_codec: Some("libx264".to_string()),
        audio_codec: Some("aac".to_string()),
        video_bitrate: Some("1500k".to_string()),
        audio_bitrate: Some("128k".to_string()),
        resolution: Some("1280x720".to_string()),
        fps: Some("30".to_string()),
        quality: Some("23".to_string()),
        preset: Some("fast".to_string()),
    }
}

const FLAGS: [&str; 8] = ["-c:v", "-c:a", "-b:v", "-b:a", "-s", "-r", "-crf", "-preset"];

fn with_field(index: usize, value: &str) -> ConversionSettings {
    let mut settings = bare("a", "b");
    let value = Some(value.to_string());
    match index {
        0 => settings.video_codec = value,
        1 => settings.audio_codec = value,
        2 => settings.video_bitrate = value,
        3 => settings.audio_bitrate = value,
        4 => settings.resolution = value,
        5 => settings.fps = value,
        6 => settings.quality = value,
        7 => settings.preset = value,
        _ => unreachable!(),
    }
    settings
}

#[test]
fn every_field_set_gives_the_full_command_line() {
    let args = build_args(&full());
    let expected = vec![
        "-i", "in.mov", "-y", "-progress", "pipe:1", "-c:v", "libx264", "-c:a", "aac", "-b:v",
        "1500k", "-b:a", "128k", "-s", "1280x720", "-r", "30", "-crf", "23", "-preset", "fast",
        "out.mp4",
    ];
    assert_eq!(args, expected);
    assert_eq!(args.len(), 22);
}

#[test]
fn no_field_set_gives_only_the_frame() {
    let args = build_args(&bare("clip.avi", "clip.mkv"));
    assert_eq!(args, vec!["-i", "clip.avi", "-y", "-progress", "pipe:1", "clip.mkv"]);
}

#[test]
fn empty_paths_are_passed_as_they_are() {
    let args = build_args(&bare("", ""));
    assert_eq!(args, vec!["-i", "", "-y", "-progress", "pipe:1", ""]);
}

#[test]
fn the_format_is_not_an_argument() {
    let mut settings = bare("a", "b");
    settings.format = "webm".to_string();
    let args = build_args(&settings);
    assert!(!args.contains(&"webm".to_string()));
    assert_eq!(args.len(), 6);
}

#[test]
fn a_single_field_puts_its_flag_right_before_its_value() {
    for index in 0..8 {
        let args = build_args(&with_field(index, "value"));
        assert_eq!(args.len(), 8);
        assert_eq!(args[5], FLAGS[index]);
        assert_eq!(args[6], "value");
        assert_eq!(args[7], "b");
    }
}

#[test]
fn an_absent_field_leaves_no_flag() {
    for index in 0..8 {
        let args = build_args(&with_field(index, "value"));
        for (other, flag) in FLAGS.iter().enumerate() {
            let found = args.iter().any(|token| token == flag);
            assert_eq!(found, other == index);
        }
    }
    let args = build_args(&bare("a", "b"));
    for flag in FLAGS.iter() {
        assert!(!args.iter().any(|token| token == flag));
    }
}

#[test]
fn a_path_that_reads_like_a_flag_is_still_only_a_path() {
    let args = build_args(&bare("-c:v", "-preset"));
    assert_eq!(args, vec!["-i", "-c:v", "-y", "-progress", "pipe:1", "-preset"]);
}

#[test]
fn the_fields_keep_their_order_when_some_are_absent() {
    let mut settings = bare("in", "out");
    settings.preset = Some("slow".to_string());
    settings.audio_codec = Some("flac".to_string());
    settings.fps = Some("24".to_string());
    let args = build_args(&settings);
    assert_eq!(
        args,
        vec![
            "-i", "in", "-y", "-progress", "pipe:1", "-c:a", "flac", "-r", "24", "-preset",
            "slow", "out",
        ]
    );
}

#[test]
fn each_flag_stands_after_those_of_the_fields_before_it() {
    let args = build_args(&full());
    let mut last = 4;
    for flag in FLAGS.iter() {
        let at = args.iter().position(|token| token == flag).unwrap();
        assert_eq!(at, last + if last == 4 { 1 } else { 2 });
        last = at;
    }
}

#[test]
fn the_quality_flag_is_the_video_one_even_without_video() {
    let mut settings = bare("song.wav", "song.mp3");
    settings.audio_codec = Some("libmp3lame".to_string());
    settings.quality = Some("2".to_string());
    let args = build_args(&settings);
    assert_eq!(
        args,
        vec![
            "-i", "song.wav", "-y", "-progress", "pipe:1", "-c:a", "libmp3lame", "-crf", "2",
            "song.mp3",
        ]
    );
}

#[test]
fn values_are_not_judged() {
    let mut settings = bare("a b.mp4", "ç.mp4");
    settings.resolution = Some("not a size".to_string());
    settings.fps = Some("".to_string());
    let args = build_args(&settings);
    assert_eq!(
        args,
        vec!["-i", "a b.mp4", "-y", "-progress", "pipe:1", "-s", "not a size", "-r", "", "ç.mp4"]
    );
}

#[test]
fn building_twice_gives_the_same_arguments() {
    let settings = full();
    assert_eq!(build_args(&settings), build_args(&settings));
    assert_eq!(build_args(&settings), build_args(&settings.clone()));
}

#[test]
fn building_a_preset_twice_gives_the_same_arguments() {
    let presets = get_presets().unwrap();
    assert_eq!(presets.len(), 6);
    for preset in presets.iter() {
        let first = build_args(&preset.settings);
        let second = build_args(&preset.settings);
        assert_eq!(first, second);
        assert_eq!(first[0], "-i");
        assert_eq!(first[1], "");
        assert_eq!(first[first.len() - 1], "");
    }
}

#[test]
fn the_audio_preset_builds_its_two_pairs() {
    let presets = get_presets().unwrap();
    let args = build_args(&presets[3].settings);
    assert_eq!(
        args,
        vec!["-i", "", "-y", "-progress", "pipe:1", "-c:a", "libmp3lame", "-b:a", "320k", ""]
    );
}
