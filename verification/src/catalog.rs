//! The fixed catalogs: the formats that can be converted to, and the named
//! presets of settings.

use crate::settings::{ConversionSettings, SettingsView};
use vstd::prelude::*;

verus! {

/// One entry of the catalog of formats.
#[derive(Debug, Clone, PartialEq, Eq)]
pub struct FormatInfo {
    pub name: String,
    pub extensions: Vec<String>,
    pub description: String,
    pub category: String,
}

/// The mathematical value of a [`FormatInfo`].
pub ghost struct FormatView {
    pub name: Seq<char>,
    pub extensions: Seq<Seq<char>>,
    pub description: Seq<char>,
    pub category: Seq<char>,
}

impl View for FormatInfo {
    type V = FormatView;

    open spec fn view(&self) -> FormatView {
        FormatView {
            name: self.name@,
            extensions: self.extensions.deep_view(),
            description: self.description@,
            category: self.category@,
        }
    }
}

impl DeepView for FormatInfo {
    type V = FormatView;

    open spec fn deep_view(&self) -> FormatView {
        self@
    }
}

/// One named preset: settings with both paths left empty, for the caller to
/// fill in.
#[derive(Debug, Clone, PartialEq, Eq)]
pub struct PresetInfo {
    pub name: String,
    pub description: String,
    pub settings: ConversionSettings,
}

/// The mathematical value of a [`PresetInfo`].
pub ghost struct PresetView {
    pub name: Seq<char>,
    pub description: Seq<char>,
    pub settings: SettingsView,
}

impl View for PresetInfo {
    type V = PresetView;

    open spec fn view(&self) -> PresetView {
        PresetView { name: self.name@, description: self.description@, settings: self.settings@ }
    }
}

impl DeepView for PresetInfo {
    type V = PresetView;

    open spec fn deep_view(&self) -> PresetView {
        self@
    }
}

/// A format with a single file extension.
pub open spec fn format_entry(
    name: Seq<char>,
    extension: Seq<char>,
    description: Seq<char>,
    category: Seq<char>,
) -> FormatView {
    FormatView { name, extensions: seq![extension], description, category }
}

/// The catalog of formats: eight video formats, then eight audio formats.
pub open spec fn supported_formats() -> Seq<FormatView> {
    seq![
        format_entry("MP4"@, "mp4"@, "MPEG-4 Part 14 - En yaygın video formatı"@, "video"@),
        format_entry("AVI"@, "avi"@, "Audio Video Interleave"@, "video"@),
        format_entry("MKV"@, "mkv"@, "Matroska Video - Yüksek kalite"@, "video"@),
        format_entry("MOV"@, "mov"@, "QuickTime Movie"@, "video"@),
        format_entry("WEBM"@, "webm"@, "Web video formatı"@, "video"@),
        format_entry("FLV"@, "flv"@, "Flash Video"@, "video"@),
        format_entry("WMV"@, "wmv"@, "Windows Media Video"@, "video"@),
        format_entry("M4V"@, "m4v"@, "iTunes Video"@, "video"@),
        format_entry("MP3"@, "mp3"@, "MPEG Audio Layer 3"@, "audio"@),
        format_entry("WAV"@, "wav"@, "Waveform Audio - Lossless"@, "audio"@),
        format_entry("FLAC"@, "flac"@, "Free Lossless Audio Codec"@, "audio"@),
        format_entry("AAC"@, "aac"@, "Advanced Audio Coding"@, "audio"@),
        format_entry("OGG"@, "ogg"@, "Ogg Vorbis"@, "audio"@),
        format_entry("WMA"@, "wma"@, "Windows Media Audio"@, "audio"@),
        format_entry("M4A"@, "m4a"@, "MPEG-4 Audio"@, "audio"@),
        format_entry("OPUS"@, "opus"@, "Opus Audio - Modern codec"@, "audio"@),
    ]
}

/// Makes a format with a single file extension.
fn format_info(name: &str, extension: &str, description: &str, category: &str) -> (info:
    FormatInfo)
    ensures
        info@ == format_entry(name@, extension@, description@, category@),
{
    let mut extensions: Vec<String> = Vec::new();
    extensions.push(extension.to_string());
    assert(extensions.deep_view() =~= seq![extension@]);
    FormatInfo {
        name: name.to_string(),
        extensions,
        description: description.to_string(),
        category: category.to_string(),
    }
}

/// The catalog of formats. It never fails.
pub fn get_supported_formats() -> (formats: Result<Vec<FormatInfo>, String>)
    ensures
        formats is Ok,
        formats->Ok_0.deep_view() == supported_formats(),
{
    let mut formats: Vec<FormatInfo> = Vec::new();
    formats.push(format_info("MP4", "mp4", "MPEG-4 Part 14 - En yaygın video formatı", "video"));
    formats.push(format_info("AVI", "avi", "Audio Video Interleave", "video"));
    formats.push(format_info("MKV", "mkv", "Matroska Video - Yüksek kalite", "video"));
    formats.push(format_info("MOV", "mov", "QuickTime Movie", "video"));
    formats.push(format_info("WEBM", "webm", "Web video formatı", "video"));
    formats.push(format_info("FLV", "flv", "Flash Video", "video"));
    formats.push(format_info("WMV", "wmv", "Windows Media Video", "video"));
    formats.push(format_info("M4V", "m4v", "iTunes Video", "video"));
    formats.push(format_info("MP3", "mp3", "MPEG Audio Layer 3", "audio"));
    formats.push(format_info("WAV", "wav", "Waveform Audio - Lossless", "audio"));
    formats.push(format_info("FLAC", "flac", "Free Lossless Audio Codec", "audio"));
    formats.push(format_info("AAC", "aac", "Advanced Audio Coding", "audio"));
    formats.push(format_info("OGG", "ogg", "Ogg Vorbis", "audio"));
    formats.push(format_info("WMA", "wma", "Windows Media Audio", "audio"));
    formats.push(format_info("M4A", "m4a", "MPEG-4 Audio", "audio"));
    formats.push(format_info("OPUS", "opus", "Opus Audio - Modern codec", "audio"));
    assert(formats.deep_view() =~= supported_formats());
    Ok(formats)
}

/// Every format of the catalog has one extension, and its category is
/// `video` for the first eight entries and `audio` for the other eight.
pub proof fn lemma_formats_by_category(i: int)
    requires
        0 <= i < supported_formats().len(),
    ensures
        supported_formats().len() == 16,
        supported_formats()[i].extensions.len() == 1,
        supported_formats()[i].category == if i < 8 {
            "video"@
        } else {
            "audio"@
        },
{
}

/// The text of an optional value.
pub open spec fn optional_text(value: Option<&str>) -> Option<Seq<char>> {
    match value {
        Some(text) => Some(text@),
        None => None,
    }
}

/// A preset: settings for a format with the given optional values, in the
/// order video codec, audio codec, video bitrate, audio bitrate, resolution,
/// frame rate, quality, speed preset, and with both paths empty.
pub open spec fn preset_entry(
    name: Seq<char>,
    description: Seq<char>,
    format: Seq<char>,
    codecs: (Option<Seq<char>>, Option<Seq<char>>),
    bitrates: (Option<Seq<char>>, Option<Seq<char>>),
    picture: (Option<Seq<char>>, Option<Seq<char>>),
    encoding: (Option<Seq<char>>, Option<Seq<char>>),
) -> PresetView {
    PresetView {
        name,
        description,
        settings: SettingsView {
            input_path: Seq::empty(),
            output_path: Seq::empty(),
            format,
            video_codec: codecs.0,
            audio_codec: codecs.1,
            video_bitrate: bitrates.0,
            audio_bitrate: bitrates.1,
            resolution: picture.0,
            fps: picture.1,
            quality: encoding.0,
            preset: encoding.1,
        },
    }
}

/// The catalog of presets.
pub open spec fn presets() -> Seq<PresetView> {
    seq![
        preset_entry(
            "Yüksek Kalite Video"@,
            "En iyi görüntü kalitesi için"@,
            "mp4"@,
            (Some("libx264"@), Some("aac"@)),
            (Some("5000k"@), Some("320k"@)),
            (None, None),
            (Some("18"@), Some("slow"@)),
        ),
        preset_entry(
            "Web Optimize"@,
            "Web için optimize edilmiş, küçük dosya"@,
            "mp4"@,
            (Some("libx264"@), Some("aac"@)),
            (Some("1500k"@), Some("128k"@)),
            (Some("1280x720"@), Some("30"@)),
            (Some("23"@), Some("fast"@)),
        ),
        preset_entry(
            "Mobil Uyumlu"@,
            "Mobil cihazlar için optimize"@,
            "mp4"@,
            (Some("libx264"@), Some("aac"@)),
            (Some("800k"@), Some("96k"@)),
            (Some("854x480"@), Some("24"@)),
            (Some("28"@), Some("veryfast"@)),
        ),
        preset_entry(
            "Sadece Ses Çıkar"@,
            "Videodan ses dosyası oluştur"@,
            "mp3"@,
            (None, Some("libmp3lame"@)),
            (None, Some("320k"@)),
            (None, None),
            (None, None),
        ),
        preset_entry(
            "Kayıpsız Audio"@,
            "En yüksek ses kalitesi"@,
            "flac"@,
            (None, Some("flac"@)),
            (None, None),
            (None, None),
            (None, None),
        ),
        preset_entry(
            "4K Video"@,
            "Ultra HD video dönüşümü"@,
            "mp4"@,
            (Some("libx265"@), Some("aac"@)),
            (Some("15000k"@), Some("320k"@)),
            (Some("3840x2160"@), Some("60"@)),
            (Some("20"@), Some("slow"@)),
        ),
    ]
}

/// An owned copy of an optional value.
fn owned(value: Option<&str>) -> (copy: Option<String>)
    ensures
        copy.deep_view() == optional_text(value),
{
    match value {
        Some(text) => Some(text.to_string()),
        None => None,
    }
}

/// Makes a preset with both paths empty.
fn preset_info(
    name: &str,
    description: &str,
    format: &str,
    codecs: (Option<&str>, Option<&str>),
    bitrates: (Option<&str>, Option<&str>),
    picture: (Option<&str>, Option<&str>),
    encoding: (Option<&str>, Option<&str>),
) -> (info: PresetInfo)
    ensures
        info@ == preset_entry(
            name@,
            description@,
            format@,
            (optional_text(codecs.0), optional_text(codecs.1)),
            (optional_text(bitrates.0), optional_text(bitrates.1)),
            (optional_text(picture.0), optional_text(picture.1)),
            (optional_text(encoding.0), optional_text(encoding.1)),
        ),
{
    PresetInfo {
        name: name.to_string(),
        description: description.to_string(),
        settings: ConversionSettings {
            input_path: String::new(),
            output_path: String::new(),
            format: format.to_string(),
            video_codec: owned(codecs.0),
            audio_codec: owned(codecs.1),
            video_bitrate: owned(bitrates.0),
            audio_bitrate: owned(bitrates.1),
            resolution: owned(picture.0),
            fps: owned(picture.1),
            quality: owned(encoding.0),
            preset: owned(encoding.1),
        },
    }
}

/// The catalog of presets. It never fails.
pub fn get_presets() -> (catalog: Result<Vec<PresetInfo>, String>)
    ensures
        catalog is Ok,
        catalog->Ok_0.deep_view() == presets(),
{
    let mut catalog: Vec<PresetInfo> = Vec::new();
    catalog.push(
        preset_info(
            "Yüksek Kalite Video",
            "En iyi görüntü kalitesi için",
            "mp4",
            (Some("libx264"), Some("aac")),
            (Some("5000k"), Some("320k")),
            (None, None),
            (Some("18"), Some("slow")),
        ),
    );
    catalog.push(
        preset_info(
            "Web Optimize",
            "Web için optimize edilmiş, küçük dosya",
            "mp4",
            (Some("libx264"), Some("aac")),
            (Some("1500k"), Some("128k")),
            (Some("1280x720"), Some("30")),
            (Some("23"), Some("fast")),
        ),
    );
    catalog.push(
        preset_info(
            "Mobil Uyumlu",
            "Mobil cihazlar için optimize",
            "mp4",
            (Some("libx264"), Some("aac")),
            (Some("800k"), Some("96k")),
            (Some("854x480"), Some("24")),
            (Some("28"), Some("veryfast")),
        ),
    );
    catalog.push(
        preset_info(
            "Sadece Ses Çıkar",
            "Videodan ses dosyası oluştur",
            "mp3",
            (None, Some("libmp3lame")),
            (None, Some("320k")),
            (None, None),
            (None, None),
        ),
    );
    catalog.push(
        preset_info(
            "Kayıpsız Audio",
            "En yüksek ses kalitesi",
            "flac",
            (None, Some("flac")),
            (None, None),
            (None, None),
            (None, None),
        ),
    );
    catalog.push(
        preset_info(
            "4K Video",
            "Ultra HD video dönüşümü",
            "mp4",
            (Some("libx265"), Some("aac")),
            (Some("15000k"), Some("320k")),
            (Some("3840x2160"), Some("60")),
            (Some("20"), Some("slow")),
        ),
    );
    assert(catalog.deep_view() =~= presets());
    Ok(catalog)
}

/// Every preset leaves both paths empty and sets an audio codec.
pub proof fn lemma_presets_leave_paths_open(i: int)
    requires
        0 <= i < presets().len(),
    ensures
        presets().len() == 6,
        presets()[i].settings.input_path.len() == 0,
        presets()[i].settings.output_path.len() == 0,
        presets()[i].settings.audio_codec is Some,
{
}

} // verus!
