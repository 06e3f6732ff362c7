//! The settings of one conversion and the argument vector built from them.

use vstd::prelude::*;

verus! {

/// One requested conversion.
///
/// Nothing is validated beyond presence: the transcoder judges the values.
/// An optional field that is `None` means "do not set"; no sentinel value
/// stands for absence.
#[derive(Debug, Clone, PartialEq, Eq)]
pub struct ConversionSettings {
    pub input_path: String,
    pub output_path: String,
    pub format: String,
    pub video_codec: Option<String>,
    pub audio_codec: Option<String>,
    pub video_bitrate: Option<String>,
    pub audio_bitrate: Option<String>,
    pub resolution: Option<String>,
    pub fps: Option<String>,
    pub quality: Option<String>,
    pub preset: Option<String>,
}

/// The mathematical value of a [`ConversionSettings`]: every text as the
/// sequence of its characters.
pub ghost struct SettingsView {
    pub input_path: Seq<char>,
    pub output_path: Seq<char>,
    pub format: Seq<char>,
    pub video_codec: Option<Seq<char>>,
    pub audio_codec: Option<Seq<char>>,
    pub video_bitrate: Option<Seq<char>>,
    pub audio_bitrate: Option<Seq<char>>,
    pub resolution: Option<Seq<char>>,
    pub fps: Option<Seq<char>>,
    pub quality: Option<Seq<char>>,
    pub preset: Option<Seq<char>>,
}

impl View for ConversionSettings {
    type V = SettingsView;

    open spec fn view(&self) -> SettingsView {
        SettingsView {
            input_path: self.input_path@,
            output_path: self.output_path@,
            format: self.format@,
            video_codec: self.video_codec.deep_view(),
            audio_codec: self.audio_codec.deep_view(),
            video_bitrate: self.video_bitrate.deep_view(),
            audio_bitrate: self.audio_bitrate.deep_view(),
            resolution: self.resolution.deep_view(),
            fps: self.fps.deep_view(),
            quality: self.quality.deep_view(),
            preset: self.preset.deep_view(),
        }
    }
}

impl DeepView for ConversionSettings {
    type V = SettingsView;

    open spec fn deep_view(&self) -> SettingsView {
        self@
    }
}

/// The optional fields of the settings, in the order in which their flags
/// are written.
pub enum Knob {
    VideoCodec,
    AudioCodec,
    VideoBitrate,
    AudioBitrate,
    Resolution,
    Fps,
    Quality,
    Preset,
}

impl Knob {
    /// The flag that introduces this field's value on the command line.
    pub open spec fn flag(self) -> Seq<char> {
        match self {
            Knob::VideoCodec => "-c:v"@,
            Knob::AudioCodec => "-c:a"@,
            Knob::VideoBitrate => "-b:v"@,
            Knob::AudioBitrate => "-b:a"@,
            Knob::Resolution => "-s"@,
            Knob::Fps => "-r"@,
            Knob::Quality => "-crf"@,
            Knob::Preset => "-preset"@,
        }
    }

    /// The place of this field in the fixed order, from 0.
    pub open spec fn rank(self) -> int {
        match self {
            Knob::VideoCodec => 0,
            Knob::AudioCodec => 1,
            Knob::VideoBitrate => 2,
            Knob::AudioBitrate => 3,
            Knob::Resolution => 4,
            Knob::Fps => 5,
            Knob::Quality => 6,
            Knob::Preset => 7,
        }
    }
}

/// The tokens that one optional field contributes: its flag and its value
/// where it is set, nothing where it is not.
pub open spec fn flag_pair(flag: Seq<char>, value: Option<Seq<char>>) -> Seq<Seq<char>> {
    match value {
        Some(v) => seq![flag, v],
        None => Seq::empty(),
    }
}

/// The tokens that open every argument vector: the input file, the flag that
/// lets an existing output be overwritten, and the request for the progress
/// stream on standard output.
pub open spec fn leading_args(input_path: Seq<char>) -> Seq<Seq<char>> {
    seq!["-i"@, input_path, "-y"@, "-progress"@, "pipe:1"@]
}

impl SettingsView {
    /// The value of an optional field.
    pub open spec fn value(self, knob: Knob) -> Option<Seq<char>> {
        match knob {
            Knob::VideoCodec => self.video_codec,
            Knob::AudioCodec => self.audio_codec,
            Knob::VideoBitrate => self.video_bitrate,
            Knob::AudioBitrate => self.audio_bitrate,
            Knob::Resolution => self.resolution,
            Knob::Fps => self.fps,
            Knob::Quality => self.quality,
            Knob::Preset => self.preset,
        }
    }

    /// The tokens that an optional field contributes.
    pub open spec fn pair(self, knob: Knob) -> Seq<Seq<char>> {
        flag_pair(knob.flag(), self.value(knob))
    }

    /// 1 where the field is set, 0 where it is not.
    pub open spec fn present(self, knob: Knob) -> int {
        if self.value(knob) is Some {
            1
        } else {
            0
        }
    }

    /// How many of the optional fields that come before `knob` are set.
    pub open spec fn present_before(self, knob: Knob) -> int {
        (if 0 < knob.rank() { self.present(Knob::VideoCodec) } else { 0 })
        + (if 1 < knob.rank() { self.present(Knob::AudioCodec) } else { 0 })
        + (if 2 < knob.rank() { self.present(Knob::VideoBitrate) } else { 0 })
        + (if 3 < knob.rank() { self.present(Knob::AudioBitrate) } else { 0 })
        + (if 4 < knob.rank() { self.present(Knob::Resolution) } else { 0 })
        + (if 5 < knob.rank() { self.present(Knob::Fps) } else { 0 })
        + (if 6 < knob.rank() { self.present(Knob::Quality) } else { 0 })
    }

    /// How many of the optional fields are set.
    pub open spec fn present_count(self) -> int {
        self.present_before(Knob::Preset) + self.present(Knob::Preset)
    }

    /// Where the flag of `knob` stands in the argument vector, if the field
    /// is set: after the five leading tokens and the pairs of the set fields
    /// before it.
    pub open spec fn flag_index(self, knob: Knob) -> int {
        5 + 2 * self.present_before(knob)
    }

    /// The argument vector for these settings.
    pub open spec fn args(self) -> Seq<Seq<char>> {
        leading_args(self.input_path)
        + self.pair(Knob::VideoCodec)
        + self.pair(Knob::AudioCodec)
        + self.pair(Knob::VideoBitrate)
        + self.pair(Knob::AudioBitrate)
        + self.pair(Knob::Resolution)
        + self.pair(Knob::Fps)
        + self.pair(Knob::Quality)
        + self.pair(Knob::Preset)
        + seq![self.output_path]
    }
}

/// Appends the flag and the value of one optional field, if it is set.
fn push_pair(args: &mut Vec<String>, flag: &str, value: &Option<String>)
    ensures
        final(args).deep_view() == old(args).deep_view() + flag_pair(flag@, value.deep_view()),
{
    match value {
        Some(v) => {
            args.push(flag.to_string());
            args.push(v.clone());
            assert(args.deep_view() =~= old(args).deep_view() + seq![flag@, v@]);
        },
        None => {
            assert(args.deep_view() =~= old(args).deep_view() + Seq::<Seq<char>>::empty());
        },
    }
}

/// Builds the argument vector for the transcoder.
///
/// The vector opens with `-i <input> -y -progress pipe:1`, goes on with one
/// flag and value for each optional field that is set, in the fixed order
/// video codec, audio codec, video bitrate, audio bitrate, resolution, frame
/// rate, quality, preset, and closes with the output path. The flags are not
/// checked against each other: the quality flag is the video one even for a
/// job without video.
pub fn build_args(settings: &ConversionSettings) -> (args: Vec<String>)
    ensures
        args.deep_view() == settings@.args(),
{
    let mut args: Vec<String> = Vec::new();
    args.push("-i".to_string());
    args.push(settings.input_path.clone());
    args.push("-y".to_string());
    args.push("-progress".to_string());
    args.push("pipe:1".to_string());
    assert(args.deep_view() =~= leading_args(settings.input_path@));
    push_pair(&mut args, "-c:v", &settings.video_codec);
    push_pair(&mut args, "-c:a", &settings.audio_codec);
    push_pair(&mut args, "-b:v", &settings.video_bitrate);
    push_pair(&mut args, "-b:a", &settings.audio_bitrate);
    push_pair(&mut args, "-s", &settings.resolution);
    push_pair(&mut args, "-r", &settings.fps);
    push_pair(&mut args, "-crf", &settings.quality);
    push_pair(&mut args, "-preset", &settings.preset);
    let ghost before = args.deep_view();
    args.push(settings.output_path.clone());
    assert(args.deep_view() =~= before + seq![settings.output_path@]);
    args
}

/// The eight flags and the four fixed leading tokens are pairwise different.
proof fn lemma_fixed_tokens_differ()
    ensures
        forall|j: Knob, k: Knob| j != k ==> #[trigger] j.flag() != #[trigger] k.flag(),
        forall|k: Knob|
            #![trigger k.flag()]
            k.flag() != "-i"@ && k.flag() != "-y"@ && k.flag() != "-progress"@ && k.flag()
                != "pipe:1"@,
{
    reveal_strlit("-c:v");
    reveal_strlit("-c:a");
    reveal_strlit("-b:v");
    reveal_strlit("-b:a");
    reveal_strlit("-s");
    reveal_strlit("-r");
    reveal_strlit("-crf");
    reveal_strlit("-preset");
    reveal_strlit("-i");
    reveal_strlit("-y");
    reveal_strlit("-progress");
    reveal_strlit("pipe:1");
    assert("-c:v"@[3] != "-c:a"@[3]);
    assert("-c:v"@[1] != "-b:v"@[1]);
    assert("-c:v"@[1] != "-b:a"@[1]);
    assert("-c:a"@[1] != "-b:v"@[1]);
    assert("-c:a"@[1] != "-b:a"@[1]);
    assert("-b:v"@[3] != "-b:a"@[3]);
    assert("-s"@[1] != "-r"@[1]);
    assert("-i"@[1] != "-y"@[1]);
    assert("-s"@[1] != "-i"@[1] && "-s"@[1] != "-y"@[1]);
    assert("-r"@[1] != "-i"@[1] && "-r"@[1] != "-y"@[1]);
    assert("-preset"@[2] != "-progress"@[2] || "-preset"@[3] != "-progress"@[3]);
    assert("-c:v"@[0] != "pipe:1"@[0]);
}

/// The length of the argument vector: the five leading tokens, two tokens
/// for each optional field that is set, and the output path.
pub proof fn lemma_args_len(settings: SettingsView)
    ensures
        settings.args().len() == 6 + 2 * settings.present_count(),
{
}

/// An optional field that is not set contributes no token, and its flag
/// stands nowhere in the argument vector, provided that no path and no value
/// of another field is itself that flag's text.
pub proof fn lemma_absent_field_emits_nothing(settings: SettingsView, knob: Knob)
    requires
        settings.value(knob) is None,
        settings.input_path != knob.flag(),
        settings.output_path != knob.flag(),
        forall|other: Knob| settings.value(other) != Some(knob.flag()),
    ensures
        settings.pair(knob) == Seq::<Seq<char>>::empty(),
        !settings.args().contains(knob.flag()),
{
    lemma_fixed_tokens_differ();
    let args = settings.args();
    let flag = knob.flag();
    assert forall|i: int| 0 <= i < args.len() implies args[i] != flag by {
        lemma_token_origin(settings, i);
    }
}

/// Every token of the argument vector is one of the fixed leading tokens, a
/// path, or the flag or the value of an optional field that is set.
pub proof fn lemma_token_origin(settings: SettingsView, i: int)
    requires
        0 <= i < settings.args().len(),
    ensures
        ({
            let token = settings.args()[i];
            ||| token == "-i"@
            ||| token == "-y"@
            ||| token == "-progress"@
            ||| token == "pipe:1"@
            ||| token == settings.input_path
            ||| token == settings.output_path
            ||| exists|k: Knob|
                settings.value(k) is Some && (token == k.flag() || Some(token)
                    == #[trigger] settings.value(k))
        }),
{
    let lead = leading_args(settings.input_path);
    let a0 = lead;
    let a1 = a0 + settings.pair(Knob::VideoCodec);
    let a2 = a1 + settings.pair(Knob::AudioCodec);
    let a3 = a2 + settings.pair(Knob::VideoBitrate);
    let a4 = a3 + settings.pair(Knob::AudioBitrate);
    let a5 = a4 + settings.pair(Knob::Resolution);
    let a6 = a5 + settings.pair(Knob::Fps);
    let a7 = a6 + settings.pair(Knob::Quality);
    let a8 = a7 + settings.pair(Knob::Preset);
    let token = settings.args()[i];
    if i < a0.len() {
    } else if i < a1.len() {
        lemma_pair_token(settings, Knob::VideoCodec, i - a0.len());
    } else if i < a2.len() {
        lemma_pair_token(settings, Knob::AudioCodec, i - a1.len());
    } else if i < a3.len() {
        lemma_pair_token(settings, Knob::VideoBitrate, i - a2.len());
    } else if i < a4.len() {
        lemma_pair_token(settings, Knob::AudioBitrate, i - a3.len());
    } else if i < a5.len() {
        lemma_pair_token(settings, Knob::Resolution, i - a4.len());
    } else if i < a6.len() {
        lemma_pair_token(settings, Knob::Fps, i - a5.len());
    } else if i < a7.len() {
        lemma_pair_token(settings, Knob::Quality, i - a6.len());
    } else if i < a8.len() {
        lemma_pair_token(settings, Knob::Preset, i - a7.len());
    } else {
        assert(token == settings.output_path);
    }
}

/// A token of a field's pair is the field's flag or its value.
proof fn lemma_pair_token(settings: SettingsView, knob: Knob, i: int)
    requires
        0 <= i < settings.pair(knob).len(),
    ensures
        settings.value(knob) is Some,
        settings.pair(knob)[i] == knob.flag() || Some(settings.pair(knob)[i]) == settings.value(
            knob,
        ),
{
}

/// The tokens that stand before the pair of `knob`: the leading tokens and
/// the pairs of the fields that come before it in the fixed order.
pub open spec fn args_before(settings: SettingsView, knob: Knob) -> Seq<Seq<char>> {
    leading_args(settings.input_path)
    + (if 0 < knob.rank() { settings.pair(Knob::VideoCodec) } else { Seq::empty() })
    + (if 1 < knob.rank() { settings.pair(Knob::AudioCodec) } else { Seq::empty() })
    + (if 2 < knob.rank() { settings.pair(Knob::VideoBitrate) } else { Seq::empty() })
    + (if 3 < knob.rank() { settings.pair(Knob::AudioBitrate) } else { Seq::empty() })
    + (if 4 < knob.rank() { settings.pair(Knob::Resolution) } else { Seq::empty() })
    + (if 5 < knob.rank() { settings.pair(Knob::Fps) } else { Seq::empty() })
    + (if 6 < knob.rank() { settings.pair(Knob::Quality) } else { Seq::empty() })
}

/// The argument vector opens with the tokens before a field's pair, then
/// holds the pair; the tokens before it are as many as the field's index says.
proof fn lemma_args_split_at(settings: SettingsView, knob: Knob)
    ensures
        args_before(settings, knob).len() == settings.flag_index(knob),
        (args_before(settings, knob) + settings.pair(knob)).is_prefix_of(settings.args()),
        args_before(settings, knob).len() + settings.pair(knob).len() < settings.args().len(),
{
    let lead = leading_args(settings.input_path);
    let e = Seq::<Seq<char>>::empty();
    let p0 = settings.pair(Knob::VideoCodec);
    let p1 = settings.pair(Knob::AudioCodec);
    let p2 = settings.pair(Knob::VideoBitrate);
    let p3 = settings.pair(Knob::AudioBitrate);
    let p4 = settings.pair(Knob::Resolution);
    let p5 = settings.pair(Knob::Fps);
    let p6 = settings.pair(Knob::Quality);
    let p7 = settings.pair(Knob::Preset);
    let last = seq![settings.output_path];
    let a1 = lead + p0;
    let a2 = a1 + p1;
    let a3 = a2 + p2;
    let a4 = a3 + p3;
    let a5 = a4 + p4;
    let a6 = a5 + p5;
    let a7 = a6 + p6;
    let a8 = a7 + p7;
    assert(settings.args() == a8 + last);
    assert(lead.len() == 5);
    assert(a1.len() == 5 + 2 * settings.present(Knob::VideoCodec));
    assert(a2.len() == a1.len() + 2 * settings.present(Knob::AudioCodec));
    assert(a3.len() == a2.len() + 2 * settings.present(Knob::VideoBitrate));
    assert(a4.len() == a3.len() + 2 * settings.present(Knob::AudioBitrate));
    assert(a5.len() == a4.len() + 2 * settings.present(Knob::Resolution));
    assert(a6.len() == a5.len() + 2 * settings.present(Knob::Fps));
    assert(a7.len() == a6.len() + 2 * settings.present(Knob::Quality));
    assert(a8.len() == a7.len() + 2 * settings.present(Knob::Preset));
    assert(a1.is_prefix_of(a2));
    assert(a2.is_prefix_of(a3));
    assert(a3.is_prefix_of(a4));
    assert(a4.is_prefix_of(a5));
    assert(a5.is_prefix_of(a6));
    assert(a6.is_prefix_of(a7));
    assert(a7.is_prefix_of(a8));
    assert(a8.is_prefix_of(a8 + last));
    let before = args_before(settings, knob);
    match knob {
        Knob::VideoCodec => {
            assert(before =~= lead);
        },
        Knob::AudioCodec => {
            assert(before =~= a1);
        },
        Knob::VideoBitrate => {
            assert(before =~= a2);
        },
        Knob::AudioBitrate => {
            assert(before =~= a3);
        },
        Knob::Resolution => {
            assert(before =~= a4);
        },
        Knob::Fps => {
            assert(before =~= a5);
        },
        Knob::Quality => {
            assert(before =~= a6);
        },
        Knob::Preset => {
            assert(before =~= a7);
        },
    }
}

/// An optional field that is set has its flag directly before its value, at
/// the place that the fixed order gives it.
pub proof fn lemma_flag_precedes_value(settings: SettingsView, knob: Knob)
    requires
        settings.value(knob) is Some,
    ensures
        5 <= settings.flag_index(knob),
        settings.flag_index(knob) + 2 < settings.args().len(),
        settings.args()[settings.flag_index(knob)] == knob.flag(),
        Some(settings.args()[settings.flag_index(knob) + 1]) == settings.value(knob),
{
    lemma_args_split_at(settings, knob);
    let i = settings.flag_index(knob);
    let head = args_before(settings, knob) + settings.pair(knob);
    assert(head[i] == settings.pair(knob)[0]);
    assert(head[i + 1] == settings.pair(knob)[1]);
    assert(settings.args()[i] == head[i]);
    assert(settings.args()[i + 1] == head[i + 1]);
}

/// The fields keep the fixed order: of two fields that are set, the one that
/// comes first in the order has its flag and value before those of the other.
pub proof fn lemma_fields_in_fixed_order(settings: SettingsView, first: Knob, second: Knob)
    requires
        settings.value(first) is Some,
        settings.value(second) is Some,
        first.rank() < second.rank(),
    ensures
        settings.flag_index(first) + 2 <= settings.flag_index(second),
{
}

/// With every optional field set, the argument vector is the full command
/// line of twenty-two tokens.
pub proof fn lemma_args_all_set(settings: SettingsView)
    requires
        forall|k: Knob| settings.value(k) is Some,
    ensures
        settings.args() == seq![
            "-i"@,
            settings.input_path,
            "-y"@,
            "-progress"@,
            "pipe:1"@,
            "-c:v"@,
            settings.video_codec->0,
            "-c:a"@,
            settings.audio_codec->0,
            "-b:v"@,
            settings.video_bitrate->0,
            "-b:a"@,
            settings.audio_bitrate->0,
            "-s"@,
            settings.resolution->0,
            "-r"@,
            settings.fps->0,
            "-crf"@,
            settings.quality->0,
            "-preset"@,
            settings.preset->0,
            settings.output_path,
        ],
{
    assert(settings.value(Knob::VideoCodec) is Some);
    assert(settings.value(Knob::AudioCodec) is Some);
    assert(settings.value(Knob::VideoBitrate) is Some);
    assert(settings.value(Knob::AudioBitrate) is Some);
    assert(settings.value(Knob::Resolution) is Some);
    assert(settings.value(Knob::Fps) is Some);
    assert(settings.value(Knob::Quality) is Some);
    assert(settings.value(Knob::Preset) is Some);
    assert(settings.args() =~= seq![
        "-i"@,
        settings.input_path,
        "-y"@,
        "-progress"@,
        "pipe:1"@,
        "-c:v"@,
        settings.video_codec->0,
        "-c:a"@,
        settings.audio_codec->0,
        "-b:v"@,
        settings.video_bitrate->0,
        "-b:a"@,
        settings.audio_bitrate->0,
        "-s"@,
        settings.resolution->0,
        "-r"@,
        settings.fps->0,
        "-crf"@,
        settings.quality->0,
        "-preset"@,
        settings.preset->0,
        settings.output_path,
    ]);
}

/// With no optional field set, the argument vector is the leading tokens
/// and the output path.
pub proof fn lemma_args_none_set(settings: SettingsView)
    requires
        forall|k: Knob| settings.value(k) is None,
    ensures
        settings.args() == seq![
            "-i"@,
            settings.input_path,
            "-y"@,
            "-progress"@,
            "pipe:1"@,
            settings.output_path,
        ],
{
    assert(settings.value(Knob::VideoCodec) is None);
    assert(settings.value(Knob::AudioCodec) is None);
    assert(settings.value(Knob::VideoBitrate) is None);
    assert(settings.value(Knob::AudioBitrate) is None);
    assert(settings.value(Knob::Resolution) is None);
    assert(settings.value(Knob::Fps) is None);
    assert(settings.value(Knob::Quality) is None);
    assert(settings.value(Knob::Preset) is None);
    assert(settings.args() =~= seq![
        "-i"@,
        settings.input_path,
        "-y"@,
        "-progress"@,
        "pipe:1"@,
        settings.output_path,
    ]);
}

/// Building is deterministic: two argument vectors built from settings of
/// the same value hold the same tokens in the same order.
pub proof fn lemma_build_args_deterministic(
    first: ConversionSettings,
    second: ConversionSettings,
    first_args: Vec<String>,
    second_args: Vec<String>,
)
    requires
        first@ == second@,
        first_args.deep_view() == first@.args(),
        second_args.deep_view() == second@.args(),
    ensures
        first_args.deep_view() == second_args.deep_view(),
{
}

} // verus!
