//! The terminal outcome of a conversion and the message it carries.

use vstd::prelude::*;
use vstd::string::StringExecFns;
use vstd::utf8::{decode_utf8, valid_utf8};

verus! {

/// How a conversion ended. Every outcome carries a message fit for display.
#[derive(Debug, Clone, PartialEq, Eq)]
pub enum ConversionOutcome {
    /// The transcoder exited with a success status.
    Success(String),
    /// The transcoder exited with another status; the message ends with what
    /// it wrote to standard error.
    Failure(String),
    /// The job was cancelled while its progress was read; the transcoder was
    /// killed.
    Cancelled(String),
    /// The transcoder could not be launched.
    SpawnError(String),
    /// The transcoder's standard output could not be obtained.
    StreamError(String),
    /// The transcoder's exit could not be awaited.
    WaitError(String),
}

/// The mathematical value of a [`ConversionOutcome`].
pub ghost enum OutcomeView {
    Success(Seq<char>),
    Failure(Seq<char>),
    Cancelled(Seq<char>),
    SpawnError(Seq<char>),
    StreamError(Seq<char>),
    WaitError(Seq<char>),
}

impl View for ConversionOutcome {
    type V = OutcomeView;

    open spec fn view(&self) -> OutcomeView {
        match self {
            ConversionOutcome::Success(m) => OutcomeView::Success(m@),
            ConversionOutcome::Failure(m) => OutcomeView::Failure(m@),
            ConversionOutcome::Cancelled(m) => OutcomeView::Cancelled(m@),
            ConversionOutcome::SpawnError(m) => OutcomeView::SpawnError(m@),
            ConversionOutcome::StreamError(m) => OutcomeView::StreamError(m@),
            ConversionOutcome::WaitError(m) => OutcomeView::WaitError(m@),
        }
    }
}

impl OutcomeView {
    /// The message of the outcome.
    pub open spec fn message(self) -> Seq<char> {
        match self {
            OutcomeView::Success(m) => m,
            OutcomeView::Failure(m) => m,
            OutcomeView::Cancelled(m) => m,
            OutcomeView::SpawnError(m) => m,
            OutcomeView::StreamError(m) => m,
            OutcomeView::WaitError(m) => m,
        }
    }

    /// The outcome as a result: the message of a success as the value, the
    /// message of any other outcome as the error.
    pub open spec fn as_result(self) -> Result<Seq<char>, Seq<char>> {
        match self {
            OutcomeView::Success(m) => Ok(m),
            _ => Err(self.message()),
        }
    }
}

/// A result of texts, with each text as the sequence of its characters.
pub open spec fn text_result(result: Result<String, String>) -> Result<Seq<char>, Seq<char>> {
    match result {
        Ok(m) => Ok(m@),
        Err(m) => Err(m@),
    }
}

/// The outcome of a job that was cancelled.
pub open spec fn cancelled_outcome() -> OutcomeView {
    OutcomeView::Cancelled("Dönüştürme iptal edildi"@)
}

/// The outcome of a job whose transcoder could not be launched for `reason`.
pub open spec fn spawn_error_outcome(reason: Seq<char>) -> OutcomeView {
    OutcomeView::SpawnError("FFmpeg başlatılamadı: "@ + reason)
}

/// The outcome of a job whose transcoder gave no standard output to read.
pub open spec fn stream_error_outcome() -> OutcomeView {
    OutcomeView::StreamError("FFmpeg stdout alınamadı"@)
}

/// The outcome of a job whose transcoder could not be awaited for `reason`.
pub open spec fn wait_error_outcome(reason: Seq<char>) -> OutcomeView {
    OutcomeView::WaitError("FFmpeg çalıştırılamadı: "@ + reason)
}

/// The outcome of a job whose transcoder exited: a success for a success
/// status, else a failure whose message ends with the whole of `stderr`.
pub open spec fn exit_outcome(success: bool, stderr: Seq<char>) -> OutcomeView {
    if success {
        OutcomeView::Success("Dönüştürme başarılı!"@)
    } else {
        OutcomeView::Failure("FFmpeg hatası: "@ + stderr)
    }
}

/// The text that lossy decoding makes of bytes: the text they encode where
/// they are valid UTF-8, and else that text with a replacement character for
/// each invalid part.
pub uninterp spec fn lossy_text(bytes: Seq<u8>) -> Seq<char>;

/// Decodes bytes as UTF-8 with `String::from_utf8_lossy`.
///
/// Trusted: the result is a function of the bytes alone, and bytes that are
/// valid UTF-8 decode to the text that they encode.
#[verifier::external_body]
fn decode_lossy(bytes: &[u8]) -> (text: String)
    ensures
        text@ == lossy_text(bytes@),
        valid_utf8(bytes@) ==> text@ == decode_utf8(bytes@),
{
    String::from_utf8_lossy(bytes).into_owned()
}

impl ConversionOutcome {
    /// The outcome of a job that was cancelled.
    pub fn cancelled() -> (outcome: ConversionOutcome)
        ensures
            outcome@ == cancelled_outcome(),
    {
        ConversionOutcome::Cancelled("Dönüştürme iptal edildi".to_string())
    }

    /// The outcome of a job whose transcoder could not be launched.
    pub fn spawn_failed(reason: &str) -> (outcome: ConversionOutcome)
        ensures
            outcome@ == spawn_error_outcome(reason@),
    {
        ConversionOutcome::SpawnError("FFmpeg başlatılamadı: ".to_string().concat(reason))
    }

    /// The outcome of a job whose transcoder gave no standard output to read.
    pub fn stream_unavailable() -> (outcome: ConversionOutcome)
        ensures
            outcome@ == stream_error_outcome(),
    {
        ConversionOutcome::StreamError("FFmpeg stdout alınamadı".to_string())
    }

    /// The outcome of a job whose transcoder could not be awaited.
    pub fn wait_failed(reason: &str) -> (outcome: ConversionOutcome)
        ensures
            outcome@ == wait_error_outcome(reason@),
    {
        ConversionOutcome::WaitError("FFmpeg çalıştırılamadı: ".to_string().concat(reason))
    }

    /// The outcome of a job whose transcoder exited, given whether its status
    /// was a success and the text that it wrote to standard error.
    pub fn from_exit(success: bool, stderr: &str) -> (outcome: ConversionOutcome)
        ensures
            outcome@ == exit_outcome(success, stderr@),
    {
        if success {
            ConversionOutcome::Success("Dönüştürme başarılı!".to_string())
        } else {
            ConversionOutcome::Failure("FFmpeg hatası: ".to_string().concat(stderr))
        }
    }

    /// The outcome of a job whose transcoder exited, given whether its status
    /// was a success and the bytes that it wrote to standard error, which are
    /// decoded lossily.
    pub fn from_exit_bytes(success: bool, stderr: &[u8]) -> (outcome: ConversionOutcome)
        ensures
            outcome@ == exit_outcome(success, lossy_text(stderr@)),
            valid_utf8(stderr@) ==> outcome@ == exit_outcome(success, decode_utf8(stderr@)),
    {
        let text = decode_lossy(stderr);
        ConversionOutcome::from_exit(success, text.as_str())
    }

    /// The message of the outcome.
    pub fn message(&self) -> (message: &String)
        ensures
            message@ == self@.message(),
    {
        match self {
            ConversionOutcome::Success(m) => m,
            ConversionOutcome::Failure(m) => m,
            ConversionOutcome::Cancelled(m) => m,
            ConversionOutcome::SpawnError(m) => m,
            ConversionOutcome::StreamError(m) => m,
            ConversionOutcome::WaitError(m) => m,
        }
    }

    /// Whether the conversion succeeded.
    pub fn is_success(&self) -> (success: bool)
        ensures
            success == (self@ is Success),
    {
        match self {
            ConversionOutcome::Success(_) => true,
            _ => false,
        }
    }

    /// The outcome as a result: the message of a success as the value, the
    /// message of any other outcome as the error.
    pub fn into_result(self) -> (result: Result<String, String>)
        ensures
            text_result(result) == self@.as_result(),
    {
        match self {
            ConversionOutcome::Success(m) => Ok(m),
            ConversionOutcome::Failure(m) => Err(m),
            ConversionOutcome::Cancelled(m) => Err(m),
            ConversionOutcome::SpawnError(m) => Err(m),
            ConversionOutcome::StreamError(m) => Err(m),
            ConversionOutcome::WaitError(m) => Err(m),
        }
    }
}

/// A failure shows the whole of standard error: the message of the outcome
/// of an exit without success ends with the text of standard error, unchanged.
pub proof fn lemma_failure_shows_stderr(stderr: Seq<char>)
    ensures
        exit_outcome(false, stderr) is Failure,
        stderr.is_suffix_of(exit_outcome(false, stderr).message()),
        exit_outcome(false, stderr).as_result() is Err,
{
    let message = exit_outcome(false, stderr).message();
    assert(message.skip(message.len() - stderr.len()) =~= stderr);
}

} // verus!
