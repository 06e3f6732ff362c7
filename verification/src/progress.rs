//! Reading of the transcoder's progress stream, line by line.

use crate::text::{
    chars_of, find_from, is_next_occurrence, lemma_next_occurrence_unique, next_occurrence, occurs,
    occurs_at, occurs_from, trim, trim_range,
};
use vstd::prelude::*;
use vstd::string::StringExecFns;

verus! {

/// The token that introduces the elapsed time, in microseconds, in a line of
/// the progress stream.
pub open spec fn time_token() -> Seq<char> {
    "out_time_ms="@
}

/// The text of the elapsed-time field of a line, if the line has one.
///
/// The field starts behind the leftmost occurrence of the token and ends
/// before the next occurrence, or with the line where there is none; white
/// space at either end of it does not count.
pub open spec fn time_field_of(line: Seq<char>) -> Option<Seq<char>> {
    let token = time_token();
    if occurs(line, token) {
        let start = next_occurrence(line, token, 0) + token.len();
        let end = if occurs_from(line, token, start) {
            next_occurrence(line, token, start)
        } else {
            line.len() as int
        };
        Some(trim(line.subrange(start, end)))
    } else {
        None
    }
}

/// Extracts the text of the elapsed-time field from a line of the progress
/// stream.
///
/// A line without the token has no field: nothing is to be reported for it.
/// Whether the text is a number is not judged here.
pub fn time_field(line: &str) -> (field: Option<String>)
    ensures
        field.deep_view() == time_field_of(line@),
        field is Some <==> occurs(line@, time_token()),
{
    let text = chars_of(line);
    let token = chars_of("out_time_ms=");
    let length = text.len();
    match find_from(&text, &token, 0) {
        None => None,
        Some(at) => {
            let start = at + token.len();
            let end = match find_from(&text, &token, start) {
                Some(next) => next,
                None => length,
            };
            let (low, high) = trim_range(&text, start, end);
            Some(line.substring_char(low, high).to_owned())
        },
    }
}

/// A line that is the token followed by a value in which no `o` stands has
/// that value, trimmed, as its field.
pub proof fn lemma_field_of_plain_line(value: Seq<char>)
    requires
        forall|i: int| 0 <= i < value.len() ==> value[i] != 'o',
    ensures
        time_field_of(time_token() + value) == Some(trim(value)),
{
    reveal_strlit("out_time_ms=");
    let token = time_token();
    let line = token + value;
    assert(line.subrange(0, token.len() as int) =~= token);
    assert(is_next_occurrence(line, token, 0, 0));
    lemma_next_occurrence_unique(line, token, 0, 0);
    let start = token.len() as int;
    assert forall|at: int| start <= at implies !occurs_at(line, token, at) by {
        if occurs_at(line, token, at) {
            assert(line.subrange(at, at + token.len())[0] == token[0]);
            assert(line[at] == value[at - start]);
        }
    }
    assert(line.subrange(start, line.len() as int) =~= value);
}

/// One progress update, as it is handed to the observers of a conversion.
///
/// Only `time` is read from the stream. The other three fields are fixed
/// placeholders and tell nothing about the job.
#[derive(Debug, Clone, PartialEq, Eq)]
pub struct ConversionProgress {
    /// Whole percent of the job that is done; always 0.
    pub percentage: u8,
    /// The elapsed time, in seconds with the unit, as in `2.5s`.
    pub time: String,
    /// Always `1x`.
    pub speed: String,
    /// Always `0kbits/s`.
    pub bitrate: String,
}

/// The mathematical value of a [`ConversionProgress`].
pub ghost struct ProgressView {
    pub percentage: int,
    pub time: Seq<char>,
    pub speed: Seq<char>,
    pub bitrate: Seq<char>,
}

impl View for ConversionProgress {
    type V = ProgressView;

    open spec fn view(&self) -> ProgressView {
        ProgressView {
            percentage: self.percentage as int,
            time: self.time@,
            speed: self.speed@,
            bitrate: self.bitrate@,
        }
    }
}

/// The update that reports `seconds` of elapsed time.
pub open spec fn progress_at(seconds: Seq<char>) -> ProgressView {
    ProgressView {
        percentage: 0,
        time: seconds + "s"@,
        speed: "1x"@,
        bitrate: "0kbits/s"@,
    }
}

impl ConversionProgress {
    /// Makes the update for an elapsed time, given as the decimal text of the
    /// seconds.
    pub fn at_seconds(seconds: &str) -> (update: ConversionProgress)
        ensures
            update@ == progress_at(seconds@),
    {
        let mut time = seconds.to_string();
        time.append("s");
        ConversionProgress {
            percentage: 0,
            time,
            speed: "1x".to_string(),
            bitrate: "0kbits/s".to_string(),
        }
    }
}

/// The name under which progress updates are published: `conversion-progress`.
pub fn progress_event_name() -> (name: &'static str)
    ensures
        name@ == "conversion-progress"@,
{
    "conversion-progress"
}

} // verus!
