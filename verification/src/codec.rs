//! Event envelope codec: turns one line of worker output into a tagged
//! event, or classifies it as raw text when it does not parse as the
//! envelope shape. No line is dropped silently: blank lines produce
//! nothing, every other line becomes an event or raw text.
//!
//! The envelope is one JSON object per line with a required string field
//! `event` naming the variant (`progress`, `log`, `result`, `error`) and
//! variant-specific optional fields. The core never does arithmetic on the
//! numeric fields, so they are carried as the decimal text of the JSON
//! number they came from.

use vstd::prelude::*;
use crate::json::{
    envelope_has_data,
    envelope_number_field,
    envelope_tag,
    envelope_text_field,
    read_data,
    read_number_field,
    read_tag,
    read_text_field,
};
use crate::text::{blank, is_blank, str_eq};

verus! {

/// A progress update, every field filled: absent optional fields default to
/// `"0"` (numeric text) or the empty string.
#[derive(Debug, Clone, PartialEq)]
pub struct ProgressPayload {
    pub stage: String,
    pub percent: String,
    pub speed_mbps: String,
    pub eta_seconds: String,
    pub fps: String,
}

/// A log line, severity filled (default `"info"`).
#[derive(Debug, Clone, PartialEq)]
pub struct LogPayload {
    pub level: String,
    pub message: String,
}

/// One decoded envelope, fields as they stood in the line: `event` is the
/// required tag, everything else is present only when the line carried it.
#[derive(Debug)]
pub struct PythonEvent {
    pub event: String,
    pub stage: Option<String>,
    pub percent: Option<String>,
    pub speed_mbps: Option<String>,
    pub eta_seconds: Option<String>,
    pub fps: Option<String>,
    pub level: Option<String>,
    pub message: Option<String>,
    pub code: Option<String>,
    pub data: Option<serde_json::Value>,
}

/// The classification of one line of worker output.
#[derive(Debug)]
pub enum Decoded {
    /// Empty or whitespace-only: produces nothing downstream.
    Blank,
    /// Not a well-formed envelope (or an unrecognized tag): the raw line,
    /// preserved verbatim for debug logging.
    Raw(String),
    /// A transient progress event, defaults filled.
    Progress(ProgressPayload),
    /// A transient log event, defaults filled.
    Log(LogPayload),
    /// A terminal success event carrying its payload, when it had one.
    ResultEvent(Option<serde_json::Value>),
    /// A terminal error event: code and message as the line carried them.
    ErrorEvent { code: Option<String>, message: Option<String> },
}

/// The view of an optional string, with a default for absence.
pub open spec fn opt_text(o: Option<String>, d: Seq<char>) -> Seq<char> {
    match o {
        Some(s) => s@,
        None => d,
    }
}

/// The envelope tags the router understands.
pub open spec fn known_tag(t: Seq<char>) -> bool {
    t == "progress"@ || t == "log"@ || t == "result"@ || t == "error"@
}

/// How a progress payload is filled from a decoded envelope: fields passed
/// through, absent ones defaulting to zero text or the empty string.
pub open spec fn progress_matches(p: ProgressPayload, e: PythonEvent) -> bool {
    &&& p.stage@ == opt_text(e.stage, ""@)
    &&& p.percent@ == opt_text(e.percent, "0"@)
    &&& p.speed_mbps@ == opt_text(e.speed_mbps, "0"@)
    &&& p.eta_seconds@ == opt_text(e.eta_seconds, "0"@)
    &&& p.fps@ == opt_text(e.fps, "0"@)
}

/// How a log payload is filled from a decoded envelope: severity defaults to
/// `"info"`, the message to the empty string.
pub open spec fn log_matches(l: LogPayload, e: PythonEvent) -> bool {
    &&& l.level@ == opt_text(e.level, "info"@)
    &&& l.message@ == opt_text(e.message, ""@)
}

/// The optional string, or a default when absent.
pub fn unwrap_or_str(o: Option<String>, d: &str) -> (r: String)
    ensures
        r@ == opt_text(o, d@),
{
    match o {
        Some(s) => s,
        None => d.to_owned(),
    }
}

/// Classify one decoded envelope by its tag, filling the documented
/// defaults; an unrecognized tag degrades to the raw line.
pub fn classify_event(e: PythonEvent, line: &str) -> (r: Decoded)
    ensures
        !(r is Blank),
        e.event@ == "progress"@ ==> (r matches Decoded::Progress(p) && progress_matches(p, e)),
        e.event@ == "log"@ ==> (r matches Decoded::Log(l) && log_matches(l, e)),
        e.event@ == "result"@ ==> r == Decoded::ResultEvent(e.data),
        e.event@ == "error"@ ==> (r matches Decoded::ErrorEvent { code, message } && code == e.code
            && message == e.message),
        !known_tag(e.event@) ==> (r matches Decoded::Raw(s) && s@ == line@),
{
    proof {
        reveal_strlit("progress");
        reveal_strlit("log");
        reveal_strlit("result");
        reveal_strlit("error");
        assert("progress"@.len() == 8 && "log"@.len() == 3 && "result"@.len() == 6
            && "error"@.len() == 5);
    }
    if str_eq(e.event.as_str(), "progress") {
        Decoded::Progress(
            ProgressPayload {
                stage: unwrap_or_str(e.stage, ""),
                percent: unwrap_or_str(e.percent, "0"),
                speed_mbps: unwrap_or_str(e.speed_mbps, "0"),
                eta_seconds: unwrap_or_str(e.eta_seconds, "0"),
                fps: unwrap_or_str(e.fps, "0"),
            },
        )
    } else if str_eq(e.event.as_str(), "log") {
        Decoded::Log(
            LogPayload {
                level: unwrap_or_str(e.level, "info"),
                message: unwrap_or_str(e.message, ""),
            },
        )
    } else if str_eq(e.event.as_str(), "result") {
        Decoded::ResultEvent(e.data)
    } else if str_eq(e.event.as_str(), "error") {
        Decoded::ErrorEvent { code: e.code, message: e.message }
    } else {
        Decoded::Raw(line.to_owned())
    }
}

/// The view of an optional string.
pub open spec fn opt_str_view(o: Option<String>) -> Option<Seq<char>> {
    match o {
        Some(s) => Some(s@),
        None => None,
    }
}

/// A string-typed member of a line's envelope, flattened: present members
/// only (a line that does not fit the envelope reads as absent here).
pub open spec fn text_member(line: Seq<char>, key: Seq<char>) -> Option<Seq<char>> {
    match envelope_text_field(line, key) {
        Some(o) => o,
        None => None,
    }
}

/// A number-typed member of a line's envelope, flattened as `text_member`.
pub open spec fn number_member(line: Seq<char>, key: Seq<char>) -> Option<Seq<char>> {
    match envelope_number_field(line, key) {
        Some(o) => o,
        None => None,
    }
}

/// A string-typed member, with a default for absence.
pub open spec fn text_member_or(line: Seq<char>, key: Seq<char>, d: Seq<char>) -> Seq<char> {
    match text_member(line, key) {
        Some(t) => t,
        None => d,
    }
}

/// A number-typed member's decimal text, with a default for absence.
pub open spec fn number_member_or(line: Seq<char>, key: Seq<char>, d: Seq<char>) -> Seq<char> {
    match number_member(line, key) {
        Some(t) => t,
        None => d,
    }
}

/// Whether a line fits the envelope shape: one JSON document with a string
/// `event` member, every known optional member (where present) of its
/// expected kind.
pub open spec fn envelope_fits(line: Seq<char>) -> bool {
    &&& envelope_tag(line) is Some
    &&& envelope_text_field(line, "stage"@) is Some
    &&& envelope_number_field(line, "percent"@) is Some
    &&& envelope_number_field(line, "speed_mbps"@) is Some
    &&& envelope_number_field(line, "eta_seconds"@) is Some
    &&& envelope_number_field(line, "fps"@) is Some
    &&& envelope_text_field(line, "level"@) is Some
    &&& envelope_text_field(line, "message"@) is Some
    &&& envelope_text_field(line, "code"@) is Some
}

/// How a progress payload is filled from a line that fits the envelope:
/// members passed through, absent ones defaulting to zero text or the empty
/// string.
pub open spec fn progress_of_line(p: ProgressPayload, line: Seq<char>) -> bool {
    &&& p.stage@ == text_member_or(line, "stage"@, ""@)
    &&& p.percent@ == number_member_or(line, "percent"@, "0"@)
    &&& p.speed_mbps@ == number_member_or(line, "speed_mbps"@, "0"@)
    &&& p.eta_seconds@ == number_member_or(line, "eta_seconds"@, "0"@)
    &&& p.fps@ == number_member_or(line, "fps"@, "0"@)
}

/// How a log payload is filled from a line that fits the envelope: severity
/// defaults to `"info"`, the message to the empty string.
pub open spec fn log_of_line(l: LogPayload, line: Seq<char>) -> bool {
    &&& l.level@ == text_member_or(line, "level"@, "info"@)
    &&& l.message@ == text_member_or(line, "message"@, ""@)
}

/// How an error event's code and message are taken from a line that fits
/// the envelope: both exactly as the line carries them.
pub open spec fn error_of_line(
    code: Option<String>,
    message: Option<String>,
    line: Seq<char>,
) -> bool {
    &&& opt_str_view(code) == text_member(line, "code"@)
    &&& opt_str_view(message) == text_member(line, "message"@)
}

/// Decode one line into an envelope: the line's tag and members, exactly as
/// the envelope names give them, or nothing when the line does not fit the
/// envelope shape.
fn parse_event(line: &str) -> (r: Option<PythonEvent>)
    ensures
        (r is Some) == envelope_fits(line@),
        r matches Some(e) ==> {
            &&& Some(e.event@) == envelope_tag(line@)
            &&& opt_str_view(e.stage) == text_member(line@, "stage"@)
            &&& opt_str_view(e.percent) == number_member(line@, "percent"@)
            &&& opt_str_view(e.speed_mbps) == number_member(line@, "speed_mbps"@)
            &&& opt_str_view(e.eta_seconds) == number_member(line@, "eta_seconds"@)
            &&& opt_str_view(e.fps) == number_member(line@, "fps"@)
            &&& opt_str_view(e.level) == text_member(line@, "level"@)
            &&& opt_str_view(e.message) == text_member(line@, "message"@)
            &&& opt_str_view(e.code) == text_member(line@, "code"@)
            &&& (e.data is Some) == envelope_has_data(line@)
        },
{
    let event = match read_tag(line) {
        Some(t) => t,
        None => {
            return None;
        },
    };
    let stage = match read_text_field(line, "stage") {
        Some(o) => o,
        None => {
            return None;
        },
    };
    let percent = match read_number_field(line, "percent") {
        Some(o) => o,
        None => {
            return None;
        },
    };
    let speed_mbps = match read_number_field(line, "speed_mbps") {
        Some(o) => o,
        None => {
            return None;
        },
    };
    let eta_seconds = match read_number_field(line, "eta_seconds") {
        Some(o) => o,
        None => {
            return None;
        },
    };
    let fps = match read_number_field(line, "fps") {
        Some(o) => o,
        None => {
            return None;
        },
    };
    let level = match read_text_field(line, "level") {
        Some(o) => o,
        None => {
            return None;
        },
    };
    let message = match read_text_field(line, "message") {
        Some(o) => o,
        None => {
            return None;
        },
    };
    let code = match read_text_field(line, "code") {
        Some(o) => o,
        None => {
            return None;
        },
    };
    let data = read_data(line);
    Some(
        PythonEvent {
            event,
            stage,
            percent,
            speed_mbps,
            eta_seconds,
            fps,
            level,
            message,
            code,
            data,
        },
    )
}

/// Decode one raw line: blank lines produce nothing, lines that fit the
/// envelope become the event their tag names (defaults filled), everything
/// else — a line that does not fit, or an unrecognized tag — is preserved
/// verbatim as raw text. No line is dropped without becoming one of the
/// three.
pub fn decode_line(line: &str) -> (r: Decoded)
    ensures
        (r is Blank) <==> blank(line@),
        !blank(line@) && !envelope_fits(line@) ==> (r matches Decoded::Raw(s) && s@ == line@),
        !blank(line@) && envelope_fits(line@) ==> ({
            let tag = envelope_tag(line@)->0;
            &&& (tag == "progress"@ ==> (r matches Decoded::Progress(p) && progress_of_line(
                p,
                line@,
            )))
            &&& (tag == "log"@ ==> (r matches Decoded::Log(l) && log_of_line(l, line@)))
            &&& (tag == "result"@ ==> (r matches Decoded::ResultEvent(d) && ((d is Some)
                == envelope_has_data(line@))))
            &&& (tag == "error"@ ==> (r matches Decoded::ErrorEvent { code, message }
                && error_of_line(code, message, line@)))
            &&& (!known_tag(tag) ==> (r matches Decoded::Raw(s) && s@ == line@))
        }),
{
    if is_blank(line) {
        Decoded::Blank
    } else {
        match parse_event(line) {
            Some(e) => classify_event(e, line),
            None => Decoded::Raw(line.to_owned()),
        }
    }
}

} // verus!
