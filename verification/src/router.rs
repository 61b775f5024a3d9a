//! Event stream router: consumes decoded lines in arrival order, forwards
//! transient events (progress, log) immediately and exactly once, and
//! accumulates the single terminal event that determines the invocation's
//! outcome. Among multiple terminal events the last one wins.

use vstd::prelude::*;
use vstd::string::*;
use crate::codec::{
    decode_line,
    envelope_fits,
    error_of_line,
    known_tag,
    log_of_line,
    opt_str_view,
    opt_text,
    progress_of_line,
    text_member,
    unwrap_or_str,
    Decoded,
    LogPayload,
    ProgressPayload,
};
use crate::json::{envelope_has_data, envelope_tag};
use crate::text::{blank, is_blank, is_trimmed_of, joined, join_strings, trim_str};

verus! {

/// A terminal event: the worker's reported success payload or error. A
/// `result` event without a payload, or an `error` event without a message,
/// resets the outcome to absent instead.
#[derive(Debug)]
pub enum Terminal {
    Success(serde_json::Value),
    Failure { code: Option<String>, message: String },
}

/// What the router forwards to subscribers while the worker runs.
#[derive(Debug)]
pub enum Notification {
    Progress(ProgressPayload),
    Log(LogPayload),
}

/// The router's whole state: the terminal event seen last, if any.
/// Transient events are forwarded, never stored.
#[derive(Debug)]
pub struct RouterState {
    pub terminal: Option<Terminal>,
}

/// How one decoded line changes the stored terminal event: terminal events
/// overwrite whatever was stored (last write wins), everything else leaves
/// it untouched.
pub open spec fn step_terminal(t: Option<Terminal>, d: Decoded) -> Option<Terminal> {
    match d {
        Decoded::ResultEvent(o) => match o {
            Some(v) => Some(Terminal::Success(v)),
            None => None,
        },
        Decoded::ErrorEvent { code, message } => match message {
            Some(m) => Some(Terminal::Failure { code, message: m }),
            None => None,
        },
        _ => t,
    }
}

/// The stored terminal event after a whole sequence of decoded lines.
pub open spec fn terminal_after(t: Option<Terminal>, ds: Seq<Decoded>) -> Option<Terminal>
    decreases ds.len(),
{
    if ds.len() == 0 {
        t
    } else {
        terminal_after(step_terminal(t, ds[0]), ds.drop_first())
    }
}

/// The non-blank lines of a captured diagnostic channel, in order.
pub open spec fn nonblank_of(lines: Seq<Seq<char>>) -> Seq<Seq<char>>
    decreases lines.len(),
{
    if lines.len() == 0 {
        Seq::empty()
    } else if blank(lines[0]) {
        nonblank_of(lines.drop_first())
    } else {
        seq![lines[0]] + nonblank_of(lines.drop_first())
    }
}

/// Best-effort summary of diagnostic text: the non-blank lines joined with
/// `" | "`.
pub open spec fn stderr_summary(lines: Seq<Seq<char>>) -> Seq<char> {
    joined(nonblank_of(lines), " | "@)
}

/// The error text of an invocation whose worker exited without a terminal
/// event: the diagnostic summary when there is one, otherwise a description
/// naming the command module and the module search path.
pub open spec fn absent_result_message(
    module: Seq<char>,
    parent: Seq<char>,
    stderr: Seq<Seq<char>>,
) -> Seq<char> {
    if stderr_summary(stderr).len() == 0 {
        "Python module '"@ + module + "' returned no result (PYTHONPATH="@ + parent + ")"@
    } else {
        "Python error: "@ + stderr_summary(stderr)
    }
}

impl RouterState {
    /// A fresh router: no terminal event seen.
    pub fn new() -> (s: Self)
        ensures
            s.terminal is None,
    {
        RouterState { terminal: None }
    }

    /// Absorb one decoded line. Transient events come back as the
    /// notification to forward, exactly one per event and unchanged; raw
    /// text comes back as a debug-severity log carrying the line verbatim;
    /// terminal events update the stored outcome and forward nothing.
    pub fn step(&mut self, d: Decoded) -> (note: Option<Notification>)
        ensures
            final(self).terminal == step_terminal(old(self).terminal, d),
            match d {
                Decoded::Blank => note is None,
                Decoded::Raw(s) => note matches Some(Notification::Log(l)) && l.level@ == "debug"@
                    && l.message@ == s@,
                Decoded::Progress(p) => note == Some(Notification::Progress(p)),
                Decoded::Log(l) => note == Some(Notification::Log(l)),
                Decoded::ResultEvent(_) => note is None,
                Decoded::ErrorEvent { .. } => note is None,
            },
    {
        match d {
            Decoded::Blank => None,
            Decoded::Raw(s) => Some(
                Notification::Log(LogPayload { level: "debug".to_owned(), message: s }),
            ),
            Decoded::Progress(p) => Some(Notification::Progress(p)),
            Decoded::Log(l) => Some(Notification::Log(l)),
            Decoded::ResultEvent(o) => {
                self.terminal = match o {
                    Some(v) => Some(Terminal::Success(v)),
                    None => None,
                };
                None
            },
            Decoded::ErrorEvent { code, message } => {
                self.terminal = match message {
                    Some(m) => Some(Terminal::Failure { code, message: m }),
                    None => None,
                };
                None
            },
        }
    }

    /// Decode one raw line and absorb it: blank lines produce nothing,
    /// malformed lines never abort the invocation (they degrade to a debug
    /// log notification and leave the outcome untouched), transient events
    /// are forwarded exactly once with their defaults filled, and terminal
    /// events update the stored outcome, last write winning.
    pub fn route_line(&mut self, line: &str) -> (note: Option<Notification>)
        ensures
            blank(line@) ==> note is None && final(self).terminal == old(self).terminal,
            !blank(line@) && !envelope_fits(line@) ==> final(self).terminal == old(self).terminal
                && (note matches Some(Notification::Log(l)) && l.level@ == "debug"@ && l.message@
                == line@),
            !blank(line@) && envelope_fits(line@) ==> ({
                let tag = envelope_tag(line@)->0;
                &&& (tag == "progress"@ ==> final(self).terminal == old(self).terminal && (
                note matches Some(Notification::Progress(p)) && progress_of_line(p, line@)))
                &&& (tag == "log"@ ==> final(self).terminal == old(self).terminal && (note matches
                Some(Notification::Log(l)) && log_of_line(l, line@)))
                &&& (tag == "result"@ ==> note is None && (envelope_has_data(line@)
                    ==> (final(self).terminal matches Some(Terminal::Success(_)))) && (
                !envelope_has_data(line@) ==> final(self).terminal is None))
                &&& (tag == "error"@ ==> note is None && ({
                    let msg = text_member(line@, "message"@);
                    &&& ((msg is Some) <==> final(self).terminal matches Some(
                        Terminal::Failure { .. },
                    ))
                    &&& (final(self).terminal matches Some(Terminal::Failure { code, message })
                        ==> Some(message@) == msg && opt_str_view(code) == text_member(
                        line@,
                        "code"@,
                    ))
                }))
                &&& (!known_tag(tag) ==> final(self).terminal == old(self).terminal && (
                note matches Some(Notification::Log(l)) && l.level@ == "debug"@ && l.message@
                    == line@))
            }),
    {
        let d = decode_line(line);
        self.step(d)
    }

    /// Produce the invocation's final outcome once the worker has exited:
    /// the stored terminal error (rendered `code: message`, code defaulting
    /// to `"unknown"`), else the stored success payload, else an
    /// absent-result error carrying the diagnostic summary.
    pub fn finish(self, module: &str, python_parent: &str, stderr_lines: &Vec<String>) -> (r:
        Result<serde_json::Value, String>)
        ensures
            self.terminal matches Some(Terminal::Failure { code, message }) ==> r is Err
                && r->Err_0@ == opt_text(code, "unknown"@) + ": "@ + message@,
            self.terminal matches Some(Terminal::Success(v)) ==> r == Ok::<
                serde_json::Value,
                String,
            >(v),
            self.terminal is None ==> r is Err && r->Err_0@ == absent_result_message(
                module@,
                python_parent@,
                stderr_lines@.map_values(|l: String| l@),
            ),
    {
        match self.terminal {
            Some(Terminal::Failure { code, message }) => {
                let mut msg = unwrap_or_str(code, "unknown");
                msg.append(": ");
                msg.append(message.as_str());
                Err(msg)
            },
            Some(Terminal::Success(v)) => Ok(v),
            None => {
                let kept = collect_nonblank(stderr_lines);
                let summary = join_strings(&kept, " | ");
                if summary.as_str().is_empty() {
                    let mut m = "Python module '".to_owned();
                    m.append(module);
                    m.append("' returned no result (PYTHONPATH=");
                    m.append(python_parent);
                    m.append(")");
                    Err(m)
                } else {
                    let mut m = "Python error: ".to_owned();
                    m.append(summary.as_str());
                    Err(m)
                }
            },
        }
    }
}

/// Appending one line to a diagnostic capture extends its non-blank lines by
/// that line exactly when it is not blank.
proof fn lemma_nonblank_push(lines: Seq<Seq<char>>, p: Seq<char>)
    ensures
        nonblank_of(lines.push(p)) == if blank(p) {
            nonblank_of(lines)
        } else {
            nonblank_of(lines).push(p)
        },
    decreases lines.len(),
{
    let one = lines.push(p);
    if lines.len() == 0 {
        assert(one.len() == 1);
        assert(one[0] == p);
        assert(one.drop_first() =~= Seq::<Seq<char>>::empty());
        assert(nonblank_of(one.drop_first()) == Seq::<Seq<char>>::empty());
        assert(nonblank_of(lines) == Seq::<Seq<char>>::empty());
        if blank(p) {
            assert(nonblank_of(one) == Seq::<Seq<char>>::empty());
        } else {
            assert(nonblank_of(one) == seq![p] + Seq::<Seq<char>>::empty());
            assert(seq![p] + Seq::<Seq<char>>::empty() =~= nonblank_of(lines).push(p));
        }
    } else {
        assert(one[0] == lines[0]);
        assert(one.drop_first() =~= lines.drop_first().push(p));
        lemma_nonblank_push(lines.drop_first(), p);
        if blank(lines[0]) {
            assert(nonblank_of(one) == nonblank_of(lines.drop_first().push(p)));
            assert(nonblank_of(lines) == nonblank_of(lines.drop_first()));
        } else {
            assert(nonblank_of(one) == seq![lines[0]] + nonblank_of(lines.drop_first().push(p)));
            assert(nonblank_of(lines) == seq![lines[0]] + nonblank_of(lines.drop_first()));
            if !blank(p) {
                assert(seq![lines[0]] + nonblank_of(lines.drop_first()).push(p) =~= (seq![lines[0]]
                    + nonblank_of(lines.drop_first())).push(p));
            }
        }
    }
}

/// Keep the non-blank lines, in order.
fn collect_nonblank(lines: &Vec<String>) -> (r: Vec<String>)
    ensures
        r@.map_values(|l: String| l@) == nonblank_of(lines@.map_values(|l: String| l@)),
{
    let ghost lv = lines@.map_values(|l: String| l@);
    let mut r: Vec<String> = Vec::new();
    let mut i: usize = 0;
    while i < lines.len()
        invariant
            0 <= i <= lines.len(),
            lv == lines@.map_values(|l: String| l@),
            lv.len() == lines@.len(),
            r@.map_values(|l: String| l@) == nonblank_of(lv.take(i as int)),
        decreases lines.len() - i,
    {
        proof {
            assert(lv.take(i + 1) =~= lv.take(i as int).push(lv[i as int]));
            lemma_nonblank_push(lv.take(i as int), lv[i as int]);
            assert(lv[i as int] == lines@[i as int]@);
        }
        if !is_blank(lines[i].as_str()) {
            let ghost old_r = r@;
            r.push(lines[i].clone());
            proof {
                assert(r@.map_values(|l: String| l@) =~= old_r.map_values(|l: String| l@).push(
                    lines@[i as int]@,
                ));
            }
        }
        i += 1;
    }
    proof {
        assert(lv.take(lines@.len() as int) =~= lv);
    }
    r
}

/// A debug-severity log note carrying the trimmed line prefixed `[stderr] `.
pub open spec fn is_stderr_note(note: LogPayload, line: Seq<char>) -> bool {
    note.level@ == "debug"@ && exists|t: Seq<char>|
        is_trimmed_of(t, line) && note.message@ == "[stderr] "@ + t
}

/// The prefix of the diagnostic capture that is re-logged: its first 20
/// lines.
pub open spec fn relog_prefix(lines: Seq<Seq<char>>) -> Seq<Seq<char>> {
    lines.take(if lines.len() > 20 { 20int } else { lines.len() as int })
}

/// Re-log captured diagnostic text after the process has exited: one
/// debug-severity note per non-blank line among the first 20 lines, in
/// order, each trimmed and prefixed `[stderr] `. Best effort only: this
/// text never by itself fails the invocation.
pub fn stderr_log_payloads(lines: &Vec<String>) -> (notes: Vec<LogPayload>)
    ensures
        notes@.len() == nonblank_of(relog_prefix(lines@.map_values(|l: String| l@))).len(),
        forall|k: int| 0 <= k < notes@.len() ==> is_stderr_note(
            #[trigger] notes@[k],
            nonblank_of(relog_prefix(lines@.map_values(|l: String| l@)))[k],
        ),
{
    let ghost lv = lines@.map_values(|l: String| l@);
    let m: usize = if lines.len() > 20 {
        20
    } else {
        lines.len()
    };
    let mut notes: Vec<LogPayload> = Vec::new();
    let mut i: usize = 0;
    while i < m
        invariant
            0 <= i <= m <= lines@.len(),
            m == (if lines@.len() > 20 { 20int } else { lines@.len() as int }),
            lv == lines@.map_values(|l: String| l@),
            lv.len() == lines@.len(),
            notes@.len() == nonblank_of(lv.take(i as int)).len(),
            forall|k: int| 0 <= k < notes@.len() ==> is_stderr_note(
                #[trigger] notes@[k],
                nonblank_of(lv.take(i as int))[k],
            ),
        decreases m - i,
    {
        proof {
            assert(lv.take(i + 1) =~= lv.take(i as int).push(lv[i as int]));
            lemma_nonblank_push(lv.take(i as int), lv[i as int]);
            assert(lv[i as int] == lines@[i as int]@);
        }
        let t = trim_str(lines[i].as_str());
        if !t.as_str().is_empty() {
            let mut msg = "[stderr] ".to_owned();
            msg.append(t.as_str());
            let note = LogPayload { level: "debug".to_owned(), message: msg };
            let ghost before = notes@;
            proof {
                assert(!blank(lv[i as int]));
                assert(is_stderr_note(note, lv[i as int]));
            }
            notes.push(note);
            proof {
                assert(nonblank_of(lv.take(i + 1)) == nonblank_of(lv.take(i as int)).push(
                    lv[i as int],
                ));
                assert(forall|k: int|
                    0 <= k < before.len() ==> nonblank_of(lv.take(i + 1))[k] == nonblank_of(
                        lv.take(i as int),
                    )[k]);
            }
        } else {
            proof {
                assert(blank(lv[i as int]));
            }
        }
        i += 1;
    }
    proof {
        assert(lv.take(m as int) =~= relog_prefix(lv));
    }
    notes
}

/// Law: events that are not terminal (blank lines, raw text, progress, log)
/// never change the stored outcome.
pub proof fn lemma_transients_preserve_terminal(t: Option<Terminal>, d: Decoded)
    requires
        !(d is ResultEvent),
        !(d is ErrorEvent),
    ensures
        step_terminal(t, d) == t,
{
}

/// Law: a whole run of non-terminal events — however long, and in whatever
/// order — leaves the stored outcome exactly where it was.
pub proof fn lemma_transient_run_preserves_terminal(t: Option<Terminal>, ds: Seq<Decoded>)
    requires
        forall|i: int|
            0 <= i < ds.len() ==> !((#[trigger] ds[i]) is ResultEvent) && !(ds[i] is ErrorEvent),
    ensures
        terminal_after(t, ds) == t,
    decreases ds.len(),
{
    if ds.len() > 0 {
        lemma_transients_preserve_terminal(t, ds[0]);
        assert(forall|i: int|
            0 <= i < ds.drop_first().len() ==> !((#[trigger] ds.drop_first()[i]) is ResultEvent)
                && !(ds.drop_first()[i] is ErrorEvent));
        lemma_transient_run_preserves_terminal(t, ds.drop_first());
    }
}

/// Law: among multiple terminal events the last one wins, in both orders. A
/// `result` after an `error` makes the invocation succeed with the result's
/// payload; an `error` after a `result` makes it fail with the error.
pub proof fn lemma_last_terminal_wins(
    t: Option<Terminal>,
    v: serde_json::Value,
    c: Option<String>,
    m: String,
)
    ensures
        step_terminal(
            step_terminal(t, Decoded::ResultEvent(Some(v))),
            Decoded::ErrorEvent { code: c, message: Some(m) },
        ) == Some(Terminal::Failure { code: c, message: m }),
        step_terminal(
            step_terminal(t, Decoded::ErrorEvent { code: c, message: Some(m) }),
            Decoded::ResultEvent(Some(v)),
        ) == Some(Terminal::Success(v)),
{
}

/// Law: an invocation that saw no terminal event fails, and the failure
/// message is never empty, whatever was captured on the diagnostic channel.
pub proof fn lemma_absent_result_message_nonempty(
    module: Seq<char>,
    parent: Seq<char>,
    stderr: Seq<Seq<char>>,
)
    ensures
        absent_result_message(module, parent, stderr).len() > 0,
{
    reveal_strlit("Python module '");
    reveal_strlit("Python error: ");
}

} // verus!
