//! The game console: the output lines of the running game (the newest 5000
//! are kept), the filter the player types, and how each line is coloured.

use vstd::prelude::*;
use crate::text;

verus! {

/// How many output lines the console keeps.
pub const MAX_LOG_LINES: usize = 5000;

/// The state of the console window.
#[derive(Debug, Clone)]
pub struct ConsoleModal {
    pub is_open: bool,
    pub logs: Vec<String>,
    pub filter: String,
    pub autoscroll: bool,
}

impl Default for ConsoleModal {
    fn default() -> (r: Self)
        ensures
            !r.is_open,
            r.logs@.len() == 0,
            r.filter@.len() == 0,
            r.autoscroll,
    {
        ConsoleModal { is_open: false, logs: Vec::new(), filter: String::new(), autoscroll: true }
    }
}

/// How a console line is coloured.
#[derive(Debug, Clone, Copy, PartialEq, Eq, Structural)]
pub enum LogSeverity {
    Error,
    Warning,
    Debug,
    Normal,
}

/// The colour class of a line: errors and crashes, warnings, debug output,
/// anything else.
pub open spec fn severity_of(line: Seq<char>) -> LogSeverity {
    if text::contains_seq(line, "[ERROR]"@) || text::contains_seq(line, "Exception"@)
        || text::contains_seq(line, "Caused by"@) || text::contains_seq(line, "Crash"@) {
        LogSeverity::Error
    } else if text::contains_seq(line, "[WARN]"@) {
        LogSeverity::Warning
    } else if text::contains_seq(line, "[DEBUG]"@) {
        LogSeverity::Debug
    } else {
        LogSeverity::Normal
    }
}

/// The log after one more line: the oldest line goes once 5000 are kept.
pub open spec fn pushed(logs: Seq<String>, line: String) -> Seq<String> {
    if logs.len() >= MAX_LOG_LINES {
        logs.drop_first().push(line)
    } else {
        logs.push(line)
    }
}

/// The lines shown for a filter text: every line when the trimmed filter is
/// empty, else the lines whose lower-case form contains the lower-case
/// filter.
pub open spec fn shown_lines(logs: Seq<String>, filter: Seq<char>) -> Seq<Seq<char>>
    decreases logs.len(),
{
    if logs.len() == 0 {
        seq![]
    } else {
        let rest = shown_lines(logs.drop_last(), filter);
        let q = text::unicode_lowercase(text::trim(filter));
        let l = logs.last()@;
        if q.len() == 0 || text::contains_seq(text::unicode_lowercase(l), q) {
            rest.push(l)
        } else {
            rest
        }
    }
}

/// Lines joined by line breaks.
pub open spec fn joined_lines(logs: Seq<String>) -> Seq<char>
    decreases logs.len(),
{
    if logs.len() == 0 {
        seq![]
    } else if logs.len() == 1 {
        logs[0]@
    } else {
        joined_lines(logs.drop_last()) + "\n"@ + logs.last()@
    }
}

impl ConsoleModal {
    /// Adds an output line; once 5000 lines are kept the oldest one goes.
    pub fn push_line(&mut self, line: String)
        ensures
            final(self).logs@ == pushed(old(self).logs@, line),
            final(self).is_open == old(self).is_open,
            final(self).filter == old(self).filter,
            final(self).autoscroll == old(self).autoscroll,
            old(self).logs@.len() <= MAX_LOG_LINES ==> final(self).logs@.len() <= MAX_LOG_LINES,
            final(self).logs@.last() == line,
    {
        if self.logs.len() >= MAX_LOG_LINES {
            self.logs.remove(0);
        }
        self.logs.push(line);
    }

    /// Removes every line.
    pub fn clear(&mut self)
        ensures
            final(self).logs@.len() == 0,
            final(self).is_open == old(self).is_open,
            final(self).filter == old(self).filter,
            final(self).autoscroll == old(self).autoscroll,
    {
        self.logs.clear();
    }

    /// The lines the console shows for its filter.
    pub fn filtered(&self) -> (r: Vec<String>)
        ensures
            r@.map_values(|s: String| s@) == shown_lines(self.logs@, self.filter@),
    {
        let t = text::trimmed(self.filter.as_str());
        let q = text::to_lowercase(t.as_str());
        let mut out: Vec<String> = Vec::new();
        let n: usize = self.logs.len();
        let mut i: usize = 0;
        while i < n
            invariant
                n == self.logs@.len(),
                i <= n,
                q@ == text::unicode_lowercase(text::trim(self.filter@)),
                out@.map_values(|s: String| s@) == shown_lines(self.logs@.subrange(0, i as int), self.filter@),
            decreases n - i,
        {
            let ghost before = out@;
            assert(self.logs@.subrange(0, i + 1).drop_last() =~= self.logs@.subrange(0, i as int));
            assert(self.logs@.subrange(0, i + 1).last() == self.logs@[i as int]);
            let line = &self.logs[i];
            let keep = if q.as_str().is_empty() {
                true
            } else {
                let low = text::to_lowercase(line.as_str());
                text::contains(low.as_str(), q.as_str())
            };
            if keep {
                out.push(text::owned(line.as_str()));
                assert(out@.map_values(|s: String| s@) =~= before.map_values(|s: String| s@).push(
                    line@,
                ));
            }
            i = i + 1;
        }
        assert(self.logs@.subrange(0, n as int) =~= self.logs@);
        out
    }

    /// Every line, joined by line breaks (what is copied or exported).
    pub fn full_text(&self) -> (r: String)
        ensures
            r@ == joined_lines(self.logs@),
    {
        let mut out = String::new();
        let n: usize = self.logs.len();
        let mut i: usize = 0;
        proof {
            reveal_strlit("\n");
        }
        while i < n
            invariant
                n == self.logs@.len(),
                i <= n,
                out@ == joined_lines(self.logs@.subrange(0, i as int)),
            decreases n - i,
        {
            assert(self.logs@.subrange(0, i + 1).drop_last() =~= self.logs@.subrange(0, i as int));
            if i > 0 {
                text::push_char(&mut out, '\n');
            }
            out.append(self.logs[i].as_str());
            proof {
                reveal_strlit("\n");
            }
            assert(out@ =~= joined_lines(self.logs@.subrange(0, i + 1)));
            i = i + 1;
        }
        assert(self.logs@.subrange(0, n as int) =~= self.logs@);
        out
    }
}

/// The colour class of a console line.
pub fn line_severity(line: &str) -> (r: LogSeverity)
    ensures
        r == severity_of(line@),
{
    if text::contains(line, "[ERROR]") || text::contains(line, "Exception") || text::contains(
        line,
        "Caused by",
    ) || text::contains(line, "Crash") {
        LogSeverity::Error
    } else if text::contains(line, "[WARN]") {
        LogSeverity::Warning
    } else if text::contains(line, "[DEBUG]") {
        LogSeverity::Debug
    } else {
        LogSeverity::Normal
    }
}

} // verus!
