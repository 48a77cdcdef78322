//! A bounded buffer of formatted log lines with a change counter.
//!
//! The buffer keeps the newest lines up to its capacity and drops the oldest ones; every
//! mutation moves the version on, so a reader can tell cheaply whether anything changed
//! since it last looked.

use vstd::prelude::*;
use vstd::string::*;

verus! {

/// What a [`LogCapture`] holds: its lines, oldest first, its version and its capacity.
pub struct LogState {
    pub lines: Seq<String>,
    pub version: nat,
    pub capacity: nat,
}

/// The version that follows `v`; the counter wraps around at the top of `usize`.
pub open spec fn next_version(v: nat) -> nat {
    if v >= usize::MAX {
        0
    } else {
        v + 1
    }
}

/// The last `cap` elements of `s`, or all of `s` when it is not longer than that.
pub open spec fn keep_last(s: Seq<String>, cap: nat) -> Seq<String> {
    if s.len() > cap {
        s.subrange(s.len() - cap, s.len() as int)
    } else {
        s
    }
}

impl LogState {
    /// The buffer never holds more lines than its capacity.
    pub open spec fn bounded(self) -> bool {
        self.lines.len() <= self.capacity
    }

    /// The state after appending `line`.
    pub open spec fn after_add(self, line: String) -> LogState {
        LogState {
            lines: keep_last(self.lines.push(line), self.capacity),
            version: next_version(self.version),
            capacity: self.capacity,
        }
    }

    /// The state after clearing the buffer.
    pub open spec fn after_clear(self) -> LogState {
        LogState { lines: Seq::empty(), version: next_version(self.version), capacity: self.capacity }
    }

    /// The state after appending each of `lines` in turn.
    pub open spec fn after_adds(self, lines: Seq<String>) -> LogState
        decreases lines.len(),
    {
        if lines.len() == 0 {
            self
        } else {
            self.after_add(lines[0]).after_adds(lines.drop_first())
        }
    }
}

proof fn lemma_keep_last_twice(a: Seq<String>, b: Seq<String>, cap: nat)
    ensures
        keep_last(keep_last(a, cap) + b, cap) == keep_last(a + b, cap),
{
    let x = keep_last(a, cap);
    assert(keep_last(x + b, cap) =~= keep_last(a + b, cap));
}

/// Appending lines to a buffer within its capacity leaves exactly the newest `capacity`
/// lines of everything it held and was given, in order: once more lines than the capacity
/// were appended, only the newest `capacity` of them remain and every older one is gone.
/// The version moves on once per line.
pub proof fn lemma_appends_keep_newest(start: LogState, lines: Seq<String>)
    requires
        start.bounded(),
    ensures
        start.after_adds(lines).lines == keep_last(start.lines + lines, start.capacity),
        start.after_adds(lines).bounded(),
        start.after_adds(lines).capacity == start.capacity,
        lines.len() >= start.capacity ==> start.after_adds(lines).lines == lines.subrange(
            lines.len() - start.capacity,
            lines.len() as int,
        ),
    decreases lines.len(),
{
    if lines.len() == 0 {
        assert(start.lines + lines =~= start.lines);
    } else {
        let next = start.after_add(lines[0]);
        lemma_appends_keep_newest(next, lines.drop_first());
        lemma_keep_last_twice(start.lines.push(lines[0]), lines.drop_first(), start.capacity);
        assert(start.lines.push(lines[0]) + lines.drop_first() =~= start.lines + lines);
    }
    let all = start.lines + lines;
    if lines.len() >= start.capacity {
        assert(keep_last(all, start.capacity) =~= lines.subrange(
            lines.len() - start.capacity,
            lines.len() as int,
        ));
    }
}

/// Each append and each clear moves the version forward by exactly one, so below the top of
/// `usize` the version strictly increases with every mutation.
pub proof fn lemma_version_advances(state: LogState, line: String)
    requires
        state.version < usize::MAX,
    ensures
        state.after_add(line).version == state.version + 1,
        state.after_clear().version == state.version + 1,
        state.after_add(line).version > state.version,
        state.after_clear().version > state.version,
{
}

/// A bounded log buffer: appending past the capacity evicts the oldest line.
pub struct LogCapture {
    logs: std::collections::VecDeque<String>,
    version: usize,
    max_logs: usize,
}

impl View for LogCapture {
    type V = LogState;

    closed spec fn view(&self) -> LogState {
        LogState { lines: self.logs@, version: self.version as nat, capacity: self.max_logs as nat }
    }
}

impl LogCapture {
    /// An empty buffer that keeps at most `max_logs` lines, at version 0.
    pub fn new(max_logs: usize) -> (r: LogCapture)
        ensures
            r@.lines == Seq::<String>::empty(),
            r@.bounded(),
            r@.version == 0,
            r@.capacity == max_logs,
    {
        LogCapture { logs: std::collections::VecDeque::new(), version: 0, max_logs }
    }

    /// The current version; it changes on every append and every clear.
    pub fn version(&self) -> (r: usize)
        ensures
            r == self@.version,
            self@.bounded(),
    {
        proof {
            use_type_invariant(self);
        }
        self.version
    }

    /// The capacity the buffer was made with.
    pub fn max_logs(&self) -> (r: usize)
        ensures
            r == self@.capacity,
    {
        self.max_logs
    }

    #[verifier::type_invariant]
    spec fn within_capacity(&self) -> bool {
        self.logs@.len() <= self.max_logs
    }

    /// Appends `log` at the newest end, evicting the oldest line when the buffer is full.
    pub fn add_log(&mut self, log: String)
        ensures
            final(self)@ == old(self)@.after_add(log),
            final(self)@.bounded(),
    {
        proof {
            use_type_invariant(&*self);
        }
        let mut logs: std::collections::VecDeque<String> = std::collections::VecDeque::new();
        std::mem::swap(&mut self.logs, &mut logs);
        logs.push_back(log);
        if logs.len() > self.max_logs {
            logs.pop_front();
        }
        proof {
            assert(logs@ =~= keep_last(old(self).logs@.push(log), self.max_logs as nat));
        }
        self.logs = logs;
        self.version = self.version.wrapping_add(1);
    }

    /// A copy of the lines, oldest first; never more than the capacity.
    pub fn get_logs(&self) -> (r: Vec<String>)
        ensures
            r@ == self@.lines,
            self@.bounded(),
            r@.len() <= self@.capacity,
    {
        proof {
            use_type_invariant(self);
        }
        let mut r: Vec<String> = Vec::new();
        let n = self.logs.len();
        let mut i: usize = 0;
        while i < n
            invariant
                n == self.logs@.len(),
                i <= n,
                r@ == self.logs@.subrange(0, i as int),
            decreases n - i,
        {
            r.push(self.logs[i].clone());
            i = i + 1;
            proof {
                assert(r@ =~= self.logs@.subrange(0, i as int));
            }
        }
        proof {
            assert(self.logs@.subrange(0, n as int) =~= self.logs@);
        }
        r
    }

    /// Removes every line.
    pub fn clear(&mut self)
        ensures
            final(self)@ == old(self)@.after_clear(),
    {
        self.logs = std::collections::VecDeque::new();
        self.version = self.version.wrapping_add(1);
        proof {
            assert(self.logs@ =~= Seq::<String>::empty());
        }
    }
}

/// The line recorded for an event: `[<time>] <level> <message>`.
pub open spec fn log_line(time: Seq<char>, level: Seq<char>, message: Seq<char>) -> Seq<char> {
    "["@ + time + "] "@ + level + " "@ + message
}

/// Builds the line recorded for an event at `time` (already formatted) of `level`.
pub fn format_log_line(time: &str, level: &str, message: &str) -> (r: String)
    ensures
        r@ == log_line(time@, level@, message@),
{
    let mut r = String::from_str("[");
    r.append(time);
    r.append("] ");
    r.append(level);
    r.append(" ");
    r.append(message);
    r
}

/// The number of `"` characters at the start of `s`.
pub open spec fn leading_quotes(s: Seq<char>) -> nat
    decreases s.len(),
{
    if s.len() > 0 && s[0] == '"' {
        1 + leading_quotes(s.drop_first())
    } else {
        0
    }
}

/// The number of `"` characters at the end of `s`.
pub open spec fn trailing_quotes(s: Seq<char>) -> nat
    decreases s.len(),
{
    if s.len() > 0 && s.last() == '"' {
        1 + trailing_quotes(s.drop_last())
    } else {
        0
    }
}

/// `s` without the `"` characters at either end; all of it goes when it is nothing but them.
pub open spec fn trim_quotes_spec(s: Seq<char>) -> Seq<char> {
    if leading_quotes(s) == s.len() {
        Seq::empty()
    } else {
        s.subrange(leading_quotes(s) as int, s.len() - trailing_quotes(s))
    }
}

proof fn lemma_leading_quotes(s: Seq<char>, i: int)
    requires
        0 <= i <= s.len(),
        forall|k: int| 0 <= k < i ==> s[k] == '"',
        i == s.len() || s[i] != '"',
    ensures
        leading_quotes(s) == i,
    decreases i,
{
    if i > 0 {
        lemma_leading_quotes(s.drop_first(), i - 1);
    }
}

proof fn lemma_trailing_quotes(s: Seq<char>, j: int)
    requires
        0 <= j <= s.len(),
        forall|k: int| j <= k < s.len() ==> s[k] == '"',
        j == 0 || s[j - 1] != '"',
    ensures
        trailing_quotes(s) == s.len() - j,
    decreases s.len() - j,
{
    if j < s.len() {
        lemma_trailing_quotes(s.drop_last(), j);
    }
}

/// Removes the `"` characters at both ends of `s`, as a debug rendering of a text puts them.
pub fn trim_quotes(s: &str) -> (r: String)
    ensures
        r@ == trim_quotes_spec(s@),
{
    let n = s.unicode_len();
    let mut i: usize = 0;
    while i < n && s.get_char(i) == '"'
        invariant
            n == s@.len(),
            i <= n,
            forall|k: int| 0 <= k < i ==> s@[k] == '"',
        decreases n - i,
    {
        i = i + 1;
    }
    proof {
        lemma_leading_quotes(s@, i as int);
    }
    if i == n {
        return String::new();
    }
    let mut j: usize = n;
    while j > i && s.get_char(j - 1) == '"'
        invariant
            n == s@.len(),
            i < n,
            s@[i as int] != '"',
            i <= j <= n,
            forall|k: int| j <= k < n ==> s@[k] == '"',
        decreases j,
    {
        j = j - 1;
    }
    proof {
        lemma_trailing_quotes(s@, j as int);
    }
    String::from_str(s.substring_char(i, j))
}

/// The sink side of the log buffer: it formats each event as one line and appends it.
pub struct LogCaptureLayer {
    pub capture: LogCapture,
}

impl LogCaptureLayer {
    /// A sink that appends to `capture`.
    pub fn new(capture: LogCapture) -> (r: LogCaptureLayer)
        ensures
            r.capture@ == capture@,
    {
        LogCaptureLayer { capture }
    }

    /// Records an event of `level` at `time` (already formatted) with its message text.
    pub fn on_event(&mut self, time: &str, level: &str, message: &str)
        ensures
            exists|line: String|
                line@ == log_line(time@, level@, message@) && final(self).capture@ == old(
                    self,
                ).capture@.after_add(line),
            final(self).capture@.bounded(),
    {
        let line = format_log_line(time, level, message);
        self.capture.add_log(line);
    }
}

} // verus!
