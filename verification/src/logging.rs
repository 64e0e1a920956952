use vstd::prelude::*;
use std::collections::VecDeque;
use crate::text::{concat2, decimal, owned, spec_decimal};

verus! {

/// Severity of a log line; a line is shown when the configured verbosity
/// reaches the level's threshold.
#[derive(Debug, Clone, Copy, PartialEq, Eq, Structural)]
pub enum Level {
    Warn,
    Info,
    Debug,
}

impl Level {
    pub open spec fn spec_label(self) -> Seq<char> {
        match self {
            Level::Warn => "WARN"@,
            Level::Info => "INFO"@,
            Level::Debug => "DEBUG"@,
        }
    }

    /// The tag printed between brackets.
    pub fn label(self) -> (r: &'static str)
        ensures
            r@ == self.spec_label(),
    {
        match self {
            Level::Warn => "WARN",
            Level::Info => "INFO",
            Level::Debug => "DEBUG",
        }
    }

    pub open spec fn spec_threshold(self) -> u8 {
        match self {
            Level::Warn => 1,
            Level::Info => 2,
            Level::Debug => 3,
        }
    }

    /// The lowest verbosity at which lines of this level are shown.
    pub fn threshold(self) -> (r: u8)
        ensures
            r == self.spec_threshold(),
    {
        match self {
            Level::Warn => 1,
            Level::Info => 2,
            Level::Debug => 3,
        }
    }

    pub open spec fn spec_ansi_code(self) -> Seq<char> {
        match self {
            Level::Warn => "\x1b[33m"@,
            Level::Info => "\x1b[36m"@,
            Level::Debug => "\x1b[90m"@,
        }
    }

    /// The escape sequence that colours the tag.
    pub fn ansi_code(self) -> (r: &'static str)
        ensures
            r@ == self.spec_ansi_code(),
    {
        match self {
            Level::Warn => "\x1b[33m",
            Level::Info => "\x1b[36m",
            Level::Debug => "\x1b[90m",
        }
    }
}

/// A bounded buffer of log lines held back while the terminal shows the
/// live screen. When full, the oldest line gives way to the newest and is
/// counted as dropped.
pub struct Capture {
    lines: VecDeque<String>,
    capacity: usize,
    dropped: usize,
}

/// What a drain of the capture hands back: the held lines, oldest first,
/// and how many lines were dropped before them.
pub struct DrainedCapture {
    pub lines: Vec<String>,
    pub dropped: usize,
}

/// The abstract state of a capture.
#[verifier::ext_equal]
pub struct CaptureState {
    pub lines: Seq<String>,
    pub capacity: nat,
    pub dropped: nat,
}

/// The state of a capture after `line` is pushed.
pub open spec fn push_model(s: CaptureState, line: String) -> CaptureState {
    if s.lines.len() == s.capacity {
        let kept = if s.lines.len() > 0 { s.lines.drop_first() } else { s.lines };
        CaptureState { lines: kept.push(line), capacity: s.capacity, dropped: s.dropped + 1 }
    } else {
        CaptureState { lines: s.lines.push(line), capacity: s.capacity, dropped: s.dropped }
    }
}

/// The state of a capture after each of `pushed` is pushed, in order.
pub open spec fn push_all(s: CaptureState, pushed: Seq<String>) -> CaptureState
    decreases pushed.len(),
{
    if pushed.len() == 0 {
        s
    } else {
        push_all(push_model(s, pushed[0]), pushed.drop_first())
    }
}

impl Capture {
    pub closed spec fn view(&self) -> CaptureState {
        CaptureState { lines: self.lines@, capacity: self.capacity as nat, dropped: self.dropped as nat }
    }

    /// An empty capture that holds at most `capacity` lines.
    pub fn new(capacity: usize) -> (r: Capture)
        ensures
            r.view() == (CaptureState { lines: Seq::empty(), capacity: capacity as nat, dropped: 0 }),
    {
        Capture { lines: VecDeque::with_capacity(capacity), capacity, dropped: 0 }
    }

    /// Holds `line`; when the buffer is full the oldest line leaves it and
    /// the dropped count grows by one.
    pub fn push(&mut self, line: String)
        requires
            old(self).view().dropped < usize::MAX,
        ensures
            final(self).view() == push_model(old(self).view(), line),
    {
        let ghost before = self.lines@;
        if self.lines.len() == self.capacity {
            let _ = self.lines.pop_front();
            self.dropped = self.dropped + 1;
        }
        self.lines.push_back(line);
        assert(self.view() =~= push_model(old(self).view(), line));
    }

    /// How many lines gave way to newer ones since the last drain.
    pub fn dropped(&self) -> (r: usize)
        ensures
            r == self.view().dropped,
    {
        self.dropped
    }

    /// Hands back every held line, oldest first, with the dropped count,
    /// and leaves the capture empty with nothing dropped.
    pub fn drain(&mut self) -> (r: DrainedCapture)
        ensures
            r.lines@ == old(self).view().lines,
            r.dropped == old(self).view().dropped,
            final(self).view() == (CaptureState { lines: Seq::empty(), capacity: old(self).view().capacity, dropped: 0 }),
    {
        let ghost held = self.lines@;
        let mut lines: Vec<String> = Vec::new();
        while self.lines.len() > 0
            invariant
                held == lines@ + self.lines@,
                self.capacity == old(self).capacity,
                self.dropped == old(self).dropped,
            decreases self.lines@.len(),
        {
            match self.lines.pop_front() {
                Some(line) => {
                    lines.push(line);
                },
                None => {},
            }
        }
        assert(lines@ =~= held);
        assert(self.lines@ =~= Seq::<String>::empty());
        let dropped = self.dropped;
        self.dropped = 0;
        assert(self.view() =~= (CaptureState { lines: Seq::empty(), capacity: old(self).view().capacity, dropped: 0 }));
        DrainedCapture { lines, dropped }
    }
}

/// Every push keeps a capture that holds at least one line within its
/// capacity, and accounts for every line: the held and the dropped lines
/// grow by one together.
pub proof fn lemma_push_keeps_capacity(s: CaptureState, line: String)
    requires
        s.capacity > 0,
        s.lines.len() <= s.capacity,
    ensures
        push_model(s, line).lines.len() <= s.capacity,
        push_model(s, line).capacity == s.capacity,
        push_model(s, line).lines.len() + push_model(s, line).dropped == s.lines.len() + s.dropped + 1,
        push_model(s, line).lines.last() == line,
{
}

/// After pushing lines into an empty capture that holds at least one line,
/// the capture holds the most recent `capacity` of them, in order, and
/// counts the others as dropped.
pub proof fn lemma_capture_keeps_latest(capacity: nat, pushed: Seq<String>)
    requires
        capacity > 0,
    ensures
        ({
            let s = push_all(CaptureState { lines: Seq::empty(), capacity, dropped: 0 }, pushed);
            let kept = if pushed.len() <= capacity { pushed.len() as int } else { capacity as int };
            &&& s.lines == pushed.subrange(pushed.len() - kept, pushed.len() as int)
            &&& s.dropped == pushed.len() - kept
            &&& s.capacity == capacity
        }),
{
    lemma_push_all_window(capacity, Seq::empty(), 0, pushed);
    assert(Seq::<String>::empty() + pushed =~= pushed);
}

/// Pushing into a capture that holds the tail of a longer history keeps it
/// holding the tail of the extended history.
proof fn lemma_push_all_window(capacity: nat, held: Seq<String>, dropped: nat, pushed: Seq<String>)
    requires
        capacity > 0,
        held.len() <= capacity,
    ensures
        ({
            let s = push_all(CaptureState { lines: held, capacity, dropped }, pushed);
            let all = held + pushed;
            let kept = if all.len() <= capacity { all.len() as int } else { capacity as int };
            &&& s.lines == all.subrange(all.len() - kept, all.len() as int)
            &&& s.dropped == dropped + all.len() - kept
            &&& s.capacity == capacity
        }),
    decreases pushed.len(),
{
    if pushed.len() == 0 {
        assert(held + pushed =~= held);
        assert(held.subrange(0, held.len() as int) =~= held);
    } else {
        let s0 = CaptureState { lines: held, capacity, dropped };
        let s1 = push_model(s0, pushed[0]);
        let rest = pushed.drop_first();
        assert(s1.lines.len() <= capacity);
        lemma_push_all_window(capacity, s1.lines, s1.dropped, rest);
        let all = held + pushed;
        let all1 = s1.lines + rest;
        if held.len() == capacity {
            assert(all1 =~= all.subrange(1, all.len() as int));
        } else {
            assert(all1 =~= all);
        }
    }
}

/// The logger's settings: the verbosity, whether tags are coloured, and
/// the capture that holds lines back, if one is active.
pub struct LoggerState {
    pub level: u8,
    pub use_colors: bool,
    pub capture: Option<Capture>,
}

/// The number of lines the capture of the live screen holds.
pub const CAPTURE_CAPACITY: usize = 1000;

pub open spec fn spec_clamp_level(level: u8) -> u8 {
    if level < 3 { level } else { 3 }
}

/// The verbosity limited to the highest threshold, that of `Debug`.
pub fn clamp_level(level: u8) -> (r: u8)
    ensures
        r == spec_clamp_level(level),
{
    if level < Level::Debug.threshold() { level } else { Level::Debug.threshold() }
}

/// Whether a line of `line_level` is shown at verbosity `state_level`.
pub fn level_passes(state_level: u8, line_level: Level) -> (r: bool)
    ensures
        r == (state_level >= line_level.spec_threshold()),
{
    state_level >= line_level.threshold()
}

/// Clamping the verbosity never changes which lines are shown.
pub proof fn lemma_clamp_keeps_filtering(level: u8, line_level: Level)
    ensures
        (spec_clamp_level(level) >= line_level.spec_threshold()) == (level >= line_level.spec_threshold()),
{
}

/// The logger state that `init` installs: the clamped verbosity, no capture.
pub fn init(level: u8, use_colors: bool) -> (r: LoggerState)
    ensures
        r.level == spec_clamp_level(level),
        r.use_colors == use_colors,
        r.capture is None,
{
    LoggerState { level: clamp_level(level), use_colors, capture: None }
}

/// The logger state that holds lines back while the live screen is shown:
/// the clamped verbosity and an empty capture of `CAPTURE_CAPACITY` lines.
pub fn init_with_capture(level: u8, use_colors: bool) -> (r: LoggerState)
    ensures
        r.level == spec_clamp_level(level),
        r.use_colors == use_colors,
        r.capture matches Some(c) && c.view() == (CaptureState {
            lines: Seq::empty(),
            capacity: CAPTURE_CAPACITY as nat,
            dropped: 0,
        }),
{
    LoggerState { level: clamp_level(level), use_colors, capture: Some(Capture::new(CAPTURE_CAPACITY)) }
}

pub open spec fn spec_format_line(use_colors: bool, level: Level, message: Seq<char>) -> Seq<char> {
    if use_colors {
        level.spec_ansi_code() + "["@ + level.spec_label() + "]\x1b[0m "@ + message
    } else {
        "["@ + level.spec_label() + "] "@ + message
    }
}

/// A log line: the bracketed level tag, coloured when the state asks for
/// colours, then the message.
pub fn format_line(state: &LoggerState, level: Level, message: &str) -> (r: String)
    ensures
        r@ == spec_format_line(state.use_colors, level, message@),
{
    if state.use_colors {
        let mut r = concat2(level.ansi_code(), "[");
        r.append(level.label());
        r.append("]\x1b[0m ");
        r.append(message);
        r
    } else {
        let mut r = concat2("[", level.label());
        r.append("] ");
        r.append(message);
        r
    }
}


/// Sends a log line on its way: while a capture is active the line is held
/// in it and nothing is written; otherwise the line is handed back to be
/// written to standard error.
pub fn emit(state: &mut LoggerState, level: Level, message: &str) -> (r: Option<String>)
    requires
        old(state).capture matches Some(c) ==> c.view().dropped < usize::MAX,
    ensures
        final(state).level == old(state).level,
        final(state).use_colors == old(state).use_colors,
        old(state).capture is None ==> final(state).capture is None
            && (r matches Some(line) && line@ == spec_format_line(old(state).use_colors, level, message@)),
        old(state).capture matches Some(c) ==> r is None && (final(state).capture matches Some(c2)
            && exists|line: String| line@ == spec_format_line(old(state).use_colors, level, message@)
                && c2.view() == #[trigger] push_model(c.view(), line)),
{
    let line = format_line(state, level, message);
    match &mut state.capture {
        Some(c) => {
            c.push(line);
            None
        },
        None => Some(line),
    }
}

/// The note written before the held lines when some were dropped.
pub open spec fn spec_overflow_note(dropped: nat) -> Seq<char> {
    "(capture buffer overflow: "@ + spec_decimal(dropped) + " earlier lines dropped)"@
}

/// The lines written when the capture is flushed: a note of how many lines
/// were dropped, when any were, then the held lines, oldest first.
pub open spec fn spec_flush_lines(use_colors: bool, dropped: nat, lines: Seq<Seq<char>>) -> Seq<Seq<char>> {
    if dropped > 0 {
        seq![spec_format_line(use_colors, Level::Info, spec_overflow_note(dropped))] + lines
    } else {
        lines
    }
}

/// The texts of a list of lines.
pub open spec fn texts(lines: Seq<String>) -> Seq<Seq<char>> {
    lines.map_values(|l: String| l@)
}

pub fn flush_lines(state: &LoggerState, drained: DrainedCapture) -> (r: Vec<String>)
    ensures
        texts(r@) == spec_flush_lines(state.use_colors, drained.dropped as nat, texts(drained.lines@)),
{
    let mut out: Vec<String> = Vec::new();
    if drained.dropped > 0 {
        let mut note = owned("(capture buffer overflow: ");
        let n = decimal(drained.dropped as u64);
        note.append(n.as_str());
        note.append(" earlier lines dropped)");
        out.push(format_line(state, Level::Info, note.as_str()));
    }
    let ghost head = texts(out@);
    let lines = drained.lines;
    let mut i: usize = 0;
    while i < lines.len()
        invariant
            i <= lines@.len(),
            texts(out@) == head + texts(lines@.take(i as int)),
        decreases lines@.len() - i,
    {
        let ghost before = out@;
        let line = lines[i].clone();
        out.push(line);
        assert(texts(out@) =~= texts(before).push(line@));
        assert(texts(lines@.take(i + 1)) =~= texts(lines@.take(i as int)).push(lines@[i as int]@));
        i += 1;
    }
    assert(lines@.take(lines@.len() as int) =~= lines@);
    out
}
} // verus!
