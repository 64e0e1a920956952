use vstd::prelude::*;
use vstd::string::*;

verus! {

/// `bytes` with every line feed turned into a carriage return and line
/// feed, as a terminal in raw mode needs.
pub open spec fn crlf(bytes: Seq<u8>) -> Seq<u8>
    decreases bytes.len(),
{
    if bytes.len() == 0 {
        Seq::empty()
    } else {
        let last = bytes.last();
        crlf(bytes.drop_last()) + if last == 10u8 { seq![13u8, 10u8] } else { seq![last] }
    }
}

/// Appends the UTF-8 bytes of `text` to `out`, each line feed written as
/// a carriage return and line feed.
pub fn write_payload(out: &mut Vec<u8>, text: &str)
    ensures
        final(out)@ == old(out)@ + crlf(text.spec_bytes()),
{
    let bytes = text.as_bytes();
    let n = bytes.len();
    let mut i: usize = 0;
    while i < n
        invariant
            bytes@ == text.spec_bytes(),
            n == bytes@.len(),
            0 <= i <= n,
            out@ == old(out)@ + crlf(bytes@.take(i as int)),
        decreases n - i,
    {
        let b = bytes[i];
        if b == 10u8 {
            out.push(13u8);
            out.push(10u8);
        } else {
            out.push(b);
        }
        assert(bytes@.take(i + 1).drop_last() == bytes@.take(i as int));
        assert(out@ =~= old(out)@ + crlf(bytes@.take(i + 1)));
        i += 1;
    }
    assert(bytes@.take(n as int) == bytes@);
}

/// A key of the live screen.
#[derive(Debug, Clone, Copy, PartialEq, Eq, Structural)]
pub enum LiveKey {
    Char(char),
    Esc,
    Other,
}

/// What happened while the live screen waited for its next refresh.
#[derive(Debug, Clone, Copy, PartialEq, Eq, Structural)]
pub enum LiveEvent {
    /// A key went down; `control_only` tells whether Control, and no other
    /// modifier, was held.
    KeyPress { key: LiveKey, control_only: bool },
    /// The terminal changed its size.
    Resize,
    /// The refresh interval ran out.
    Timeout,
    /// Anything else (key releases, mouse, focus).
    Other,
}

/// What the live screen does next.
#[derive(Debug, Clone, Copy, PartialEq, Eq, Structural)]
pub enum LiveAction {
    /// Leave the live screen.
    Quit,
    /// Fetch the weather again and redraw.
    Refresh,
    /// Redraw the last report.
    Redraw,
    /// Keep waiting.
    Wait,
}

pub open spec fn spec_live_action(event: LiveEvent) -> LiveAction {
    match event {
        LiveEvent::KeyPress { key, control_only } => match key {
            LiveKey::Char('q') | LiveKey::Esc => LiveAction::Quit,
            LiveKey::Char('c') if control_only => LiveAction::Quit,
            LiveKey::Char('r') => LiveAction::Refresh,
            _ => LiveAction::Wait,
        },
        LiveEvent::Resize => LiveAction::Redraw,
        LiveEvent::Timeout => LiveAction::Refresh,
        LiveEvent::Other => LiveAction::Wait,
    }
}

/// The live screen's answer to an event: `q`, Escape or Control-C quit,
/// `r` or the end of the interval refresh, a resize redraws, anything else
/// waits.
pub fn live_action(event: LiveEvent) -> (r: LiveAction)
    ensures
        r == spec_live_action(event),
{
    match event {
        LiveEvent::KeyPress { key, control_only } => match key {
            LiveKey::Char('q') | LiveKey::Esc => LiveAction::Quit,
            LiveKey::Char('c') if control_only => LiveAction::Quit,
            LiveKey::Char('r') => LiveAction::Refresh,
            _ => LiveAction::Wait,
        },
        LiveEvent::Resize => LiveAction::Redraw,
        LiveEvent::Timeout => LiveAction::Refresh,
        LiveEvent::Other => LiveAction::Wait,
    }
}

} // verus!
