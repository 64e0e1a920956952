use rustormy::live::{live_action, write_payload, LiveAction, LiveEvent, LiveKey};

fn capture(text: &str) -> Vec<u8> {
    let mut buf = Vec::new();
    write_payload(&mut buf, text);
    buf
}

#[test]
fn test_write_payload_empty() {
    assert_eq!(capture(""), b"");
}

#[test]
fn test_write_payload_single_line_no_newline() {
    assert_eq!(capture("hello"), b"hello");
}

#[test]
fn test_write_payload_single_line_with_newline() {
    assert_eq!(capture("hello\n"), b"hello\r\n");
}

#[test]
fn test_write_payload_multi_line() {
    assert_eq!(capture("a\nb\nc\n"), b"a\r\nb\r\nc\r\n");
}

#[test]
fn test_write_payload_no_trailing_newline_in_multiline() {
    assert_eq!(capture("a\nb\nc"), b"a\r\nb\r\nc");
}

#[test]
fn write_payload_keeps_multibyte_text() {
    assert_eq!(capture("été\n"), "été\r\n".as_bytes());
}

#[test]
fn live_keys_quit_refresh_or_wait() {
    let key = |c: char, control_only: bool| LiveEvent::KeyPress { key: LiveKey::Char(c), control_only };
    assert_eq!(live_action(key('q', false)), LiveAction::Quit);
    assert_eq!(live_action(LiveEvent::KeyPress { key: LiveKey::Esc, control_only: false }), LiveAction::Quit);
    assert_eq!(live_action(key('c', true)), LiveAction::Quit);
    assert_eq!(live_action(key('c', false)), LiveAction::Wait);
    assert_eq!(live_action(key('r', false)), LiveAction::Refresh);
    assert_eq!(live_action(LiveEvent::Timeout), LiveAction::Refresh);
    assert_eq!(live_action(LiveEvent::Resize), LiveAction::Redraw);
    assert_eq!(live_action(LiveEvent::Other), LiveAction::Wait);
}
