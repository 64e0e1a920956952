use rustormy::logging::{
    clamp_level, emit, flush_lines, format_line, init, init_with_capture, level_passes, Capture, DrainedCapture, Level,
    LoggerState,
};

fn render(level_threshold: u8, line_level: Level, message: &str, use_colors: bool) -> String {
    let state = LoggerState { level: level_threshold, use_colors, capture: None };
    format_line(&state, line_level, message)
}

#[test]
fn formats_warn_without_colors() {
    let out = render(1, Level::Warn, "boom", false);
    assert_eq!(out, "[WARN] boom");
}

#[test]
fn formats_info_without_colors() {
    let out = render(2, Level::Info, "ok", false);
    assert_eq!(out, "[INFO] ok");
}

#[test]
fn colored_warn_contains_ansi() {
    let out = render(1, Level::Warn, "boom", true);
    assert!(out.contains("\x1b["), "expected ANSI escape, got {out:?}");
    assert!(out.contains("[WARN]"));
    assert!(out.contains("boom"));
}

#[test]
fn level_passes_returns_true_for_equal_or_lower() {
    assert!(level_passes(1, Level::Warn));
    assert!(!level_passes(1, Level::Info));
    assert!(!level_passes(0, Level::Warn));
    assert!(level_passes(3, Level::Debug));
    assert!(!level_passes(2, Level::Debug));
}

#[test]
fn level_clamping_in_init_state() {
    assert_eq!(clamp_level(0), 0);
    assert_eq!(clamp_level(1), 1);
    assert_eq!(clamp_level(3), 3);
    assert_eq!(clamp_level(99), 3);
}

#[test]
fn capture_records_lines_when_active() {
    let mut cap = Capture::new(1000);
    cap.push("[WARN] one".to_string());
    cap.push("[INFO] two".to_string());
    let drained = cap.drain();
    assert_eq!(drained.lines, vec!["[WARN] one", "[INFO] two"]);
    assert_eq!(drained.dropped, 0);
}

#[test]
fn capture_drops_oldest_when_full() {
    let mut cap = Capture::new(3);
    cap.push("a".to_string());
    cap.push("b".to_string());
    cap.push("c".to_string());
    cap.push("d".to_string());
    cap.push("e".to_string());
    let drained = cap.drain();
    assert_eq!(drained.lines, vec!["c", "d", "e"]);
    assert_eq!(drained.dropped, 2);
}

#[test]
fn capture_drain_resets_state() {
    let mut cap = Capture::new(2);
    cap.push("x".to_string());
    cap.push("y".to_string());
    cap.push("z".to_string());
    let _ = cap.drain();
    cap.push("after".to_string());
    let drained = cap.drain();
    assert_eq!(drained.lines, vec!["after"]);
    assert_eq!(drained.dropped, 0);
}

#[test]
fn colored_lines_carry_the_level_colour() {
    assert_eq!(render(1, Level::Warn, "boom", true), "\x1b[33m[WARN]\x1b[0m boom");
    assert_eq!(render(3, Level::Debug, "x", true), "\x1b[90m[DEBUG]\x1b[0m x");
}

#[test]
fn init_states_clamp_the_level() {
    let s = init(7, true);
    assert_eq!(s.level, 3);
    assert!(s.use_colors);
    assert!(s.capture.is_none());
    let c = init_with_capture(2, false);
    assert_eq!(c.level, 2);
    assert!(c.capture.is_some());
}

#[test]
fn emit_writes_without_capture_and_holds_with_it() {
    let mut plain = init(3, false);
    assert_eq!(emit(&mut plain, Level::Info, "hello"), Some("[INFO] hello".to_string()));
    let mut held = init_with_capture(3, false);
    assert_eq!(emit(&mut held, Level::Warn, "later"), None);
    let drained = held.capture.as_mut().unwrap().drain();
    assert_eq!(drained.lines, vec!["[WARN] later"]);
}

#[test]
fn flush_notes_dropped_lines_first() {
    let state = init(1, false);
    let lines = flush_lines(&state, DrainedCapture { lines: vec!["a".to_string()], dropped: 12 });
    assert_eq!(lines, vec!["[INFO] (capture buffer overflow: 12 earlier lines dropped)", "a"]);
    let lines = flush_lines(&state, DrainedCapture { lines: vec!["b".to_string()], dropped: 0 });
    assert_eq!(lines, vec!["b"]);
}

#[test]
fn capture_accounts_for_every_line() {
    let mut cap = Capture::new(4);
    for i in 0..10 {
        cap.push(format!("line {i}"));
        assert!(cap.dropped() <= i);
    }
    assert_eq!(cap.dropped(), 6);
    let drained = cap.drain();
    assert_eq!(drained.lines.len() + drained.dropped, 10);
    assert_eq!(drained.lines.last().map(String::as_str), Some("line 9"));
}
