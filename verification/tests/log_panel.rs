use gb_core::debug::log_panel::recent_lines;
use gb_core::log_ring::{LogRing, MAX_LINES};

#[test]
fn recent_lines_never_exceeds_the_requested_cap() {
    let mut ring = LogRing::new();
    for i in 0..10 {
        ring.push_line(format!("line {i}"));
    }
    let out = recent_lines(&ring.snapshot(), 3);
    assert!(out.len() <= 3);
}

#[test]
fn recent_lines_keeps_the_newest_in_order() {
    let all: Vec<String> = (0..5).map(|i| format!("l{i}")).collect();
    assert_eq!(recent_lines(&all, 2), vec!["l3".to_string(), "l4".to_string()]);
    assert_eq!(recent_lines(&all, 10).len(), 5);
    assert!(recent_lines(&all, 0).is_empty());
}

#[test]
fn log_ring_drops_the_oldest_line_when_full() {
    let mut ring = LogRing::new();
    for i in 0..MAX_LINES + 2 {
        ring.push_line(format!("{i}"));
    }
    let snap = ring.snapshot();
    assert_eq!(snap.len(), MAX_LINES);
    assert_eq!(snap[0], "2");
    assert_eq!(snap[MAX_LINES - 1], format!("{}", MAX_LINES + 1));
}
