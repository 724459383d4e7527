use clip_translator::clipboard::ClipboardWatcher;
use clip_translator::config::{MAX_CHARS, MIN_CHARS};

fn some(s: &str) -> Option<String> {
    Some(s.to_string())
}

#[test]
fn unreadable_clipboard_gives_nothing() {
    let mut w = ClipboardWatcher::new();
    assert_eq!(w.poll(None), None);
}

#[test]
fn new_text_is_delivered_trimmed() {
    let mut w = ClipboardWatcher::new();
    assert_eq!(w.poll(some("  hello world\n")), some("hello world"));
}

#[test]
fn same_text_is_not_delivered_twice_in_a_row() {
    let mut w = ClipboardWatcher::new();
    assert_eq!(w.poll(some("hello")), some("hello"));
    assert_eq!(w.poll(some("hello")), None);
    assert_eq!(w.poll(some("  hello \t")), None);
    assert_eq!(w.poll(some("world")), some("world"));
    assert_eq!(w.poll(some("hello")), some("hello"));
}

#[test]
fn rejected_text_does_not_reset_memory() {
    let mut w = ClipboardWatcher::new();
    assert_eq!(w.poll(some("hello")), some("hello"));
    assert_eq!(w.poll(some("hi")), None);
    assert_eq!(w.poll(None), None);
    assert_eq!(w.poll(some("hello")), None);
}

#[test]
fn length_bounds_are_inclusive() {
    let mut w = ClipboardWatcher::new();
    assert_eq!(w.poll(Some("a".repeat(MIN_CHARS - 1))), None);
    assert_eq!(w.poll(Some("a".repeat(MIN_CHARS))), Some("a".repeat(MIN_CHARS)));
    assert_eq!(w.poll(Some("b".repeat(MAX_CHARS))), Some("b".repeat(MAX_CHARS)));
    assert_eq!(w.poll(Some("c".repeat(MAX_CHARS + 1))), None);
}

#[test]
fn length_counts_characters_after_trimming() {
    let mut w = ClipboardWatcher::new();
    assert_eq!(w.poll(some("  ab  ")), None);
    assert_eq!(w.poll(some("日本語")), some("日本語"));
    assert_eq!(w.poll(some("\u{3000}\u{3000}")), None);
}
