use clip_translator::pipeline::{
    notification_body, ClipboardLoop, LoopAction, LoopEvent, TranslationOutcome,
    SOURCE_PREVIEW_CHARS,
};
use clip_translator::translator::{parse_reply, PREAMBLE, SKIP_MARKER};

#[test]
fn skip_reply_means_no_translation() {
    assert_eq!(parse_reply("SKIP"), None);
    assert_eq!(parse_reply("  SKIP\n"), None);
    assert_eq!(parse_reply(SKIP_MARKER), None);
}

#[test]
fn other_replies_are_trimmed_translations() {
    assert_eq!(parse_reply("  こんにちは \n"), Some("こんにちは".to_string()));
    assert_eq!(parse_reply("skip"), Some("skip".to_string()));
    assert_eq!(parse_reply("SKIP."), Some("SKIP.".to_string()));
    assert_eq!(parse_reply("   "), Some(String::new()));
}

#[test]
fn preamble_asks_for_the_skip_marker() {
    assert!(PREAMBLE.contains("output exactly: SKIP"));
    assert!(PREAMBLE.starts_with("You are a translator between English and Japanese."));
}

#[test]
fn notification_body_joins_preview_and_translation() {
    assert_eq!(notification_body("Hello", "こんにちは"), "Hello\nこんにちは");
    let long = "y".repeat(SOURCE_PREVIEW_CHARS + 5);
    let body = notification_body(&long, "t");
    assert_eq!(body, format!("{}\u{2026}\nt", "y".repeat(SOURCE_PREVIEW_CHARS)));
}

#[test]
fn paused_loop_does_not_read_clipboard() {
    let mut l = ClipboardLoop::new();
    assert_eq!(l.step(LoopEvent::Woke { paused: true }), LoopAction::Sleep);
    assert_eq!(l.step(LoopEvent::Woke { paused: false }), LoopAction::ReadClipboard);
}

#[test]
fn full_round_notifies_translation() {
    let mut l = ClipboardLoop::new();
    assert_eq!(l.step(LoopEvent::Woke { paused: false }), LoopAction::ReadClipboard);
    assert_eq!(
        l.step(LoopEvent::ClipboardRead(Some(" Good morning ".to_string()))),
        LoopAction::Translate("Good morning".to_string())
    );
    assert_eq!(
        l.step(LoopEvent::TranslationFinished(TranslationOutcome::Translated(
            "おはよう".to_string()
        ))),
        LoopAction::Notify("Good morning\nおはよう".to_string())
    );
    assert_eq!(
        l.step(LoopEvent::ClipboardRead(Some("Good morning".to_string()))),
        LoopAction::Sleep
    );
}

#[test]
fn unsuccessful_translations_notify_nothing() {
    for outcome in [
        TranslationOutcome::Skipped,
        TranslationOutcome::Failed,
        TranslationOutcome::TimedOut,
    ] {
        let mut l = ClipboardLoop::new();
        assert_eq!(
            l.step(LoopEvent::ClipboardRead(Some("some text".to_string()))),
            LoopAction::Translate("some text".to_string())
        );
        assert_eq!(l.step(LoopEvent::TranslationFinished(outcome)), LoopAction::Sleep);
    }
}

#[test]
fn translation_without_request_notifies_nothing() {
    let mut l = ClipboardLoop::new();
    assert_eq!(
        l.step(LoopEvent::TranslationFinished(TranslationOutcome::Translated("x".to_string()))),
        LoopAction::Sleep
    );
    assert_eq!(l.step(LoopEvent::ClipboardRead(None)), LoopAction::Sleep);
}
