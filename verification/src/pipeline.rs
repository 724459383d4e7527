use vstd::prelude::*;
use vstd::string::*;

use crate::clipboard::{length_accepted, poll_outcome, ClipboardWatcher};
use crate::text::{lemma_truncated_shape, trimmed, truncate, truncated};

verus! {

/// How many characters of the source text a notification shows.
pub const SOURCE_PREVIEW_CHARS: usize = 60;

/// Notification text: the source text shortened to `SOURCE_PREVIEW_CHARS`
/// characters, a line break, then the translation.
pub open spec fn notification_text(source: Seq<char>, translation: Seq<char>) -> Seq<char> {
    truncated(source, SOURCE_PREVIEW_CHARS as nat) + seq!['\n'] + translation
}

/// Builds the notification text for a source text and its translation.
pub fn notification_body(source: &str, translation: &str) -> (body: String)
    ensures
        body@ == notification_text(source@, translation@),
        body@ == truncated(source@, 60) + seq!['\n'] + translation@,
        body@.skip(truncated(source@, 60).len() as int + 1) == translation@,
{
    let mut body = truncate(source, SOURCE_PREVIEW_CHARS);
    body.append("\n");
    body.append(translation);
    proof {
        reveal_strlit("\n");
    }
    assert(body@ =~= notification_text(source@, translation@));
    assert(body@.skip(truncated(source@, 60).len() as int + 1) =~= translation@);
    body
}

/// How a translation request ended.
#[derive(Debug, Clone, PartialEq, Eq)]
pub enum TranslationOutcome {
    /// The model returned this translation.
    Translated(String),
    /// The model declined: the text is not natural English or Japanese.
    Skipped,
    /// The request failed.
    Failed,
    /// The request did not finish within `OLLAMA_TIMEOUT_SEC`.
    TimedOut,
}

/// What happened since the clipboard loop last asked for work.
#[derive(Debug, Clone, PartialEq, Eq)]
pub enum LoopEvent {
    /// The poll interval has passed; `paused` is the pause switch now.
    Woke { paused: bool },
    /// The clipboard was read (`None`: no text, or it could not be read).
    ClipboardRead(Option<String>),
    /// The translation asked for last has ended.
    TranslationFinished(TranslationOutcome),
}

/// What the clipboard loop is to do next.
#[derive(Debug, Clone, PartialEq, Eq)]
pub enum LoopAction {
    /// Wait for the next poll interval.
    Sleep,
    /// Read the clipboard text.
    ReadClipboard,
    /// Ask the model to translate this text.
    Translate(String),
    /// Show a notification with this text, then wait.
    Notify(String),
}

/// The abstract state of the clipboard loop: the text delivered last by the
/// clipboard watcher, and the text whose translation is awaited.
pub struct LoopStateView {
    pub last_seen: Option<Seq<char>>,
    pub pending: Option<Seq<char>>,
}

/// The abstract form of a `LoopEvent`; a finished translation is `Some` of
/// the translation when the model translated, `None` otherwise.
pub enum LoopEventView {
    Woke(bool),
    ClipboardRead(Option<Seq<char>>),
    TranslationFinished(Option<Seq<char>>),
}

/// The abstract form of a `LoopAction`.
pub enum LoopActionView {
    Sleep,
    ReadClipboard,
    Translate(Seq<char>),
    Notify(Seq<char>),
}

impl View for TranslationOutcome {
    type V = Option<Seq<char>>;

    /// The translation, when the model gave one.
    open spec fn view(&self) -> Option<Seq<char>> {
        match self {
            TranslationOutcome::Translated(t) => Some(t@),
            _ => None,
        }
    }
}

impl View for LoopEvent {
    type V = LoopEventView;

    open spec fn view(&self) -> LoopEventView {
        match self {
            LoopEvent::Woke { paused } => LoopEventView::Woke(*paused),
            LoopEvent::ClipboardRead(read) => LoopEventView::ClipboardRead(read.deep_view()),
            LoopEvent::TranslationFinished(outcome) => LoopEventView::TranslationFinished(outcome@),
        }
    }
}

impl View for LoopAction {
    type V = LoopActionView;

    open spec fn view(&self) -> LoopActionView {
        match self {
            LoopAction::Sleep => LoopActionView::Sleep,
            LoopAction::ReadClipboard => LoopActionView::ReadClipboard,
            LoopAction::Translate(t) => LoopActionView::Translate(t@),
            LoopAction::Notify(b) => LoopActionView::Notify(b@),
        }
    }
}

/// One step of the clipboard loop: the state afterwards and the action to take.
///
/// - Woken while paused: sleep. Woken otherwise: read the clipboard.
/// - Clipboard read: poll the watcher; translate the text it delivers, and
///   await its translation, or sleep when it delivers none.
/// - Translation finished: nothing is awaited any more; notify with the
///   awaited text and its translation when the model translated it, and
///   sleep otherwise.
pub open spec fn loop_step(s: LoopStateView, e: LoopEventView) -> (LoopStateView, LoopActionView) {
    match e {
        LoopEventView::Woke(paused) => (
            s,
            if paused {
                LoopActionView::Sleep
            } else {
                LoopActionView::ReadClipboard
            },
        ),
        LoopEventView::ClipboardRead(read) => {
            let (last, delivered) = poll_outcome(s.last_seen, read);
            (
                LoopStateView { last_seen: last, pending: delivered },
                match delivered {
                    Some(t) => LoopActionView::Translate(t),
                    None => LoopActionView::Sleep,
                },
            )
        },
        LoopEventView::TranslationFinished(translation) => (
            LoopStateView { last_seen: s.last_seen, pending: None },
            match (s.pending, translation) {
                (Some(source), Some(t)) => LoopActionView::Notify(notification_text(source, t)),
                _ => LoopActionView::Sleep,
            },
        ),
    }
}

/// The decisions of the clipboard loop: when to read the clipboard, which
/// text to translate, and what to show when a translation comes back.
pub struct ClipboardLoop {
    watcher: ClipboardWatcher,
    pending: Option<String>,
}

impl View for ClipboardLoop {
    type V = LoopStateView;

    closed spec fn view(&self) -> LoopStateView {
        LoopStateView { last_seen: self.watcher@, pending: self.pending.deep_view() }
    }
}

impl ClipboardLoop {
    /// A loop that has seen nothing and awaits nothing.
    pub fn new() -> (l: Self)
        ensures
            l@ == (LoopStateView { last_seen: None, pending: None }),
    {
        ClipboardLoop { watcher: ClipboardWatcher::new(), pending: None }
    }

    /// Decides the next action from the event that just happened, as
    /// `loop_step` says.
    pub fn step(&mut self, event: LoopEvent) -> (action: LoopAction)
        ensures
            (final(self)@, action@) == loop_step(old(self)@, event@),
    {
        match event {
            LoopEvent::Woke { paused } => {
                if paused {
                    LoopAction::Sleep
                } else {
                    LoopAction::ReadClipboard
                }
            },
            LoopEvent::ClipboardRead(read) => {
                match self.watcher.poll(read) {
                    Some(text) => {
                        self.pending = Some(text.clone());
                        LoopAction::Translate(text)
                    },
                    None => {
                        self.pending = None;
                        LoopAction::Sleep
                    },
                }
            },
            LoopEvent::TranslationFinished(outcome) => {
                let pending = self.pending.take();
                match (pending, outcome) {
                    (Some(source), TranslationOutcome::Translated(translation)) => {
                        LoopAction::Notify(notification_body(source.as_str(), translation.as_str()))
                    },
                    _ => LoopAction::Sleep,
                }
            },
        }
    }
}

} // verus!

verus! {

/// A notification is a preview line of at most 61 characters (the whole
/// source when it has at most 60, otherwise its first 60 characters and an
/// ellipsis), then one line break, then the whole translation, uncut.
pub proof fn lemma_notification_layout(source: Seq<char>, translation: Seq<char>)
    ensures
        ({
            let n = notification_text(source, translation);
            let preview = truncated(source, 60);
            let p = preview.len() as int;
            &&& p <= 61
            &&& source.len() <= 60 ==> preview == source
            &&& source.len() > 60 ==> preview == source.take(60).push('\u{2026}')
            &&& n.len() == p + 1 + translation.len()
            &&& n.take(p) == preview
            &&& n[p] == '\n'
            &&& n.skip(p + 1) == translation
        }),
{
    lemma_truncated_shape(source, 60);
    let n = notification_text(source, translation);
    let preview = truncated(source, 60);
    let p = preview.len() as int;
    assert(n.take(p) =~= preview);
    assert(n.skip(p + 1) =~= translation);
    if source.len() > 60 {
        assert(preview =~= source.take(60).push('\u{2026}'));
    }
}

/// Waking up: while paused the loop sleeps, otherwise it reads the clipboard;
/// either way nothing changes.
pub proof fn lemma_wake_step(s: LoopStateView)
    ensures
        loop_step(s, LoopEventView::Woke(true)) == (s, LoopActionView::Sleep),
        loop_step(s, LoopEventView::Woke(false)) == (s, LoopActionView::ReadClipboard),
{
}

/// Reading the clipboard: a text whose trimmed form has 3 to 2000 characters
/// and is not the text handed out last is sent for translation, trimmed, and
/// becomes both the remembered and the awaited text; any other read (no text,
/// too short, too long, the same text again) sleeps, remembers what it
/// remembered, and awaits nothing.
pub proof fn lemma_read_step(s: LoopStateView, raw: Seq<char>)
    ensures
        loop_step(s, LoopEventView::ClipboardRead(None)) == (
            LoopStateView { last_seen: s.last_seen, pending: None },
            LoopActionView::Sleep,
        ),
        ({
            let t = trimmed(raw);
            (3 <= t.len() <= 2000 && s.last_seen != Some(t)) ==> loop_step(
                s,
                LoopEventView::ClipboardRead(Some(raw)),
            ) == (LoopStateView { last_seen: Some(t), pending: Some(t) }, LoopActionView::Translate(
                t,
            ))
        }),
        ({
            let t = trimmed(raw);
            !(3 <= t.len() <= 2000 && s.last_seen != Some(t)) ==> loop_step(
                s,
                LoopEventView::ClipboardRead(Some(raw)),
            ) == (LoopStateView { last_seen: s.last_seen, pending: None }, LoopActionView::Sleep)
        }),
{
}

/// A finished translation awaits nothing afterwards and keeps the remembered
/// text. Without a translation (skipped, failed, timed out) the loop sleeps;
/// with one, it notifies about the awaited text when there is one and sleeps
/// otherwise. It never asks to read the clipboard or to translate.
pub proof fn lemma_finish_step(s: LoopStateView, translation: Option<Seq<char>>)
    ensures
        loop_step(s, LoopEventView::TranslationFinished(None)) == (
            LoopStateView { last_seen: s.last_seen, pending: None },
            LoopActionView::Sleep,
        ),
        loop_step(s, LoopEventView::TranslationFinished(translation)).0 == (LoopStateView {
            last_seen: s.last_seen,
            pending: None,
        }),
        !(loop_step(s, LoopEventView::TranslationFinished(translation)).1 is Translate),
        !(loop_step(s, LoopEventView::TranslationFinished(translation)).1 is ReadClipboard),
        s.pending is None ==> loop_step(s, LoopEventView::TranslationFinished(translation)).1
            == LoopActionView::Sleep,
        (s.pending is Some && translation is Some) ==> loop_step(
            s,
            LoopEventView::TranslationFinished(translation),
        ).1 == LoopActionView::Notify(notification_text(s.pending->0, translation->0)),
{
}

/// While paused, waking up neither reads the clipboard nor changes anything.
pub proof fn lemma_paused_wake_sleeps(s: LoopStateView)
    ensures
        loop_step(s, LoopEventView::Woke(true)) == (s, LoopActionView::Sleep),
{
}

/// A full round: when not paused, the loop reads the clipboard; a new text of
/// accepted length is sent for translation without its outer white space; and
/// when the model translates it, the notification shows that text and its
/// translation, nothing is awaited any more, and the text is remembered.
pub proof fn lemma_round_announces_translation(
    s: LoopStateView,
    raw: Seq<char>,
    translation: Seq<char>,
)
    requires
        length_accepted(trimmed(raw).len()),
        s.last_seen != Some(trimmed(raw)),
    ensures
        loop_step(s, LoopEventView::Woke(false)) == (s, LoopActionView::ReadClipboard),
        loop_step(s, LoopEventView::ClipboardRead(Some(raw))).1 == LoopActionView::Translate(
            trimmed(raw),
        ),
        loop_step(
            loop_step(s, LoopEventView::ClipboardRead(Some(raw))).0,
            LoopEventView::TranslationFinished(Some(translation)),
        ) == (
            LoopStateView { last_seen: Some(trimmed(raw)), pending: None },
            LoopActionView::Notify(notification_text(trimmed(raw), translation)),
        ),
{
}

/// Once a clipboard text has been read, reading the same content again after
/// any wake-up or finished translation sends nothing for translation.
pub proof fn lemma_same_text_not_translated_again(
    s: LoopStateView,
    read: Option<Seq<char>>,
    between: LoopEventView,
)
    requires
        !(between is ClipboardRead),
    ensures
        ({
            let after_read = loop_step(s, LoopEventView::ClipboardRead(read)).0;
            let after_between = loop_step(after_read, between).0;
            loop_step(after_between, LoopEventView::ClipboardRead(read)).1 == LoopActionView::Sleep
        }),
{
}

/// A finished translation leads to a notification only when a text was
/// awaited and the model translated it.
pub proof fn lemma_notify_needs_awaited_translation(s: LoopStateView, e: LoopEventView)
    ensures
        loop_step(s, e).1 is Notify ==> (e matches LoopEventView::TranslationFinished(Some(_))
            && s.pending is Some),
{
}

} // verus!
