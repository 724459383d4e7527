use vstd::prelude::*;
use vstd::string::*;

use crate::config::{MAX_CHARS, MIN_CHARS};
use crate::text::{lemma_trimmed_idempotent, trim, trimmed};

verus! {

/// Whether a text of `n` characters is long enough and short enough to be
/// translated.
pub open spec fn length_accepted(n: nat) -> bool {
    MIN_CHARS <= n <= MAX_CHARS
}

/// One poll on the abstract state: `last` is the text delivered last (if any),
/// `read` what the clipboard held (if it could be read as text). The result
/// is the text remembered afterwards and the text delivered by this poll.
///
/// A text is delivered when, with its outer white space removed, it has an
/// accepted length and differs from the text delivered last.
pub open spec fn poll_outcome(last: Option<Seq<char>>, read: Option<Seq<char>>) -> (
    Option<Seq<char>>,
    Option<Seq<char>>,
) {
    match read {
        None => (last, None),
        Some(raw) => {
            let t = trimmed(raw);
            if !length_accepted(t.len()) || last == Some(t) {
                (last, None)
            } else {
                (Some(t), Some(t))
            }
        },
    }
}

/// Watches the clipboard text and hands out each new, translatable text once.
pub struct ClipboardWatcher {
    last_seen: Option<String>,
}

impl View for ClipboardWatcher {
    type V = Option<Seq<char>>;

    /// The text delivered last, if any.
    closed spec fn view(&self) -> Option<Seq<char>> {
        self.last_seen.deep_view()
    }
}

impl ClipboardWatcher {
    /// A watcher that has delivered nothing yet.
    pub fn new() -> (w: Self)
        ensures
            w@ == None::<Seq<char>>,
    {
        ClipboardWatcher { last_seen: None }
    }

    /// Takes what the clipboard held (`None` when it held no text or could
    /// not be read) and returns the text to translate, if any: the clipboard
    /// text without outer white space, when it has between `MIN_CHARS` and
    /// `MAX_CHARS` characters and is not the text returned last.
    pub fn poll(&mut self, clipboard_text: Option<String>) -> (r: Option<String>)
        ensures
            (final(self)@, r.deep_view()) == poll_outcome(old(self)@, clipboard_text.deep_view()),
    {
        let text = match clipboard_text {
            Some(t) => t,
            None => {
                return None;
            },
        };
        let t = trim(text.as_str());
        let len = t.as_str().unicode_len();
        if len < MIN_CHARS || len > MAX_CHARS {
            return None;
        }
        let same = match &self.last_seen {
            Some(prev) => *prev == t,
            None => false,
        };
        if same {
            return None;
        }
        self.last_seen = Some(t.clone());
        Some(t)
    }
}

} // verus!

verus! {

/// A delivered text is the clipboard text without outer white space (so
/// trimming it again changes nothing), has an accepted length, differs from
/// the text delivered before, and is remembered as the last one.
pub proof fn lemma_poll_delivery(last: Option<Seq<char>>, read: Option<Seq<char>>)
    ensures
        poll_outcome(last, read).1 matches Some(t) ==> {
            &&& read matches Some(raw) && t == trimmed(raw)
            &&& trimmed(t) == t
            &&& length_accepted(t.len())
            &&& last != Some(t)
            &&& poll_outcome(last, read).0 == Some(t)
        },
{
    if let Some(raw) = read {
        lemma_trimmed_idempotent(raw);
    }
}

/// What one poll does, with the bounds written out: no text delivers nothing
/// and changes nothing; a text whose trimmed form has 3 to 2000 characters
/// and differs from the text delivered last is delivered trimmed and
/// remembered; any other text delivers nothing and changes nothing.
pub proof fn lemma_poll_exact(last: Option<Seq<char>>, raw: Seq<char>)
    ensures
        poll_outcome(last, None) == (last, None::<Seq<char>>),
        (3 <= trimmed(raw).len() <= 2000 && last != Some(trimmed(raw))) ==> poll_outcome(
            last,
            Some(raw),
        ) == (Some(trimmed(raw)), Some(trimmed(raw))),
        !(3 <= trimmed(raw).len() <= 2000 && last != Some(trimmed(raw))) ==> poll_outcome(
            last,
            Some(raw),
        ) == (last, None::<Seq<char>>),
{
}

/// A poll that delivers nothing leaves the watcher as it was.
pub proof fn lemma_poll_without_delivery_keeps_state(
    last: Option<Seq<char>>,
    read: Option<Seq<char>>,
)
    ensures
        poll_outcome(last, read).1 is None ==> poll_outcome(last, read).0 == last,
{
}

/// Reading the same clipboard content twice in a row delivers it at most
/// once, and the second poll changes nothing.
pub proof fn lemma_poll_same_text_twice(last: Option<Seq<char>>, read: Option<Seq<char>>)
    ensures
        poll_outcome(poll_outcome(last, read).0, read).1 is None,
        poll_outcome(poll_outcome(last, read).0, read).0 == poll_outcome(last, read).0,
{
}

} // verus!
