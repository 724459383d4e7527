use vstd::prelude::*;
use vstd::string::*;

use crate::text::{lemma_trimmed_idempotent, trim, trimmed};

verus! {

/// System prompt given to the model: translate English to Japanese and
/// Japanese to English, and answer exactly `SKIP` for anything else.
pub const PREAMBLE: &'static str = "\
You are a translator between English and Japanese.

Rules:
- If the input is English, translate it to natural Japanese.
- If the input is Japanese, translate it to natural English.
- If the input is not natural English or Japanese (URL, code, file path, \
random symbols, mixed gibberish, single word that is a brand/proper noun \
not worth translating, etc.), output exactly: SKIP
- Output ONLY the translated text, or the single word SKIP.
- Do NOT add explanations, quotes, prefixes, or any other text.
- Do NOT wrap the output in quotes or code blocks.
";

/// The whole reply by which the model declines to translate.
pub const SKIP_MARKER: &'static str = "SKIP";

/// The characters of `SKIP_MARKER`.
pub open spec fn skip_marker() -> Seq<char> {
    seq!['S', 'K', 'I', 'P']
}

/// What a model reply means: `None` when the reply, without outer white
/// space, is exactly the skip marker; otherwise the reply without outer white
/// space is the translation.
pub open spec fn reply_meaning(reply: Seq<char>) -> Option<Seq<char>> {
    if trimmed(reply) == skip_marker() {
        None
    } else {
        Some(trimmed(reply))
    }
}

/// Reads a model reply: `None` when the model declined with `SKIP`,
/// otherwise the translation with its outer white space removed.
pub fn parse_reply(reply: &str) -> (r: Option<String>)
    ensures
        r.deep_view() == reply_meaning(reply@),
{
    let t = trim(reply);
    let marker = SKIP_MARKER.to_owned();
    proof {
        reveal_strlit("SKIP");
        assert(marker@ =~= skip_marker());
    }
    if t == marker {
        None
    } else {
        Some(t)
    }
}

} // verus!

verus! {

/// A reply is declined exactly when it is the skip marker up to outer white
/// space; otherwise the translation is the reply without outer white space,
/// which is never the skip marker and has no outer white space left.
pub proof fn lemma_reply_meaning(reply: Seq<char>)
    ensures
        reply_meaning(reply) is None <==> trimmed(reply) == seq!['S', 'K', 'I', 'P'],
        reply_meaning(reply) matches Some(t) ==> {
            &&& t == trimmed(reply)
            &&& t != seq!['S', 'K', 'I', 'P']
            &&& trimmed(t) == t
        },
{
    lemma_trimmed_idempotent(reply);
}

} // verus!
