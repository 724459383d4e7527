use vstd::prelude::*;
use vstd::string::*;

verus! {

/// Unicode `White_Space` property (PropList.txt): the characters that
/// `str::trim` removes from both ends of a string.
pub open spec fn is_white_space(c: char) -> bool {
    let u = c as u32;
    ||| 0x09 <= u <= 0x0D
    ||| u == 0x20
    ||| u == 0x85
    ||| u == 0xA0
    ||| u == 0x1680
    ||| 0x2000 <= u <= 0x200A
    ||| u == 0x2028
    ||| u == 0x2029
    ||| u == 0x202F
    ||| u == 0x205F
    ||| u == 0x3000
}

/// Decides the Unicode `White_Space` property of one character.
pub fn char_is_white_space(c: char) -> (r: bool)
    ensures
        r == is_white_space(c),
{
    let u = c as u32;
    (0x09 <= u && u <= 0x0D) || u == 0x20 || u == 0x85 || u == 0xA0 || u == 0x1680 || (0x2000
        <= u && u <= 0x200A) || u == 0x2028 || u == 0x2029 || u == 0x202F || u == 0x205F || u
        == 0x3000
}

/// The characters of `s`, in order.
pub fn chars_of(s: &str) -> (v: Vec<char>)
    ensures
        v@ == s@,
{
    let mut v: Vec<char> = Vec::new();
    for c in it: s.chars()
        invariant
            v@ == it.seq().take(it.index() as int),
    {
        v.push(c);
    }
    v
}

} // verus!

verus! {

/// `s` without its leading white space.
pub open spec fn trim_start(s: Seq<char>) -> Seq<char>
    decreases s.len(),
{
    if s.len() > 0 && is_white_space(s[0]) {
        trim_start(s.drop_first())
    } else {
        s
    }
}

/// `s` without its trailing white space.
pub open spec fn trim_end(s: Seq<char>) -> Seq<char>
    decreases s.len(),
{
    if s.len() > 0 && is_white_space(s.last()) {
        trim_end(s.drop_last())
    } else {
        s
    }
}

/// `s` without leading and trailing white space, as `str::trim` gives it.
pub open spec fn trimmed(s: Seq<char>) -> Seq<char> {
    trim_end(trim_start(s))
}

/// The character appended to a shortened text.
pub open spec fn ellipsis() -> char {
    '\u{2026}'
}

/// `s` cut to its first `max_chars` characters, with an ellipsis appended
/// when anything was cut.
pub open spec fn truncated(s: Seq<char>, max_chars: nat) -> Seq<char> {
    if s.len() <= max_chars {
        s
    } else {
        s.take(max_chars as int).push(ellipsis())
    }
}

/// Removes leading and trailing white space (Unicode `White_Space`).
pub fn trim(s: &str) -> (r: String)
    ensures
        r@ == trimmed(s@),
{
    let v = chars_of(s);
    let n = v.len();
    let mut i: usize = 0;
    assert(s@.subrange(0, n as int) =~= s@);
    while i < n && char_is_white_space(v[i])
        invariant
            i <= n,
            n == v@.len(),
            v@ == s@,
            trim_start(s@) == trim_start(s@.subrange(i as int, n as int)),
        decreases n - i,
    {
        assert(s@.subrange(i as int + 1, n as int) =~= s@.subrange(i as int, n as int).drop_first());
        i = i + 1;
    }
    assert(trim_start(s@) == s@.subrange(i as int, n as int));
    let mut j: usize = n;
    while j > i && char_is_white_space(v[j - 1])
        invariant
            i <= j <= n,
            n == v@.len(),
            v@ == s@,
            trim_end(s@.subrange(i as int, n as int)) == trim_end(s@.subrange(i as int, j as int)),
        decreases j,
    {
        assert(s@.subrange(i as int, j as int - 1) =~= s@.subrange(i as int, j as int).drop_last());
        j = j - 1;
    }
    assert(trim_end(s@.subrange(i as int, j as int)) == s@.subrange(i as int, j as int));
    s.substring_char(i, j).to_owned()
}

/// Shortens `s` to at most `max_chars` characters; when it is longer, the
/// first `max_chars` characters are kept and an ellipsis is appended.
pub fn truncate(s: &str, max_chars: usize) -> (r: String)
    ensures
        r@ == truncated(s@, max_chars as nat),
{
    let n = s.unicode_len();
    if n <= max_chars {
        s.to_owned()
    } else {
        let head = s.substring_char(0, max_chars).to_owned();
        let r = head.concat("\u{2026}");
        proof {
            reveal_strlit("\u{2026}");
        }
        assert(r@ =~= s@.take(max_chars as int).push(ellipsis()));
        r
    }
}

} // verus!

verus! {

/// Splits `s` at the end of its leading white space: `trim_start` keeps what
/// follows, everything before is white space, and the first kept character
/// is not.
proof fn lemma_trim_start_split(s: Seq<char>) -> (k: int)
    ensures
        0 <= k <= s.len(),
        trim_start(s) == s.subrange(k, s.len() as int),
        forall|i: int| 0 <= i < k ==> is_white_space(#[trigger] s[i]),
        k < s.len() ==> !is_white_space(s[k]),
    decreases s.len(),
{
    if s.len() > 0 && is_white_space(s[0]) {
        let rest = s.drop_first();
        let k1 = lemma_trim_start_split(rest);
        assert(rest.subrange(k1, rest.len() as int) =~= s.subrange(k1 + 1, s.len() as int));
        assert forall|i: int| 0 <= i < k1 + 1 implies is_white_space(#[trigger] s[i]) by {
            if i > 0 {
                assert(s[i] == rest[i - 1]);
            }
        }
        if k1 + 1 < s.len() {
            assert(s[k1 + 1] == rest[k1]);
        }
        k1 + 1
    } else {
        assert(s.subrange(0, s.len() as int) =~= s);
        0
    }
}

/// Splits `s` at the start of its trailing white space: `trim_end` keeps
/// what comes before, everything after is white space, and the last kept
/// character is not.
proof fn lemma_trim_end_split(s: Seq<char>) -> (m: int)
    ensures
        0 <= m <= s.len(),
        trim_end(s) == s.subrange(0, m),
        forall|i: int| m <= i < s.len() ==> is_white_space(#[trigger] s[i]),
        m > 0 ==> !is_white_space(s[m - 1]),
    decreases s.len(),
{
    if s.len() > 0 && is_white_space(s.last()) {
        let rest = s.drop_last();
        let m1 = lemma_trim_end_split(rest);
        assert(rest.subrange(0, m1) =~= s.subrange(0, m1));
        assert forall|i: int| m1 <= i < s.len() implies is_white_space(#[trigger] s[i]) by {
            if i < s.len() - 1 {
                assert(s[i] == rest[i]);
            }
        }
        if m1 > 0 {
            assert(s[m1 - 1] == rest[m1 - 1]);
        }
        m1
    } else {
        assert(s.subrange(0, s.len() as int) =~= s);
        s.len() as int
    }
}

/// `trimmed(s)` is the part of `s` between two bounds: every character
/// before the first bound and from the second bound on is white space, and
/// the part kept neither starts nor ends with white space.
pub proof fn lemma_trimmed_is_inner_part(s: Seq<char>) -> (bounds: (int, int))
    ensures
        0 <= bounds.0 <= bounds.1 <= s.len(),
        trimmed(s) == s.subrange(bounds.0, bounds.1),
        forall|i: int| 0 <= i < bounds.0 ==> is_white_space(#[trigger] s[i]),
        forall|i: int| bounds.1 <= i < s.len() ==> is_white_space(#[trigger] s[i]),
        bounds.0 < bounds.1 ==> !is_white_space(s[bounds.0]) && !is_white_space(s[bounds.1 - 1]),
{
    let k = lemma_trim_start_split(s);
    let t = trim_start(s);
    let m = lemma_trim_end_split(t);
    assert(t.subrange(0, m) =~= s.subrange(k, k + m));
    assert forall|i: int| k + m <= i < s.len() implies is_white_space(#[trigger] s[i]) by {
        assert(s[i] == t[i - k]);
    }
    if m > 0 {
        assert(s[k] == t[0]);
        assert(s[k + m - 1] == t[m - 1]);
    }
    (k, k + m)
}

/// A trimmed text neither starts nor ends with white space.
pub proof fn lemma_trimmed_has_no_outer_white_space(s: Seq<char>)
    ensures
        trimmed(s).len() > 0 ==> !is_white_space(trimmed(s)[0]) && !is_white_space(
            trimmed(s).last(),
        ),
{
    let b = lemma_trimmed_is_inner_part(s);
    if trimmed(s).len() > 0 {
        assert(trimmed(s)[0] == s[b.0]);
        assert(trimmed(s).last() == s[b.1 - 1]);
    }
}

/// Trimming a trimmed text changes nothing.
pub proof fn lemma_trimmed_idempotent(s: Seq<char>)
    ensures
        trimmed(trimmed(s)) == trimmed(s),
{
    let t = trimmed(s);
    lemma_trimmed_has_no_outer_white_space(s);
    assert(trim_start(t) == t);
    assert(trim_end(t) == t);
}

/// A shortened text: unchanged when it already fits, otherwise its first
/// `max_chars` characters followed by the ellipsis; never longer than
/// `max_chars + 1` characters.
pub proof fn lemma_truncated_shape(s: Seq<char>, max_chars: nat)
    ensures
        truncated(s, max_chars).len() <= max_chars + 1,
        s.len() <= max_chars ==> truncated(s, max_chars) == s,
        s.len() > max_chars ==> {
            &&& truncated(s, max_chars).len() == max_chars + 1
            &&& truncated(s, max_chars).take(max_chars as int) == s.take(max_chars as int)
            &&& truncated(s, max_chars).last() == '\u{2026}'
        },
{
    if s.len() > max_chars {
        assert(truncated(s, max_chars).take(max_chars as int) =~= s.take(max_chars as int));
    }
}

} // verus!
