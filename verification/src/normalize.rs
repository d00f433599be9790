//! Excerpts are escaped first and cut second: the budget counts the scalar
//! values of the escaped text, so a normalized excerpt never holds more than
//! `BUDGET` of them before the ellipsis, whatever escaping added.

use vstd::prelude::*;
use vstd::utf8::{
    decode_utf8,
    encode_utf8,
    encode_utf8_decode_utf8,
    encode_utf8_first_scalar,
    encode_utf8_valid_utf8,
    is_char_boundary,
    pop_first_scalar,
    valid_utf8,
};
use crate::dialect::{
    is_control,
    lemma_escape_never_shrinks,
    lemma_escape_of_clean,
    spec_escape,
    Dialect,
};
use crate::text::{chars_of, push_range};

verus! {

/// How many scalar values of an escaped excerpt are shown.
pub const BUDGET: usize = 140;

/// What follows an excerpt that was cut.
pub const ELLIPSIS: char = '\u{2026}';

/// `s` if it fits the budget; else its first `BUDGET` scalar values and the
/// ellipsis.
pub open spec fn spec_truncate(s: Seq<char>) -> Seq<char> {
    if s.len() > BUDGET {
        s.take(BUDGET as int).push(ELLIPSIS)
    } else {
        s
    }
}

/// `raw` escaped for the dialect, then cut to the budget.
pub open spec fn spec_normalize(d: Dialect, raw: Seq<char>) -> Seq<char> {
    spec_truncate(spec_escape(d, raw))
}

/// Cuts `s` to the budget, counting scalar values.
pub fn truncate(s: &str) -> (out: String)
    ensures
        out@ == spec_truncate(s@),
        out@.len() <= BUDGET + 1,
{
    let chars = chars_of(s);
    if chars.len() > BUDGET {
        let mut out = String::new();
        push_range(&mut out, &chars, 0, BUDGET);
        out.push(ELLIPSIS);
        out
    } else {
        String::from_str(s)
    }
}

/// Escapes `raw` for the dialect and cuts the result to the budget.
pub fn normalize(raw: &str, d: Dialect) -> (out: String)
    ensures
        out@ == spec_normalize(d, raw@),
        out@.len() <= BUDGET + 1,
{
    let escaped = d.escape(raw);
    truncate(escaped.as_str())
}

/// An excerpt of more than `BUDGET` scalar values comes out as exactly the
/// first `BUDGET` scalar values of its escaped form, followed by the ellipsis.
pub proof fn lemma_normalize_cuts_long(d: Dialect, raw: Seq<char>)
    requires
        raw.len() > BUDGET,
    ensures
        spec_normalize(d, raw).len() == BUDGET + 1,
        spec_normalize(d, raw).last() == ELLIPSIS,
        spec_normalize(d, raw).drop_last() == spec_escape(d, raw).take(BUDGET as int),
{
    lemma_escape_never_shrinks(d, false, raw);
}

/// An excerpt of at most `BUDGET` scalar values whose escaped form fits the
/// budget too comes out as that escaped form, unchanged.
pub proof fn lemma_normalize_keeps_short(d: Dialect, raw: Seq<char>)
    requires
        raw.len() <= BUDGET,
        spec_escape(d, raw).len() <= BUDGET,
    ensures
        spec_normalize(d, raw) == spec_escape(d, raw),
{
}

/// Normalizing twice is normalizing once, for text shorter than the budget
/// that holds no control character of the dialect.
pub proof fn lemma_normalize_idempotent(d: Dialect, x: Seq<char>)
    requires
        x.len() < BUDGET,
        forall|i: int| 0 <= i < x.len() ==> !is_control(d, #[trigger] x[i]),
    ensures
        spec_normalize(d, x) == x,
        spec_normalize(d, spec_normalize(d, x)) == spec_normalize(d, x),
{
    lemma_escape_of_clean(d, x);
}

/// The UTF-8 bytes of two texts joined are the bytes of the first followed
/// by the bytes of the second.
proof fn lemma_encode_concat(a: Seq<char>, b: Seq<char>)
    ensures
        encode_utf8(a + b) == encode_utf8(a) + encode_utf8(b),
    decreases a.len(),
{
    if a.len() > 0 {
        lemma_encode_concat(a.drop_first(), b);
        assert((a + b).drop_first() == a.drop_first() + b);
    }
}

/// The first `n` scalar values of `s` occupy a prefix of the UTF-8 bytes of
/// `s`, and that prefix ends where a character ends.
pub proof fn lemma_take_ends_on_boundary(s: Seq<char>, n: int)
    requires
        0 <= n <= s.len(),
    ensures
        encode_utf8(s.take(n)).len() <= encode_utf8(s).len(),
        encode_utf8(s).subrange(0, encode_utf8(s.take(n)).len() as int) == encode_utf8(s.take(n)),
        is_char_boundary(encode_utf8(s), encode_utf8(s.take(n)).len() as int),
    decreases n,
{
    encode_utf8_valid_utf8(s);
    if n > 0 {
        let rest = s.drop_first();
        lemma_take_ends_on_boundary(rest, n - 1);
        encode_utf8_first_scalar(s);
        assert(s.take(n).drop_first() == rest.take(n - 1));
        assert(pop_first_scalar(encode_utf8(s)) == encode_utf8(rest));
    }
}

/// Cutting never splits a character. The bytes of cut text are valid UTF-8
/// and decode to the cut text itself; where text was cut, the bytes kept are
/// a prefix of the bytes of the uncut text that ends where a character ends,
/// and the bytes of the ellipsis follow them.
pub proof fn lemma_truncate_keeps_scalars_whole(s: Seq<char>)
    ensures
        valid_utf8(encode_utf8(spec_truncate(s))),
        decode_utf8(encode_utf8(spec_truncate(s))) == spec_truncate(s),
        s.len() > BUDGET ==> {
            let kept = encode_utf8(s.take(BUDGET as int));
            &&& kept.len() <= encode_utf8(s).len()
            &&& encode_utf8(s).subrange(0, kept.len() as int) == kept
            &&& is_char_boundary(encode_utf8(s), kept.len() as int)
            &&& encode_utf8(spec_truncate(s)) == kept + encode_utf8(seq![ELLIPSIS])
        },
{
    encode_utf8_valid_utf8(spec_truncate(s));
    encode_utf8_decode_utf8(spec_truncate(s));
    if s.len() > BUDGET {
        lemma_take_ends_on_boundary(s, BUDGET as int);
        lemma_encode_concat(s.take(BUDGET as int), seq![ELLIPSIS]);
        assert(s.take(BUDGET as int).push(ELLIPSIS) == s.take(BUDGET as int) + seq![ELLIPSIS]);
    }
}

} // verus!
