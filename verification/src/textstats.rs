//! Counting statistics over extracted text: the byte length of the text and
//! the form-feed page-count heuristic.
//!
//! When a backend has no page API, the page count is approximated by counting
//! form-feed control characters in the decoded text, and reported as unknown
//! when that count is zero. The executable counter scans the UTF-8 bytes once;
//! the proofs below tie that scan to the character-level statement.

use vstd::prelude::*;
use vstd::string::StrSliceExecFns;
use vstd::string::StringSliceAdditionalSpecFns;
use vstd::utf8::encode_scalar;
use vstd::utf8::encode_utf8;
use vstd::utf8::char_is_scalar;
use vstd::utf8::char_u32_cast;
use vstd::utf8::has_width_1_encoding;

verus! {

/// The form-feed control character used by the page-count heuristic.
pub const FORM_FEED: char = '\x0C';

/// The UTF-8 encoding of the form-feed character, a single byte.
pub const FORM_FEED_BYTE: u8 = 0x0C;

/// How many times the byte `t` occurs in `s`.
pub open spec fn count_byte(s: Seq<u8>, t: u8) -> int
    decreases s.len(),
{
    if s.len() == 0 {
        0
    } else {
        (if s[0] == t {
            1int
        } else {
            0int
        }) + count_byte(s.drop_first(), t)
    }
}

/// How many times the character `t` occurs in `s`.
pub open spec fn count_char(s: Seq<char>, t: char) -> int
    decreases s.len(),
{
    if s.len() == 0 {
        0
    } else {
        (if s[0] == t {
            1int
        } else {
            0int
        }) + count_char(s.drop_first(), t)
    }
}

proof fn lemma_count_byte_concat(a: Seq<u8>, b: Seq<u8>, t: u8)
    ensures
        count_byte(a + b, t) == count_byte(a, t) + count_byte(b, t),
    decreases a.len(),
{
    if a.len() == 0 {
        assert(a + b =~= b);
    } else {
        assert((a + b).drop_first() =~= a.drop_first() + b);
        lemma_count_byte_concat(a.drop_first(), b, t);
    }
}

proof fn lemma_count_byte_single(x: u8, t: u8)
    ensures
        count_byte(seq![x], t) == if x == t {
            1int
        } else {
            0int
        },
{
    assert(seq![x].drop_first() =~= Seq::<u8>::empty());
    assert(count_byte(Seq::<u8>::empty(), t) == 0);
}

proof fn lemma_count_byte_push(s: Seq<u8>, x: u8, t: u8)
    ensures
        count_byte(s.push(x), t) == count_byte(s, t) + if x == t {
            1int
        } else {
            0int
        },
{
    assert(s.push(x) =~= s + seq![x]);
    lemma_count_byte_concat(s, seq![x], t);
    lemma_count_byte_single(x, t);
}

proof fn lemma_count_byte_none(s: Seq<u8>, t: u8)
    requires
        forall|i: int| 0 <= i < s.len() ==> s[i] != t,
    ensures
        count_byte(s, t) == 0,
    decreases s.len(),
{
    if s.len() > 0 {
        lemma_count_byte_none(s.drop_first(), t);
    }
}

proof fn lemma_count_char_le_len(s: Seq<char>, t: char)
    ensures
        0 <= count_char(s, t) <= s.len(),
    decreases s.len(),
{
    if s.len() > 0 {
        lemma_count_char_le_len(s.drop_first(), t);
    }
}

/// The UTF-8 encoding of one scalar contains the form-feed byte exactly when
/// the character is the form feed itself: multi-byte encodings consist only
/// of bytes at or above `0x80`.
proof fn lemma_count_ff_scalar(c: char)
    ensures
        count_byte(encode_scalar(c as u32), FORM_FEED_BYTE) == if c == FORM_FEED {
            1int
        } else {
            0int
        },
{
    char_is_scalar(c);
    let u = c as u32;
    char_u32_cast(c, u);
    char_u32_cast(FORM_FEED, FORM_FEED as u32);
    if has_width_1_encoding(u) {
        assert(u <= 0x7F ==> (((u & 0x7F) as u8) == u as u8 && ((((u & 0x7F) as u8) == 0x0C)
            <==> u == 0x0C))) by (bit_vector);
        let b = (u & 0x7F) as u8;
        assert(encode_scalar(u) =~= seq![b]);
        lemma_count_byte_single(b, FORM_FEED_BYTE);
        if u == FORM_FEED as u32 {
            assert(c == FORM_FEED);
        } else {
            assert(c != FORM_FEED);
        }
    } else {
        // Every byte of a 2-, 3-, or 4-byte encoding is at least 0x80, so no
        // such encoding contains the form-feed byte, and the character is not
        // the form feed either.
        assert(u >= 0x80);
        assert(c != FORM_FEED);
        assert((0xC0u8 | ((u >> 6) & 0x1F) as u8) != 0x0C) by (bit_vector);
        assert((0xE0u8 | ((u >> 12) & 0x0F) as u8) != 0x0C) by (bit_vector);
        assert((0xF0u8 | ((u >> 18) & 0x7) as u8) != 0x0C) by (bit_vector);
        assert((0x80u8 | (u & 0x3F) as u8) != 0x0C) by (bit_vector);
        assert((0x80u8 | ((u >> 6) & 0x3F) as u8) != 0x0C) by (bit_vector);
        assert((0x80u8 | ((u >> 12) & 0x3F) as u8) != 0x0C) by (bit_vector);
        let enc = encode_scalar(u);
        assert(forall|i: int| 0 <= i < enc.len() ==> enc[i] != FORM_FEED_BYTE);
        lemma_count_byte_none(enc, FORM_FEED_BYTE);
    }
}

/// Counting form-feed bytes in the UTF-8 encoding of a text counts exactly
/// its form-feed characters.
pub proof fn lemma_count_ff_encode(s: Seq<char>)
    ensures
        count_byte(encode_utf8(s), FORM_FEED_BYTE) == count_char(s, FORM_FEED),
    decreases s.len(),
{
    if s.len() > 0 {
        lemma_count_byte_concat(
            encode_scalar(s[0] as u32),
            encode_utf8(s.drop_first()),
            FORM_FEED_BYTE,
        );
        lemma_count_ff_scalar(s[0]);
        lemma_count_ff_encode(s.drop_first());
    }
}

/// A UTF-8 encoding is at least as long as the character sequence it encodes.
pub proof fn lemma_encode_utf8_len(s: Seq<char>)
    ensures
        encode_utf8(s).len() >= s.len(),
    decreases s.len(),
{
    if s.len() > 0 {
        char_is_scalar(s[0]);
        assert(encode_scalar(s[0] as u32).len() >= 1);
        lemma_encode_utf8_len(s.drop_first());
    }
}

/// How many times `t` occurs in `v`.
fn count_byte_occurrences(v: &Vec<u8>, t: u8) -> (n: usize)
    ensures
        n == count_byte(v@, t),
{
    let mut i: usize = 0;
    let mut n: usize = 0;
    while i < v.len()
        invariant
            i <= v@.len(),
            n <= i,
            n == count_byte(v@.take(i as int), t),
        decreases v@.len() - i,
    {
        proof {
            assert(v@.take(i + 1) =~= v@.take(i as int).push(v@[i as int]));
            lemma_count_byte_push(v@.take(i as int), v@[i as int], t);
        }
        if v[i] == t {
            n = n + 1;
        }
        i = i + 1;
    }
    proof {
        assert(v@.take(v@.len() as int) =~= v@);
    }
    n
}

/// The page count that the form-feed heuristic assigns to a text: the number
/// of form feeds when positive, unknown otherwise.
pub open spec fn spec_page_count_heuristic(text: Seq<char>) -> Option<int> {
    let k = count_char(text, FORM_FEED);
    if k > 0 {
        Some(k)
    } else {
        None
    }
}

/// Applies the form-feed page-count heuristic to a decoded text.
pub fn page_count_heuristic(text: &str) -> (p: Option<usize>)
    ensures
        p is Some <==> spec_page_count_heuristic(text@) is Some,
        p matches Some(k) ==> spec_page_count_heuristic(text@) == Some(k as int),
{
    let bytes = text.as_bytes_vec();
    proof {
        lemma_count_ff_encode(text@);
        lemma_count_char_le_len(text@, FORM_FEED);
    }
    let n = count_byte_occurrences(&bytes, FORM_FEED_BYTE);
    if n > 0 {
        Some(n)
    } else {
        None
    }
}

/// The concatenation of a sequence of per-page texts, in order.
pub open spec fn concat_views(texts: Seq<String>) -> Seq<char>
    decreases texts.len(),
{
    if texts.len() == 0 {
        Seq::empty()
    } else {
        concat_views(texts.drop_last()) + texts.last()@
    }
}

/// The byte length of a text under UTF-8, as reported in a result's
/// extracted-byte count.
pub fn utf8_byte_len(text: &str) -> (n: usize)
    ensures
        n == encode_utf8(text@).len() as usize,
        encode_utf8(text@).len() <= usize::MAX ==> n == encode_utf8(text@).len(),
{
    text.len()
}

} // verus!
