//! Suffix tests on strings.
//!
//! A string is a sequence of characters, and that is what a suffix is
//! stated over. The test itself runs over the UTF-8 bytes, which is sound
//! because no encoded character can begin in the middle of another.

use vstd::prelude::*;
use vstd::utf8::*;
use crate::encoding::{lemma_encode_concat, lemma_encoding_starts_a_character};

verus! {

/// `suffix` ends `s` character by character exactly when the bytes of
/// `suffix` end the bytes of `s`.
pub proof fn lemma_suffix_by_bytes(s: Seq<char>, suffix: Seq<char>)
    ensures
        suffix.is_suffix_of(s) <==> encode_utf8(suffix).is_suffix_of(encode_utf8(s)),
{
    let bytes = encode_utf8(s);
    let tail = encode_utf8(suffix);
    if suffix.is_suffix_of(s) {
        let head = s.subrange(0, s.len() - suffix.len());
        assert(s =~= head + suffix);
        lemma_encode_concat(head, suffix);
        assert(tail =~= bytes.subrange(bytes.len() - tail.len(), bytes.len() as int));
    }
    if tail.is_suffix_of(bytes) {
        if suffix.len() == 0 {
            assert(suffix =~= s.subrange(s.len() - suffix.len(), s.len() as int));
        } else {
            let at = bytes.len() - tail.len();
            lemma_encoding_starts_a_character(suffix);
            assert(bytes[at] == tail[0]);
            encode_utf8_valid_utf8(s);
            is_char_boundary_iff_not_is_continuation_byte(bytes, at);
            decode_utf8_split(bytes, at);
            encode_utf8_decode_utf8(s);
            encode_utf8_decode_utf8(suffix);
            let head = decode_utf8(bytes.subrange(0, at));
            assert(bytes.subrange(at, bytes.len() as int) =~= tail);
            assert(s =~= head + suffix);
            assert(suffix =~= s.subrange(s.len() - suffix.len(), s.len() as int));
        }
    }
}

/// Whether `s` ends with `suffix`.
pub fn ends_with(s: &str, suffix: &str) -> (found: bool)
    ensures
        found == suffix@.is_suffix_of(s@),
{
    let bytes = s.as_bytes();
    let tail = suffix.as_bytes();
    let n = bytes.len();
    let k = tail.len();
    proof {
        lemma_suffix_by_bytes(s@, suffix@);
    }
    if k > n {
        return false;
    }
    let from = n - k;
    let mut i: usize = 0;
    while i < k
        invariant
            i <= k,
            k == tail@.len(),
            n == bytes@.len(),
            from == n - k,
            suffix@.is_suffix_of(s@) <==> tail@.is_suffix_of(bytes@),
            forall|j: int| 0 <= j < i ==> bytes@[from + j] == tail@[j],
        decreases k - i,
    {
        if bytes[from + i] != tail[i] {
            assert(bytes@.subrange(n - k, n as int)[i as int] != tail@[i as int]);
            return false;
        }
        i += 1;
    }
    assert(tail@ =~= bytes@.subrange(n - k, n as int));
    true
}

} // verus!
