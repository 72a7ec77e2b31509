//! The note as bytes: the file holds the UTF-8 encoding of the text and
//! nothing else.

use vstd::prelude::*;
use vstd::string::*;
use vstd::utf8::*;

verus! {

/// The stored bytes are not the encoding of any text.
#[derive(Debug, Clone, Copy, PartialEq, Eq)]
pub struct DecodeError {
    /// How many leading bytes are sound: the length of the longest prefix
    /// that is valid UTF-8.
    pub valid_up_to: usize,
}

/// The first `n` bytes are valid UTF-8 and no longer prefix is.
pub open spec fn longest_valid_prefix(bytes: Seq<u8>, n: int) -> bool {
    &&& 0 <= n <= bytes.len()
    &&& valid_utf8(bytes.take(n))
    &&& forall|m: int| n < m <= bytes.len() ==> !valid_utf8(#[trigger] bytes.take(m))
}

/// The length of the longest prefix of `bytes` that is valid UTF-8.
pub open spec fn valid_prefix_len(bytes: Seq<u8>) -> int {
    choose|n: int| longest_valid_prefix(bytes, n)
}

/// What `bytes` store: the text they encode, or the reason they encode none.
pub open spec fn decoded(bytes: Seq<u8>) -> Result<Seq<char>, DecodeError> {
    if valid_utf8(bytes) {
        Ok(decode_utf8(bytes))
    } else {
        Err(DecodeError { valid_up_to: valid_prefix_len(bytes) as usize })
    }
}

/// At most one length is that of the longest valid prefix, and it is the
/// full length exactly when all the bytes are valid.
pub proof fn lemma_longest_valid_prefix_is_unique(bytes: Seq<u8>, n: int, m: int)
    requires
        longest_valid_prefix(bytes, n),
        longest_valid_prefix(bytes, m),
    ensures
        n == m,
        valid_utf8(bytes) <==> n == bytes.len(),
{
    assert(bytes.take(bytes.len() as int) =~= bytes);
}

/// Among the first `limit` bytes some prefix is the longest valid one.
proof fn lemma_some_prefix_is_longest(bytes: Seq<u8>, limit: int)
    requires
        0 <= limit <= bytes.len(),
    ensures
        exists|n: int| #[trigger] longest_valid_prefix(bytes.take(limit), n),
    decreases limit,
{
    let head = bytes.take(limit);
    if valid_utf8(head) {
        assert(head.take(limit) =~= head);
        assert(longest_valid_prefix(head, limit));
    } else {
        assert(limit > 0) by {
            if limit == 0 {
                assert(head.len() == 0);
            }
        }
        lemma_some_prefix_is_longest(bytes, limit - 1);
        let shorter = bytes.take(limit - 1);
        let n = choose|n: int| #[trigger] longest_valid_prefix(shorter, n);
        assert(shorter.take(n) =~= head.take(n));
        assert forall|m: int| n < m <= head.len() implies !valid_utf8(#[trigger] head.take(m)) by {
            if m < limit {
                assert(shorter.take(m) =~= head.take(m));
            } else {
                assert(head.take(m) =~= head);
            }
        }
        assert(longest_valid_prefix(head, n));
    }
}

/// Every byte string has a longest valid prefix, and [`valid_prefix_len`]
/// is its length.
pub proof fn lemma_valid_prefix_len_is_longest(bytes: Seq<u8>)
    ensures
        longest_valid_prefix(bytes, valid_prefix_len(bytes)),
{
    lemma_some_prefix_is_longest(bytes, bytes.len() as int);
    assert(bytes.take(bytes.len() as int) =~= bytes);
}

/// Reads bytes as text through `core::str::from_utf8`.
///
/// Trusted: the call succeeds exactly on valid UTF-8 and then returns the
/// very bytes it was given, seen as a string; when it fails, the index that
/// the error's `valid_up_to` reports is the length of the longest prefix
/// that would have been accepted.
#[verifier::external_body]
pub(crate) fn checked_utf8(data: &[u8]) -> (r: Result<&str, usize>)
    ensures
        r is Ok <==> valid_utf8(data@),
        r matches Ok(text) ==> text.spec_bytes() == data@,
        r matches Err(n) ==> longest_valid_prefix(data@, n as int),
{
    match core::str::from_utf8(data) {
        Ok(text) => Ok(text),
        Err(e) => Err(e.valid_up_to()),
    }
}

} // verus!
