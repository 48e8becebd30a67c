//! The order of texts: by the bytes of their UTF-8 encoding, as `str` and
//! `String` order themselves.

use vstd::prelude::*;
use vstd::slice::*;
use vstd::utf8::encode_utf8;

verus! {

/// Where one value stands with respect to another in an order.
#[derive(Clone, Copy, Debug, PartialEq, Eq, Structural)]
pub enum Precedence {
    Before,
    Same,
    After,
}

/// Lexicographic comparison of two byte sequences: the first position at
/// which they differ decides, and a proper prefix comes first.
pub open spec fn bytes_precedence(a: Seq<u8>, b: Seq<u8>) -> Precedence
    decreases a.len(),
{
    if a.len() == 0 && b.len() == 0 {
        Precedence::Same
    } else if a.len() == 0 {
        Precedence::Before
    } else if b.len() == 0 {
        Precedence::After
    } else if a[0] < b[0] {
        Precedence::Before
    } else if a[0] > b[0] {
        Precedence::After
    } else {
        bytes_precedence(a.drop_first(), b.drop_first())
    }
}

/// Comparison of two texts by their UTF-8 bytes.
pub open spec fn text_precedence(a: Seq<char>, b: Seq<char>) -> Precedence {
    bytes_precedence(encode_utf8(a), encode_utf8(b))
}

/// Compares two byte slices lexicographically.
pub fn compare_bytes(a: &[u8], b: &[u8]) -> (precedence: Precedence)
    ensures
        precedence == bytes_precedence(a@, b@),
{
    let mut i: usize = 0;
    assert(a@.skip(0) =~= a@ && b@.skip(0) =~= b@);
    while i < a.len() && i < b.len()
        invariant
            i <= a@.len(),
            i <= b@.len(),
            bytes_precedence(a@, b@) == bytes_precedence(a@.skip(i as int), b@.skip(i as int)),
        decreases a@.len() - i,
    {
        let x = a[i];
        let y = b[i];
        if x < y {
            return Precedence::Before;
        }
        if x > y {
            return Precedence::After;
        }
        assert(a@.skip(i as int).drop_first() =~= a@.skip(i + 1));
        assert(b@.skip(i as int).drop_first() =~= b@.skip(i + 1));
        i += 1;
    }
    if i < b.len() {
        Precedence::Before
    } else if i < a.len() {
        Precedence::After
    } else {
        Precedence::Same
    }
}

/// Compares two texts by their UTF-8 bytes.
pub fn compare_text(a: &str, b: &str) -> (precedence: Precedence)
    ensures
        precedence == text_precedence(a@, b@),
{
    compare_bytes(a.as_bytes(), b.as_bytes())
}

} // verus!
