//! Text handling at the driver boundary: verified string comparison and the
//! decoding of driver-written byte logs into text.

use vstd::prelude::*;

verus! {

/// What a byte sequence decodes to as UTF-8 text, if it is valid UTF-8.
/// The decoding itself is done by the standard library; this name stands
/// for its result.
pub uninterp spec fn utf8_text(bytes: Seq<u8>) -> Option<Seq<char>>;

/// Relies on `String::from_utf8`: it returns the text the bytes spell in
/// UTF-8, and `Err` exactly when the bytes are not valid UTF-8.  The result
/// is a function of the bytes alone, and a nonempty byte sequence never
/// decodes to an empty string (every character takes at least one byte).
#[verifier::external_body]
pub fn decode_utf8(bytes: Vec<u8>) -> (r: Option<String>)
    ensures
        (r matches Some(s) ==> utf8_text(bytes@) == Some(s@)),
        (r is None ==> utf8_text(bytes@) is None),
        (bytes@.len() > 0 ==> (r matches Some(s) ==> s@.len() > 0)),
{
    match String::from_utf8(bytes) {
        Ok(s) => Some(s),
        Err(_) => None,
    }
}

/// Whether two string slices spell the same sequence of characters.
pub fn str_eq(a: &str, b: &str) -> (r: bool)
    ensures
        r == (a@ == b@),
{
    let alen = a.unicode_len();
    let blen = b.unicode_len();
    if alen != blen {
        return false;
    }
    let mut i: usize = 0;
    while i < alen
        invariant
            i <= alen,
            alen == a@.len(),
            blen == b@.len(),
            alen == blen,
            forall|j: int| 0 <= j < i ==> a@[j] == b@[j],
        decreases alen - i,
    {
        let ca = a.get_char(i);
        let cb = b.get_char(i);
        if ca != cb {
            assert(a@[i as int] != b@[i as int]);
            return false;
        }
        i = i + 1;
    }
    proof {
        assert(a@ =~= b@);
    }
    true
}

/// Whether the string contains an interior NUL character, which the
/// driver's C interface cannot carry.
pub fn contains_nul(s: &str) -> (r: bool)
    ensures
        r == s@.contains('\0'),
{
    let len = s.unicode_len();
    let mut i: usize = 0;
    while i < len
        invariant
            i <= len,
            len == s@.len(),
            forall|j: int| 0 <= j < i ==> s@[j] != '\0',
        decreases len - i,
    {
        if s.get_char(i) == '\0' {
            assert(s@.contains('\0')) by {
                assert(s@[i as int] == '\0');
            }
            return true;
        }
        i = i + 1;
    }
    assert(!s@.contains('\0')) by {
        if s@.contains('\0') {
            let k = choose|k: int| 0 <= k < s@.len() && s@[k] == '\0';
            assert(s@[k] != '\0');
        }
    }
    false
}

/// A verified copy of a byte vector.
pub fn clone_bytes(v: &Vec<u8>) -> (r: Vec<u8>)
    ensures
        r@ == v@,
{
    let mut r: Vec<u8> = Vec::new();
    let mut i: usize = 0;
    while i < v.len()
        invariant
            i <= v@.len(),
            r@ == v@.subrange(0, i as int),
        decreases v@.len() - i,
    {
        r.push(v[i]);
        assert(r@ =~= v@.subrange(0, i as int + 1));
        i = i + 1;
    }
    proof {
        assert(r@ =~= v@);
    }
    r
}

} // verus!
