//! Matching a key that a caller supplied against the configured principals.
//!
//! Keys are secrets, so two keys are only ever compared by
//! [`keys_match`], which hands their bytes to a comparison whose running time
//! does not depend on where the two differ.

use vstd::prelude::*;
use vstd::utf8::encode_utf8_decode_utf8;

verus! {

/// Someone who is known to the service by a secret key.
pub trait Principal {
    /// The key of the principal.
    spec fn secret(&self) -> Seq<char>;

    /// Reads the key of the principal.
    fn key(&self) -> (key: &str)
        ensures
            key@ == self.secret(),
    ;
}

/// The keys of the principals, in the order of the principals.
pub open spec fn keys_of<P: Principal>(principals: Seq<P>) -> Seq<Seq<char>> {
    principals.map_values(|principal: P| principal.secret())
}

/// The first principal whose key is `candidate_key`, if there is one.
pub open spec fn matched<P: Principal>(candidate_key: Seq<char>, principals: Seq<P>) -> Option<P> {
    match keys_of(principals).index_of_first(candidate_key) {
        Some(i) => Some(principals[i]),
        None => None,
    }
}

/// Compares two byte strings with `subtle`'s `ConstantTimeEq::ct_eq` for
/// slices, and turns the `Choice` it gives into a `bool` with `subtle`'s
/// conversion.
///
/// Trusted: the result is `true` exactly when the two slices have the same
/// length and hold the same bytes. That the time taken is the same wherever
/// the slices differ is `subtle`'s promise and is not stated here.
#[verifier::external_body]
fn ct_eq(left: &[u8], right: &[u8]) -> (equal: bool)
    ensures
        equal == (left@ == right@),
{
    bool::from(subtle::ConstantTimeEq::ct_eq(left, right))
}

/// Whether two keys are the same text, decided in constant time for keys of
/// one length.
pub fn keys_match(candidate_key: &str, key: &str) -> (same: bool)
    ensures
        same == (candidate_key@ == key@),
{
    proof {
        // Text is read back from its bytes, so equal bytes mean equal text.
        encode_utf8_decode_utf8(candidate_key@);
        encode_utf8_decode_utf8(key@);
    }
    ct_eq(candidate_key.as_bytes(), key.as_bytes())
}

/// Finds the first principal whose key is `candidate_key`. With no
/// principals configured nobody is found.
pub fn match_key<'a, P: Principal>(candidate_key: &str, principals: &'a [P]) -> (found: Option<
    &'a P,
>)
    ensures
        found == match matched(candidate_key@, principals@) {
            Some(principal) => Some(&principal),
            None => None,
        },
        match found {
            Some(principal) => principal.secret() == candidate_key@,
            None => forall|i: int|
                0 <= i < principals@.len() ==> principals@[i].secret() != candidate_key@,
        },
        principals@.len() == 0 ==> found is None,
{
    let mut i: usize = 0;
    while i < principals.len()
        invariant
            i <= principals.len(),
            forall|j: int| 0 <= j < i ==> keys_of(principals@)[j] != candidate_key@,
        decreases principals.len() - i,
    {
        if keys_match(candidate_key, principals[i].key()) {
            proof {
                let keys = keys_of(principals@);
                keys.index_of_first_ensures(candidate_key@);
                assert(keys[i as int] == candidate_key@);
            }
            return Some(&principals[i]);
        }
        i = i + 1;
    }
    proof {
        let keys = keys_of(principals@);
        keys.index_of_first_ensures(candidate_key@);
        assert forall|i: int| 0 <= i < principals@.len() implies principals@[i].secret()
            != candidate_key@ by {
            assert(keys[i] != candidate_key@);
        }
    }
    None
}

} // verus!
