//! The few calls into outside crates that the library's logic makes.
use crate::types::Principal;
use vstd::prelude::*;

verus! {

/// The bytes that the textual form `text` of a principal stands for, or
/// `None` where `text` is no valid textual form (bad base32, a checksum that
/// does not match, non-canonical grouping, too short or too long).
pub uninterp spec fn principal_text_decode(text: Seq<char>) -> Option<Seq<u8>>;

/// The bytes of the JSON string literal that stands for `s`.
pub uninterp spec fn json_string_bytes(s: Seq<char>) -> Seq<u8>;

/// Relies on `Principal::from_text` (candid's re-export of `ic_principal`):
/// it parses the textual form of a principal into its bytes.
#[verifier::external_body]
pub(crate) fn principal_from_text(text: &str) -> (r: Option<Principal>)
    ensures
        r is Some <==> principal_text_decode(text@) is Some,
        r matches Some(p) ==> p@ == principal_text_decode(text@)->0,
{
    candid::Principal::from_text(text).ok().map(|p| Principal { bytes: p.as_slice().to_vec() })
}

/// Relies on `serde_json::to_vec` applied to a string: it writes the string
/// as a JSON string literal, and for a string it does not fail.
#[verifier::external_body]
pub(crate) fn string_to_json(s: &String) -> (r: Vec<u8>)
    ensures
        r@ == json_string_bytes(s@),
{
    serde_json::to_vec(s).unwrap()
}

} // verus!
