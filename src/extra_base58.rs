use crate::error::Result;
use crate::extra_uuid::{new_v4, new_v7, Uuid};
use crate::support::{decode_outcome, from_vec_u8, lemma_decode_outcome_of_own_bytes};
use vstd::prelude::*;

verus! {

/// What `bs58::encode(b).into_string()` returns for the bytes `b`.
pub uninterp spec fn b58_encoded(b: Seq<u8>) -> Seq<char>;

/// What `bs58::decode(s).into_vec()` returns for the text `s`: the bytes, or `None` for an error.
pub uninterp spec fn b58_decoded(s: Seq<char>) -> Option<Seq<u8>>;

/// A character of the Bitcoin Base58 alphabet: digits and letters but `0`, `O`, `I` and `l`.
pub open spec fn is_b58_char(c: char) -> bool {
    ||| ('1' <= c && c <= '9')
    ||| ('A' <= c && c <= 'Z' && c != 'I' && c != 'O')
    ||| ('a' <= c && c <= 'z' && c != 'l')
}

/// Relies on `bs58::encode(..).into_string()` with the default (Bitcoin) alphabet: every
/// character is of that alphabet, and `bs58::decode` gives the bytes back from the text.
#[verifier::external_body]
fn b58_encode(bytes: &[u8; 16]) -> (r: String)
    ensures
        r@ == b58_encoded(bytes@),
        b58_decoded(r@) == Some(bytes@),
        forall|i: int| 0 <= i < r@.len() ==> is_b58_char(#[trigger] r@[i]),
{
    bs58::encode(bytes).into_string()
}

/// Relies on `bs58::decode(..).into_vec()` with the default (Bitcoin) alphabet; its error is
/// handed on as the message that the error displays.
#[verifier::external_body]
fn b58_decode(s: &str) -> (r: core::result::Result<Vec<u8>, String>)
    ensures
        match r {
            Ok(v) => b58_decoded(s@) == Some(v@),
            Err(_) => b58_decoded(s@) is None,
        },
{
    match bs58::decode(s).into_vec() {
        Ok(v) => Ok(v),
        Err(e) => Err(e.to_string()),
    }
}

/// The Base58 text of an identifier's 16 bytes.
pub fn encode_b58(uuid: &Uuid) -> (r: String)
    ensures
        r@ == b58_encoded(uuid@),
        b58_decoded(r@) == Some(uuid@),
        forall|i: int| 0 <= i < r@.len() ==> is_b58_char(#[trigger] r@[i]),
{
    b58_encode(uuid.as_bytes())
}

/// A new random (version 4) identifier as Base58 text.
pub fn new_v4_b58() -> (r: String)
    ensures
        exists|u: Uuid|
            u.version() == 4 && u.has_standard_variant() && #[trigger] b58_encoded(u@) == r@,
        forall|i: int| 0 <= i < r@.len() ==> is_b58_char(#[trigger] r@[i]),
{
    let uuid = new_v4();
    encode_b58(&uuid)
}

/// A new time-ordered (version 7) identifier as Base58 text.
pub fn new_v7_b58() -> (r: String)
    ensures
        exists|u: Uuid|
            u.version() == 7 && u.has_standard_variant() && #[trigger] b58_encoded(u@) == r@,
        forall|i: int| 0 <= i < r@.len() ==> is_b58_char(#[trigger] r@[i]),
{
    let uuid = new_v7();
    encode_b58(&uuid)
}

/// Reads an identifier from Base58 text.
pub fn from_b58(s: &str) -> (r: Result<Uuid>)
    ensures
        decode_outcome(b58_decoded(s@), "base58", r),
{
    let decoded_bytes = match b58_decode(s) {
        Ok(v) => v,
        Err(message) => return Err(crate::error::Error::custom(message)),
    };
    from_vec_u8(decoded_bytes, "base58")
}

/// Reading back the Base58 text of an identifier gives the identifier.
pub proof fn lemma_b58_round_trip(u: Uuid, text: Seq<char>, r: Result<Uuid>)
    requires
        b58_decoded(text) == Some(u@),
        decode_outcome(b58_decoded(text), "base58", r),
    ensures
        r == Ok::<Uuid, crate::error::Error>(u),
{
    lemma_decode_outcome_of_own_bytes(u, "base58", r);
}

} // verus!
