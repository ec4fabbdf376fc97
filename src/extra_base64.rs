use crate::error::{Error, Result};
use crate::extra_uuid::{new_v4, new_v7, Uuid};
use crate::support::{decode_outcome, from_vec_u8, lemma_decode_outcome_of_own_bytes};
use base64::engine::general_purpose;
use base64::Engine;
use vstd::prelude::*;

verus! {

#[verifier::external_type_specification]
#[verifier::external_body]
pub struct ExBase64DecodeError(base64::DecodeError);

/// What `general_purpose::STANDARD.encode(b)` returns for the bytes `b`.
pub uninterp spec fn b64_encoded(b: Seq<u8>) -> Seq<char>;

/// What `general_purpose::STANDARD.decode(s)` returns for the text `s`, `None` for an error.
pub uninterp spec fn b64_decoded(s: Seq<char>) -> Option<Seq<u8>>;

/// What `general_purpose::URL_SAFE.encode(b)` returns for the bytes `b`.
pub uninterp spec fn b64url_encoded(b: Seq<u8>) -> Seq<char>;

/// What `general_purpose::URL_SAFE.decode(s)` returns for the text `s`, `None` for an error.
pub uninterp spec fn b64url_decoded(s: Seq<char>) -> Option<Seq<u8>>;

/// What `general_purpose::URL_SAFE_NO_PAD.encode(b)` returns for the bytes `b`.
pub uninterp spec fn b64url_nopad_encoded(b: Seq<u8>) -> Seq<char>;

/// What `general_purpose::URL_SAFE_NO_PAD.decode(s)` returns for the text `s`, `None` for an
/// error.
pub uninterp spec fn b64url_nopad_decoded(s: Seq<char>) -> Option<Seq<u8>>;

/// A letter or a digit, the 62 symbols that both Base64 alphabets share.
pub open spec fn is_alnum(c: char) -> bool {
    ('A' <= c && c <= 'Z') || ('a' <= c && c <= 'z') || ('0' <= c && c <= '9')
}

/// A symbol of the standard Base64 alphabet.
pub open spec fn is_b64_char(c: char) -> bool {
    is_alnum(c) || c == '+' || c == '/'
}

/// A symbol of the URL-safe Base64 alphabet.
pub open spec fn is_b64url_char(c: char) -> bool {
    is_alnum(c) || c == '-' || c == '_'
}

/// Padded Base64 of 16 bytes: 22 symbols that satisfy `sym`, then `==`.
pub open spec fn is_padded_16(t: Seq<char>, sym: spec_fn(char) -> bool) -> bool {
    &&& t.len() == 24
    &&& forall|i: int| 0 <= i < 22 ==> sym(#[trigger] t[i])
    &&& t[22] == '=' && t[23] == '='
}

/// Unpadded Base64 of 16 bytes: 22 symbols that satisfy `sym`.
pub open spec fn is_unpadded_16(t: Seq<char>, sym: spec_fn(char) -> bool) -> bool {
    &&& t.len() == 22
    &&& forall|i: int| 0 <= i < 22 ==> sym(#[trigger] t[i])
}

/// Relies on `Engine::encode` of `general_purpose::STANDARD`: 16 bytes take five full groups of
/// four symbols and one group of two symbols padded with `==`, and `decode` of the same engine
/// gives the bytes back.
#[verifier::external_body]
fn b64_encode(bytes: &[u8; 16]) -> (r: String)
    ensures
        r@ == b64_encoded(bytes@),
        b64_decoded(r@) == Some(bytes@),
        is_padded_16(r@, |c: char| is_b64_char(c)),
{
    general_purpose::STANDARD.encode(bytes)
}

/// Relies on `Engine::decode` of `general_purpose::STANDARD`.
#[verifier::external_body]
fn b64_decode(s: &str) -> (r: core::result::Result<Vec<u8>, base64::DecodeError>)
    ensures
        match r {
            Ok(v) => b64_decoded(s@) == Some(v@),
            Err(_) => b64_decoded(s@) is None,
        },
{
    general_purpose::STANDARD.decode(s)
}

/// Relies on `Engine::encode` of `general_purpose::URL_SAFE`: as the standard engine, with
/// `-` and `_` in place of `+` and `/`.
#[verifier::external_body]
fn b64url_encode(bytes: &[u8; 16]) -> (r: String)
    ensures
        r@ == b64url_encoded(bytes@),
        b64url_decoded(r@) == Some(bytes@),
        is_padded_16(r@, |c: char| is_b64url_char(c)),
{
    general_purpose::URL_SAFE.encode(bytes)
}

/// Relies on `Engine::decode` of `general_purpose::URL_SAFE`.
#[verifier::external_body]
fn b64url_decode(s: &str) -> (r: core::result::Result<Vec<u8>, base64::DecodeError>)
    ensures
        match r {
            Ok(v) => b64url_decoded(s@) == Some(v@),
            Err(_) => b64url_decoded(s@) is None,
        },
{
    general_purpose::URL_SAFE.decode(s)
}

/// Relies on `Engine::encode` of `general_purpose::URL_SAFE_NO_PAD`: the URL-safe symbols
/// without the padding.
#[verifier::external_body]
fn b64url_nopad_encode(bytes: &[u8; 16]) -> (r: String)
    ensures
        r@ == b64url_nopad_encoded(bytes@),
        b64url_nopad_decoded(r@) == Some(bytes@),
        is_unpadded_16(r@, |c: char| is_b64url_char(c)),
{
    general_purpose::URL_SAFE_NO_PAD.encode(bytes)
}

/// Relies on `Engine::decode` of `general_purpose::URL_SAFE_NO_PAD`.
#[verifier::external_body]
fn b64url_nopad_decode(s: &str) -> (r: core::result::Result<Vec<u8>, base64::DecodeError>)
    ensures
        match r {
            Ok(v) => b64url_nopad_decoded(s@) == Some(v@),
            Err(_) => b64url_nopad_decoded(s@) is None,
        },
{
    general_purpose::URL_SAFE_NO_PAD.decode(s)
}

/// The standard Base64 text of an identifier's 16 bytes.
pub fn encode_b64(uuid: &Uuid) -> (r: String)
    ensures
        r@ == b64_encoded(uuid@),
        b64_decoded(r@) == Some(uuid@),
        is_padded_16(r@, |c: char| is_b64_char(c)),
{
    b64_encode(uuid.as_bytes())
}

/// The URL-safe Base64 text, with padding, of an identifier's 16 bytes.
pub fn encode_b64url(uuid: &Uuid) -> (r: String)
    ensures
        r@ == b64url_encoded(uuid@),
        b64url_decoded(r@) == Some(uuid@),
        is_padded_16(r@, |c: char| is_b64url_char(c)),
{
    b64url_encode(uuid.as_bytes())
}

/// The URL-safe Base64 text, without padding, of an identifier's 16 bytes.
pub fn encode_b64url_nopad(uuid: &Uuid) -> (r: String)
    ensures
        r@ == b64url_nopad_encoded(uuid@),
        b64url_nopad_decoded(r@) == Some(uuid@),
        is_unpadded_16(r@, |c: char| is_b64url_char(c)),
{
    b64url_nopad_encode(uuid.as_bytes())
}

/// A new random (version 4) identifier as standard Base64 text.
pub fn new_v4_b64() -> (r: String)
    ensures
        exists|u: Uuid|
            u.version() == 4 && u.has_standard_variant() && #[trigger] b64_encoded(u@) == r@,
        is_padded_16(r@, |c: char| is_b64_char(c)),
{
    encode_b64(&new_v4())
}

/// A new random (version 4) identifier as URL-safe Base64 text with padding.
pub fn new_v4_b64url() -> (r: String)
    ensures
        exists|u: Uuid|
            u.version() == 4 && u.has_standard_variant() && #[trigger] b64url_encoded(u@) == r@,
        is_padded_16(r@, |c: char| is_b64url_char(c)),
{
    encode_b64url(&new_v4())
}

/// A new random (version 4) identifier as URL-safe Base64 text without padding.
pub fn new_v4_b64url_nopad() -> (r: String)
    ensures
        exists|u: Uuid|
            u.version() == 4 && u.has_standard_variant() && #[trigger] b64url_nopad_encoded(u@)
                == r@,
        is_unpadded_16(r@, |c: char| is_b64url_char(c)),
{
    encode_b64url_nopad(&new_v4())
}

/// A new time-ordered (version 7) identifier as standard Base64 text.
pub fn new_v7_b64() -> (r: String)
    ensures
        exists|u: Uuid|
            u.version() == 7 && u.has_standard_variant() && #[trigger] b64_encoded(u@) == r@,
        is_padded_16(r@, |c: char| is_b64_char(c)),
{
    encode_b64(&new_v7())
}

/// A new time-ordered (version 7) identifier as URL-safe Base64 text with padding.
pub fn new_v7_b64url() -> (r: String)
    ensures
        exists|u: Uuid|
            u.version() == 7 && u.has_standard_variant() && #[trigger] b64url_encoded(u@) == r@,
        is_padded_16(r@, |c: char| is_b64url_char(c)),
{
    encode_b64url(&new_v7())
}

/// A new time-ordered (version 7) identifier as URL-safe Base64 text without padding.
pub fn new_v7_b64url_nopad() -> (r: String)
    ensures
        exists|u: Uuid|
            u.version() == 7 && u.has_standard_variant() && #[trigger] b64url_nopad_encoded(u@)
                == r@,
        is_unpadded_16(r@, |c: char| is_b64url_char(c)),
{
    encode_b64url_nopad(&new_v7())
}

/// Reads an identifier from standard Base64 text.
pub fn from_b64(s: &str) -> (r: Result<Uuid>)
    ensures
        decode_outcome(b64_decoded(s@), "base64", r),
{
    let decoded_bytes = match b64_decode(s) {
        Ok(v) => v,
        Err(e) => return Err(Error::custom_from_error(e)),
    };
    from_vec_u8(decoded_bytes, "base64")
}

/// Reads an identifier from URL-safe Base64 text with padding.
pub fn from_b64url(s: &str) -> (r: Result<Uuid>)
    ensures
        decode_outcome(b64url_decoded(s@), "base64url", r),
{
    let decoded_bytes = match b64url_decode(s) {
        Ok(v) => v,
        Err(e) => return Err(Error::custom_from_error(e)),
    };
    from_vec_u8(decoded_bytes, "base64url")
}

/// Reads an identifier from URL-safe Base64 text without padding.
pub fn from_b64url_nopad(s: &str) -> (r: Result<Uuid>)
    ensures
        decode_outcome(b64url_nopad_decoded(s@), "base64url-nopad", r),
{
    let decoded_bytes = match b64url_nopad_decode(s) {
        Ok(v) => v,
        Err(e) => return Err(Error::custom_from_error(e)),
    };
    from_vec_u8(decoded_bytes, "base64url-nopad")
}

/// Reading back the standard Base64 text of an identifier gives the identifier.
pub proof fn lemma_b64_round_trip(u: Uuid, text: Seq<char>, r: Result<Uuid>)
    requires
        b64_decoded(text) == Some(u@),
        decode_outcome(b64_decoded(text), "base64", r),
    ensures
        r == Ok::<Uuid, Error>(u),
{
    lemma_decode_outcome_of_own_bytes(u, "base64", r);
}

/// Reading back the padded URL-safe Base64 text of an identifier gives the identifier.
pub proof fn lemma_b64url_round_trip(u: Uuid, text: Seq<char>, r: Result<Uuid>)
    requires
        b64url_decoded(text) == Some(u@),
        decode_outcome(b64url_decoded(text), "base64url", r),
    ensures
        r == Ok::<Uuid, Error>(u),
{
    lemma_decode_outcome_of_own_bytes(u, "base64url", r);
}

/// Reading back the unpadded URL-safe Base64 text of an identifier gives the identifier.
pub proof fn lemma_b64url_nopad_round_trip(u: Uuid, text: Seq<char>, r: Result<Uuid>)
    requires
        b64url_nopad_decoded(text) == Some(u@),
        decode_outcome(b64url_nopad_decoded(text), "base64url-nopad", r),
    ensures
        r == Ok::<Uuid, Error>(u),
{
    lemma_decode_outcome_of_own_bytes(u, "base64url-nopad", r);
}

} // verus!
