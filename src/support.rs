use crate::error::{Error, Result};
use crate::extra_uuid::Uuid;
use vstd::prelude::*;

verus! {

/// What reading decoded bytes as an identifier gives: the identifier when there are exactly
/// 16 of them, otherwise the length error labelled with `context`.
pub open spec fn uuid_of_bytes(b: Seq<u8>, context: &'static str, r: Result<Uuid>) -> bool {
    match r {
        Ok(u) => b.len() == 16 && u@ == b,
        Err(e) => b.len() != 16 && e == Error::FailToDecode16U8 {
            context,
            actual_length: b.len() as usize,
        },
    }
}

/// Reads decoded bytes as an identifier; `error_context` names the codec in the error.
pub fn from_vec_u8(decoded_bytes: Vec<u8>, error_context: &'static str) -> (r: Result<Uuid>)
    ensures
        uuid_of_bytes(decoded_bytes@, error_context, r),
{
    if decoded_bytes.len() != 16 {
        return Err(Error::FailToDecode16U8 {
            context: error_context,
            actual_length: decoded_bytes.len(),
        });
    }
    let d = &decoded_bytes;
    let bytes: [u8; 16] = [
        d[0], d[1], d[2], d[3], d[4], d[5], d[6], d[7],
        d[8], d[9], d[10], d[11], d[12], d[13], d[14], d[15],
    ];
    assert(bytes@ =~= decoded_bytes@);
    Ok(Uuid::from_bytes(bytes))
}

/// What reading an identifier from text gives, where `d` is what the codec decoded from it:
/// the codec's error when it failed, and otherwise what `from_vec_u8` makes of the bytes.
pub open spec fn decode_outcome(d: Option<Seq<u8>>, context: &'static str, r: Result<Uuid>) -> bool {
    match d {
        Some(b) => uuid_of_bytes(b, context, r),
        None => r is Err && r->Err_0 is Custom,
    }
}

/// Decoded bytes that are the bytes of `u` are read as `u` itself.
pub proof fn lemma_decode_outcome_of_own_bytes(u: Uuid, context: &'static str, r: Result<Uuid>)
    requires
        decode_outcome(Some(u@), context, r),
    ensures
        r == Ok::<Uuid, Error>(u),
{
    if let Ok(v) = r {
        assert(v.bytes@ =~= u.bytes@);
        assert(v.bytes == u.bytes);
    }
}

} // verus!
