//! Generation of version 4 and version 7 identifiers, their Base58 and Base64 text forms,
//! and the millisecond timestamp that a version 7 identifier carries.

mod error;
mod extra_base58;
mod extra_base64;
mod extra_uuid;
mod support;

pub use error::{debug_quoted, decimal, digit_char, hyphenated_of, Error, Result};
pub use extra_base58::{
    b58_decoded, b58_encoded, encode_b58, from_b58, is_b58_char, lemma_b58_round_trip,
    new_v4_b58, new_v7_b58,
};
pub use extra_base64::{
    b64_decoded, b64_encoded, b64url_decoded, b64url_encoded, b64url_nopad_decoded,
    b64url_nopad_encoded, encode_b64, encode_b64url, encode_b64url_nopad, from_b64, from_b64url,
    from_b64url_nopad, is_alnum, is_b64_char, is_b64url_char, is_padded_16, is_unpadded_16,
    lemma_b64_round_trip, lemma_b64url_nopad_round_trip, lemma_b64url_round_trip, new_v4_b64,
    new_v4_b64url, new_v4_b64url_nopad, new_v7_b64, new_v7_b64url, new_v7_b64url_nopad,
};
pub use extra_uuid::{
    be_value, lemma_earlier_timestamp_is_less, low_80_bits_span, new_v4, new_v7, now_v7, to_time_epoch_ms, Uuid,
};
pub use support::{
    decode_outcome, from_vec_u8, lemma_decode_outcome_of_own_bytes, uuid_of_bytes,
};
