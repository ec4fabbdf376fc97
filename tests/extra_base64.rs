use base64::engine::general_purpose as b64_gp;
use base64::Engine;
use uuid::Version;
use uuid_extra::{
    encode_b64, encode_b64url, encode_b64url_nopad, from_b64, from_b64url, from_b64url_nopad,
    new_v4_b64, new_v4_b64url, new_v4_b64url_nopad, new_v7, new_v7_b64, new_v7_b64url,
    new_v7_b64url_nopad, to_time_epoch_ms, Error, Uuid,
};

type Result<T> = core::result::Result<T, Box<dyn std::error::Error>>;

fn decoded_version(bytes: Vec<u8>) -> Result<Option<Version>> {
    let uuid = uuid::Uuid::from_bytes(bytes.try_into().map_err(|_| "Failed to convert vec to array")?);
    Ok(uuid.get_version())
}

fn from_uuid_crate(u: uuid::Uuid) -> Uuid {
    Uuid::from_bytes(u.into_bytes())
}

fn length_error(r: uuid_extra::Result<Uuid>) -> (&'static str, usize) {
    match r {
        Err(Error::FailToDecode16U8 { context, actual_length }) => (context, actual_length),
        other => panic!("Expected FailToDecode16U8, got {other:?}"),
    }
}

#[test]
fn test_extra_base64_new_v4_b64_simple() -> Result<()> {
    let b64_uuid = new_v4_b64();
    assert_eq!(b64_uuid.len(), 24, "Standard Base64 of UUID should be 24 chars with padding");
    assert!(b64_uuid.ends_with("=="), "Standard Base64 should be padded with '==' for 16 bytes");
    assert!(
        !b64_uuid.contains('-') && !b64_uuid.contains('_'),
        "Standard Base64 should not contain URL-safe characters '-' or '_'"
    );
    let decoded_bytes = b64_gp::STANDARD.decode(&b64_uuid)?;
    assert_eq!(decoded_version(decoded_bytes)?, Some(Version::Random));
    Ok(())
}

#[test]
fn test_extra_base64_new_v4_b64url_simple() -> Result<()> {
    let b64url_uuid = new_v4_b64url();
    assert_eq!(b64url_uuid.len(), 24, "URL-safe Base64 of UUID should be 24 chars with padding");
    assert!(
        b64url_uuid.ends_with("=="),
        "URL-safe Base64 with padding should be padded with '==' for 16 bytes"
    );
    assert!(
        !b64url_uuid.contains('+') && !b64url_uuid.contains('/'),
        "URL-safe Base64 should not contain '+' or '/'"
    );
    let decoded_bytes = b64_gp::URL_SAFE.decode(&b64url_uuid)?;
    assert_eq!(decoded_version(decoded_bytes)?, Some(Version::Random));
    Ok(())
}

#[test]
fn test_extra_base64_new_v4_b64url_nopad_simple() -> Result<()> {
    let b64url_nopad_uuid = new_v4_b64url_nopad();
    assert_eq!(b64url_nopad_uuid.len(), 22, "URL-safe Base64 (no pad) of UUID should be 22 chars");
    assert!(!b64url_nopad_uuid.ends_with('='), "URL-safe Base64 (no pad) should not have padding");
    assert!(
        !b64url_nopad_uuid.contains('+') && !b64url_nopad_uuid.contains('/'),
        "URL-safe Base64 (no pad) should not contain '+' or '/'"
    );
    let decoded_bytes = b64_gp::URL_SAFE_NO_PAD.decode(&b64url_nopad_uuid)?;
    assert_eq!(decoded_version(decoded_bytes)?, Some(Version::Random));
    Ok(())
}

#[test]
fn test_extra_base64_new_v7_b64_simple() -> Result<()> {
    let b64_uuid = new_v7_b64();
    assert_eq!(b64_uuid.len(), 24, "Standard Base64 of V7 UUID should be 24 chars with padding");
    assert!(b64_uuid.ends_with("=="), "Standard Base64 should be padded with '==' for 16 bytes");
    assert!(
        !b64_uuid.contains('-') && !b64_uuid.contains('_'),
        "Standard Base64 should not contain URL-safe characters '-' or '_'"
    );
    let decoded_bytes = b64_gp::STANDARD.decode(&b64_uuid)?;
    assert_eq!(decoded_version(decoded_bytes)?, Some(Version::SortRand));
    Ok(())
}

#[test]
fn test_extra_base64_new_v7_b64url_simple() -> Result<()> {
    let b64url_uuid = new_v7_b64url();
    assert_eq!(
        b64url_uuid.len(),
        24,
        "URL-safe Base64 of V7 UUID should be 24 chars with padding"
    );
    assert!(
        b64url_uuid.ends_with("=="),
        "URL-safe Base64 with padding should be padded with '==' for 16 bytes"
    );
    assert!(
        !b64url_uuid.contains('+') && !b64url_uuid.contains('/'),
        "URL-safe Base64 should not contain '+' or '/'"
    );
    let decoded_bytes = b64_gp::URL_SAFE.decode(&b64url_uuid)?;
    assert_eq!(decoded_version(decoded_bytes)?, Some(Version::SortRand));
    Ok(())
}

#[test]
fn test_extra_base64_new_v7_b64url_nopad_simple() -> Result<()> {
    let b64url_nopad_uuid = new_v7_b64url_nopad();
    assert_eq!(
        b64url_nopad_uuid.len(),
        22,
        "URL-safe Base64 (no pad) of V7 UUID should be 22 chars"
    );
    assert!(!b64url_nopad_uuid.ends_with('='), "URL-safe Base64 (no pad) should not have padding");
    assert!(
        !b64url_nopad_uuid.contains('+') && !b64url_nopad_uuid.contains('/'),
        "URL-safe Base64 (no pad) should not contain '+' or '/'"
    );
    let decoded_bytes = b64_gp::URL_SAFE_NO_PAD.decode(&b64url_nopad_uuid)?;
    assert_eq!(decoded_version(decoded_bytes)?, Some(Version::SortRand));
    Ok(())
}

#[test]
fn test_extra_base64_from_b64_ok() -> Result<()> {
    let original_uuid = uuid::Uuid::new_v4();
    let b64_string = b64_gp::STANDARD.encode(original_uuid.as_bytes());
    let decoded_uuid_res = from_b64(&b64_string);
    assert!(decoded_uuid_res.is_ok(), "Decoding should succeed");
    assert_eq!(
        decoded_uuid_res.unwrap(),
        from_uuid_crate(original_uuid),
        "Decoded UUID should match original"
    );
    Ok(())
}

#[test]
fn test_extra_base64_from_b64_err_invalid_char() -> Result<()> {
    let invalid_b64_string = "ThisIsNotValidBase64!=";
    let decoded_uuid_res = from_b64(invalid_b64_string);
    assert!(decoded_uuid_res.is_err(), "Decoding should fail for invalid characters");
    let err_msg = decoded_uuid_res.err().unwrap().to_string();
    assert!(err_msg.contains("Invalid symbol"), "Error message should indicate 'Invalid symbol'");
    Ok(())
}

#[test]
fn test_extra_base64_from_b64_err_wrong_len() -> Result<()> {
    let short_b64_string = b64_gp::STANDARD.encode("short");
    let decoded_uuid_res = from_b64(&short_b64_string);
    assert!(decoded_uuid_res.is_err(), "Decoding should fail for wrong length");
    let err_msg = decoded_uuid_res.err().unwrap().to_string();
    println!("->> {err_msg}");
    assert!(err_msg.contains("FailToDecode16U8"), "Error message should indicate wrong length");
    Ok(())
}

#[test]
fn test_extra_base64_from_b64url_ok() -> Result<()> {
    let original_uuid = uuid::Uuid::new_v4();
    let b64url_string = b64_gp::URL_SAFE.encode(original_uuid.as_bytes());
    let decoded_uuid_res = from_b64url(&b64url_string);
    assert!(decoded_uuid_res.is_ok(), "Decoding should succeed");
    assert_eq!(
        decoded_uuid_res.unwrap(),
        from_uuid_crate(original_uuid),
        "Decoded UUID should match original"
    );
    Ok(())
}

#[test]
fn test_extra_base64_from_b64url_err_invalid_char() -> Result<()> {
    let invalid_b64url_string = "ThisIsNotValidBase64Url+";
    let decoded_uuid_res = from_b64url(invalid_b64url_string);
    assert!(decoded_uuid_res.is_err(), "Decoding should fail for invalid characters");
    Ok(())
}

#[test]
fn test_extra_base64_from_b64url_err_wrong_len() -> Result<()> {
    let short_b64url_string = b64_gp::URL_SAFE.encode("short");
    let decoded_uuid_res = from_b64url(&short_b64url_string);
    assert!(decoded_uuid_res.is_err(), "Decoding should fail for wrong length");
    let err_msg = decoded_uuid_res.err().unwrap().to_string();
    assert!(
        err_msg.contains("FailToDecode16U8 { context: \"base64url\""),
        "Error message should indicate FailToDecode16U8 for base64url"
    );
    Ok(())
}

#[test]
fn test_extra_base64_from_b64url_nopad_ok() -> Result<()> {
    let original_uuid = uuid::Uuid::new_v4();
    let b64url_nopad_string = b64_gp::URL_SAFE_NO_PAD.encode(original_uuid.as_bytes());
    let decoded_uuid_res = from_b64url_nopad(&b64url_nopad_string);
    assert!(decoded_uuid_res.is_ok(), "Decoding should succeed");
    assert_eq!(
        decoded_uuid_res.unwrap(),
        from_uuid_crate(original_uuid),
        "Decoded UUID should match original"
    );
    Ok(())
}

#[test]
fn test_extra_base64_from_b64url_nopad_err_invalid_char() -> Result<()> {
    let invalid_b64url_nopad_string = "ThisIsNotValidBase64UrlNoPad=";
    let decoded_uuid_res = from_b64url_nopad(invalid_b64url_nopad_string);
    assert!(decoded_uuid_res.is_err(), "Decoding should fail for invalid characters");
    Ok(())
}

#[test]
fn test_extra_base64_from_b64url_nopad_err_wrong_len() -> Result<()> {
    let short_b64url_nopad_string = b64_gp::URL_SAFE_NO_PAD.encode("short");
    let decoded_uuid_res = from_b64url_nopad(&short_b64url_nopad_string);
    assert!(decoded_uuid_res.is_err(), "Decoding should fail for wrong length");
    let err_msg = decoded_uuid_res.err().unwrap().to_string();
    assert!(
        err_msg.contains("FailToDecode16U8 { context: \"base64url-nopad\""),
        "Error message should indicate FailToDecode16U8 for base64url-nopad"
    );
    Ok(())
}

#[test]
fn b64_known_encodings() {
    let counting = Uuid::from_bytes(core::array::from_fn(|i| i as u8));
    assert_eq!(encode_b64(&counting), "AAECAwQFBgcICQoLDA0ODw==");
    assert_eq!(encode_b64url(&counting), "AAECAwQFBgcICQoLDA0ODw==");
    assert_eq!(encode_b64url_nopad(&counting), "AAECAwQFBgcICQoLDA0ODw");
    let mut high = [0xfeu8; 16];
    high[0] = 0xfb;
    high[1] = 0xff;
    let high = Uuid::from_bytes(high);
    assert_eq!(encode_b64(&high), "+//+/v7+/v7+/v7+/v7+/g==");
    assert_eq!(encode_b64url(&high), "-__-_v7-_v7-_v7-_v7-_g==");
    assert_eq!(encode_b64url_nopad(&high), "-__-_v7-_v7-_v7-_v7-_g");
    assert_eq!(from_b64("+//+/v7+/v7+/v7+/v7+/g==").unwrap(), high);
    assert_eq!(from_b64url("-__-_v7-_v7-_v7-_v7-_g==").unwrap(), high);
    assert_eq!(from_b64url_nopad("-__-_v7-_v7-_v7-_v7-_g").unwrap(), high);
}

#[test]
fn b64_round_trips_of_zero_time_v7() {
    let u = Uuid::from_bytes([0, 0, 0, 0, 0, 0, 0x70, 0, 0x80, 0, 0, 0, 0, 0, 0, 0]);
    let a = from_b64(&encode_b64(&u)).unwrap();
    let b = from_b64url(&encode_b64url(&u)).unwrap();
    let c = from_b64url_nopad(&encode_b64url_nopad(&u)).unwrap();
    assert_eq!(a.as_bytes(), u.as_bytes());
    assert_eq!(b.as_bytes(), u.as_bytes());
    assert_eq!(c.as_bytes(), u.as_bytes());
    assert_eq!(to_time_epoch_ms(&a).unwrap(), 0);
}

#[test]
fn b64_round_trips_of_new_ids() {
    for _ in 0..50 {
        let u = new_v7();
        assert_eq!(from_b64(&encode_b64(&u)).unwrap(), u);
        assert_eq!(from_b64url(&encode_b64url(&u)).unwrap(), u);
        assert_eq!(from_b64url_nopad(&encode_b64url_nopad(&u)).unwrap(), u);
    }
}

#[test]
fn b64_short_payloads_give_length_errors() {
    assert_eq!(length_error(from_b64(&b64_gp::STANDARD.encode("short"))), ("base64", 5));
    assert_eq!(length_error(from_b64url(&b64_gp::URL_SAFE.encode("short"))), ("base64url", 5));
    assert_eq!(
        length_error(from_b64url_nopad(&b64_gp::URL_SAFE_NO_PAD.encode("short"))),
        ("base64url-nopad", 5)
    );
    assert_eq!(length_error(from_b64("")), ("base64", 0));
    assert_eq!(length_error(from_b64(&b64_gp::STANDARD.encode([1u8; 17]))), ("base64", 17));
}

#[test]
fn b64_bad_text_gives_codec_errors() {
    assert!(matches!(from_b64("ThisIsNotValidBase64!="), Err(Error::Custom(_))));
    assert!(matches!(from_b64url("ThisIsNotValidBase64Url+"), Err(Error::Custom(_))));
    assert!(matches!(from_b64url_nopad("ThisIsNotValidBase64UrlNoPad="), Err(Error::Custom(_))));
    assert!(matches!(from_b64url_nopad("AAECAwQFBgcICQoLDA0ODw=="), Err(Error::Custom(_))));
}
