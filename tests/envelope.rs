use enzo_crypto::codec::{bytes_as_text, decode_base64, encode_base64};
use enzo_crypto::envelope::{Envelope, Status};
use enzo_crypto::result::{DefaultFallback, Fallback, GenericResult};

#[test]
fn success_envelope_fields() {
    let e = Envelope::success("v".to_string());
    assert_eq!(e.result(), Some("v".to_string()));
    assert_eq!(e.error(), None);
    assert_eq!(e.status(), Status::Success);
    assert_eq!(e.code(), 0);
}

#[test]
fn failure_envelope_fields() {
    let e = Envelope::failure("m".to_string());
    assert_eq!(e.result(), None);
    assert_eq!(e.error(), Some("m".to_string()));
    assert_eq!(e.status(), Status::Error);
    assert_eq!(e.code(), -1);
    assert_eq!(Status::Error.code(), -1);
}

#[test]
fn base64_known_values() {
    assert_eq!(encode_base64(b""), "");
    assert_eq!(encode_base64(b"f"), "Zg==");
    assert_eq!(encode_base64(b"fo"), "Zm8=");
    assert_eq!(encode_base64(b"foo"), "Zm9v");
    assert_eq!(encode_base64(b"foobar"), "Zm9vYmFy");
    assert_eq!(decode_base64("Zm9vYmFy").unwrap(), b"foobar".to_vec());
}

#[test]
fn base64_round_trip() {
    let all: Vec<u8> = (0..=255u8).collect();
    for n in 0..all.len() {
        let b = &all[..n];
        assert_eq!(decode_base64(&encode_base64(b)).unwrap(), b.to_vec());
    }
    let rev: Vec<u8> = (0..=255u8).rev().collect();
    assert_eq!(decode_base64(&encode_base64(&rev)).unwrap(), rev);
}

#[test]
fn base64_rejects_non_canonical_text() {
    assert!(decode_base64("Zg").is_err());
    assert!(decode_base64("Zh==").is_err());
    assert!(decode_base64("Zg=").is_err());
    assert!(decode_base64("Z!==").is_err());
}

#[test]
fn bytes_render_one_character_each() {
    assert_eq!(bytes_as_text(&[]), "");
    assert_eq!(bytes_as_text(&[0x41, 0x00, 0xff]), "A\u{0}\u{ff}");
}

#[test]
fn generic_result_keeps_outcome() {
    let ok: GenericResult<u32, String> = GenericResult::ok(3);
    assert_eq!(ok.into_result(), Ok(3));
    let err: GenericResult<u32, String> = GenericResult::err("no".to_string());
    assert_eq!(err.into_result(), Err("no".to_string()));
}

#[test]
fn default_fallback_reports_message() {
    let e = serde_json::from_str::<serde_json::Value>("{").unwrap_err();
    let msg = e.to_string();
    assert_eq!(DefaultFallback::fallback(e), serde_json::Value::String(msg));
}
