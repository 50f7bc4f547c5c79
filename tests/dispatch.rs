use enzo_crypto::args::{decode_params, ArgValue, CallParams};
use enzo_crypto::dispatch::{call, complete_bytes, complete_text, parse_method, Dispatch, Method};
use enzo_crypto::envelope::Envelope;

fn text(s: &str) -> ArgValue {
    ArgValue::Text(s.to_string())
}

fn object(fields: &[(&str, ArgValue)]) -> ArgValue {
    let mut entries = Vec::new();
    for (k, v) in fields {
        let v = match v {
            ArgValue::Text(s) => ArgValue::Text(s.clone()),
            ArgValue::Number(s) => ArgValue::Number(s.clone()),
            ArgValue::Bool(b) => ArgValue::Bool(*b),
            _ => ArgValue::Null,
        };
        entries.push((k.to_string(), v));
    }
    ArgValue::Object(entries)
}

fn reply(d: Dispatch) -> Envelope {
    match d {
        Dispatch::Reply(e) => e,
        Dispatch::Invoke(m, _) => panic!("expected a reply, got an invocation of {:?}", m),
    }
}

#[test]
fn encode_hi_gives_base64() {
    let e = reply(call("encode", &object(&[("input", text("hi"))])));
    assert_eq!(e, Envelope::Success("aGk=".to_string()));
}

#[test]
fn decode_base64_gives_hi() {
    let e = reply(call("decode", &object(&[("input", text("aGk="))])));
    assert_eq!(e, Envelope::Success("hi".to_string()));
}

#[test]
fn encrypt_with_empty_passphrase_is_refused() {
    let args = object(&[("input", text("secret")), ("passphrase", text(""))]);
    let e = reply(call("encrypt", &args));
    assert_eq!(e, Envelope::Failure("Passphrase is required".to_string()));
}

#[test]
fn bogus_method_is_unknown() {
    let e = reply(call("bogus", &object(&[])));
    assert_eq!(e, Envelope::Failure("Unknown method called: bogus".to_string()));
}

#[test]
fn unknown_method_does_not_stop_later_calls() {
    let e = reply(call("nope", &object(&[("input", text("x"))])));
    assert_eq!(e, Envelope::Failure("Unknown method called: nope".to_string()));
    let e = reply(call("encode", &object(&[("input", text("x"))])));
    assert_eq!(e, Envelope::Success("eA==".to_string()));
}

#[test]
fn method_names_match_exactly() {
    let e = reply(call("Encode", &object(&[("input", text("hi"))])));
    assert_eq!(e, Envelope::Failure("Unknown method called: Encode".to_string()));
    assert_eq!(parse_method("encode "), None);
    assert_eq!(parse_method("scrypt-encrypt"), Some(Method::ScryptEncrypt));
    assert_eq!(parse_method("scrypt-decrypt"), Some(Method::ScryptDecrypt));
    assert_eq!(parse_method("decode52"), Some(Method::Decode52));
}

#[test]
fn non_object_arguments_are_refused() {
    let e = reply(call("encode", &text("hi")));
    assert_eq!(
        e,
        Envelope::Failure(
            "Invalid arguments: expected an object with optional text fields `input` and `passphrase`"
                .to_string()
        )
    );
    let e = reply(call("bogus", &ArgValue::Null));
    assert!(e.error().unwrap().starts_with("Invalid arguments: "));
    let e = reply(call("encode", &ArgValue::Array(vec![text("hi")])));
    assert_eq!(e.code(), -1);
}

#[test]
fn field_of_wrong_kind_is_refused() {
    let e = reply(call("encode", &object(&[("input", ArgValue::Number("5".to_string()))])));
    assert_eq!(
        e,
        Envelope::Failure("Invalid arguments: field `input` must be a text".to_string())
    );
    let args = object(&[("input", text("a")), ("passphrase", ArgValue::Bool(true))]);
    let e = reply(call("encrypt", &args));
    assert_eq!(
        e,
        Envelope::Failure("Invalid arguments: field `passphrase` must be a text".to_string())
    );
}

#[test]
fn absent_fields_default_to_empty() {
    let p = decode_params(&object(&[("other", text("z"))])).unwrap();
    assert_eq!(p, CallParams { input: String::new(), passphrase: String::new() });
    let e = reply(call("encode", &object(&[])));
    assert_eq!(e, Envelope::Success(String::new()));
}

#[test]
fn first_of_repeated_keys_wins() {
    let p = decode_params(&object(&[("input", text("a")), ("input", text("b"))])).unwrap();
    assert_eq!(p.input, "a");
}

#[test]
fn every_keyed_method_needs_a_passphrase() {
    for name in ["encrypt", "decrypt", "scrypt-encrypt", "scrypt-decrypt"] {
        let e = reply(call(name, &object(&[("input", text("data"))])));
        assert_eq!(e, Envelope::Failure("Passphrase is required".to_string()));
    }
}

#[test]
fn keyed_method_with_passphrase_goes_to_collaborator() {
    let args = object(&[("input", text("data")), ("passphrase", text("pw"))]);
    match call("scrypt-encrypt", &args) {
        Dispatch::Invoke(m, p) => {
            assert_eq!(m, Method::ScryptEncrypt);
            assert_eq!(p, CallParams { input: "data".to_string(), passphrase: "pw".to_string() });
        }
        other => panic!("unexpected {:?}", other),
    }
}

#[test]
fn base_n_methods_go_to_collaborator_without_passphrase() {
    match call("encode52", &object(&[("input", text("abc"))])) {
        Dispatch::Invoke(m, p) => {
            assert_eq!(m, Method::Encode52);
            assert_eq!(p.input, "abc");
            assert_eq!(p.passphrase, "");
        }
        other => panic!("unexpected {:?}", other),
    }
    assert!(matches!(call("decode52", &object(&[])), Dispatch::Invoke(Method::Decode52, _)));
}

#[test]
fn invalid_base64_is_a_failure() {
    let e = reply(call("decode", &object(&[("input", text("aGk"))])));
    assert_eq!(e.code(), -1);
    assert!(e.result().is_none());
    let e = reply(call("decode", &object(&[("input", text("aGl="))])));
    assert!(e.error().is_some());
}

#[test]
fn decoded_bytes_are_one_character_each() {
    let e = reply(call("decode", &object(&[("input", text("/wA="))])));
    assert_eq!(e, Envelope::Success("\u{ff}\u{0}".to_string()));
}

#[test]
fn encode_uses_utf8_bytes() {
    let e = reply(call("encode", &object(&[("input", text("é"))])));
    assert_eq!(e, Envelope::Success("w6k=".to_string()));
}

#[test]
fn collaborator_outcomes_fold_into_envelopes() {
    assert_eq!(complete_text(Ok("c".to_string())), Envelope::Success("c".to_string()));
    assert_eq!(complete_text(Err("bad".to_string())), Envelope::Failure("bad".to_string()));
    assert_eq!(complete_bytes(Ok(vec![104, 105, 200])), Envelope::Success("hi\u{c8}".to_string()));
    assert_eq!(complete_bytes(Err("e".to_string())), Envelope::Failure("e".to_string()));
}
