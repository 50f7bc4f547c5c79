//! Turns a named call with loosely typed arguments into one of a fixed set
//! of operations, and every outcome into an envelope.
use vstd::prelude::*;
use vstd::string::*;
use vstd::utf8::encode_utf8;
use crate::args::{ArgValue, CallParams, decode_params, decoded_params, not_object_message};
use crate::codec::{
    MAX_ENCODE_LEN, base64_of, bytes_as_text, decode_base64, encode_base64, text_of_bytes,
};
use crate::envelope::Envelope;

verus! {

/// The operations that can be called.
#[derive(Clone, Copy, Debug, PartialEq, Eq, Structural)]
pub enum Method {
    Encode,
    Decode,
    Encode52,
    Decode52,
    Encrypt,
    Decrypt,
    ScryptEncrypt,
    ScryptDecrypt,
}

impl Method {
    /// Whether the operation is keyed by a passphrase, which must then be
    /// non-empty.
    pub open spec fn needs_passphrase(self) -> bool {
        match self {
            Method::Encrypt | Method::Decrypt | Method::ScryptEncrypt | Method::ScryptDecrypt => true,
            _ => false,
        }
    }
}

/// The method called by `name`: exact match, no case folding.
pub open spec fn lookup_method(name: Seq<char>) -> Option<Method> {
    if name == "encode"@ {
        Some(Method::Encode)
    } else if name == "decode"@ {
        Some(Method::Decode)
    } else if name == "encode52"@ {
        Some(Method::Encode52)
    } else if name == "decode52"@ {
        Some(Method::Decode52)
    } else if name == "encrypt"@ {
        Some(Method::Encrypt)
    } else if name == "decrypt"@ {
        Some(Method::Decrypt)
    } else if name == "scrypt-encrypt"@ {
        Some(Method::ScryptEncrypt)
    } else if name == "scrypt-decrypt"@ {
        Some(Method::ScryptDecrypt)
    } else {
        None
    }
}

/// Finds the method called by `name`.
pub fn parse_method(name: &str) -> (r: Option<Method>)
    ensures
        r == lookup_method(name@),
{
    let n = name.to_owned();
    if n == String::from_str("encode") {
        Some(Method::Encode)
    } else if n == String::from_str("decode") {
        Some(Method::Decode)
    } else if n == String::from_str("encode52") {
        Some(Method::Encode52)
    } else if n == String::from_str("decode52") {
        Some(Method::Decode52)
    } else if n == String::from_str("encrypt") {
        Some(Method::Encrypt)
    } else if n == String::from_str("decrypt") {
        Some(Method::Decrypt)
    } else if n == String::from_str("scrypt-encrypt") {
        Some(Method::ScryptEncrypt)
    } else if n == String::from_str("scrypt-decrypt") {
        Some(Method::ScryptDecrypt)
    } else {
        None
    }
}

/// What a call comes to: an envelope ready to send, or an operation that an
/// outside collaborator must carry out on the decoded parameters, whose
/// outcome `complete_text` or `complete_bytes` then folds into an envelope.
#[derive(Debug)]
pub enum Dispatch {
    Reply(Envelope),
    Invoke(Method, CallParams),
}

/// `d` replies at once, with the given success and text.
pub open spec fn replies(d: Dispatch, ok: bool, text: Seq<char>) -> bool {
    d is Reply && d->Reply_0.succeeded() == ok && d->Reply_0.text() == text
}

/// `e` is the envelope for base64-decoding `input`: success exactly when
/// `input` is the encoding of some bytes, whose text form it then holds.
pub open spec fn base64_reply(input: Seq<char>, e: Envelope) -> bool {
    if e.succeeded() {
        exists|b: Seq<u8>| #[trigger] base64_of(b) == input && e.text() == text_of_bytes(b)
    } else {
        forall|b: Seq<u8>| #[trigger] base64_of(b) != input
    }
}

pub open spec fn invalid_arguments_message(details: Seq<char>) -> Seq<char> {
    "Invalid arguments: "@ + details
}

pub open spec fn unknown_method_message(name: Seq<char>) -> Seq<char> {
    "Unknown method called: "@ + name
}

pub open spec fn passphrase_required_message() -> Seq<char> {
    "Passphrase is required"@
}

pub open spec fn input_too_large_message() -> Seq<char> {
    "Input too large to encode"@
}

/// What calling `name` with `args` comes to. Where the base64 decoder
/// decides, it is stated for whatever the decoder returns.
pub open spec fn dispatched(name: Seq<char>, args: ArgValue, d: Dispatch) -> bool {
    match decoded_params(args) {
        Err(details) => replies(d, false, invalid_arguments_message(details)),
        Ok((input, pass)) => match lookup_method(name) {
            None => replies(d, false, unknown_method_message(name)),
            Some(m) => if m.needs_passphrase() && pass.len() == 0 {
                replies(d, false, passphrase_required_message())
            } else if m is Encode {
                if encode_utf8(input).len() <= MAX_ENCODE_LEN {
                    replies(d, true, base64_of(encode_utf8(input)))
                } else {
                    replies(d, false, input_too_large_message())
                }
            } else if m is Decode {
                d is Reply && base64_reply(input, d->Reply_0)
            } else {
                d is Invoke && d->Invoke_0 == m && d->Invoke_1.input@ == input
                    && d->Invoke_1.passphrase@ == pass
            },
        },
    }
}

/// Handles one call: decodes the arguments, picks the method by exact name,
/// checks the passphrase before any keyed operation, and runs the base64
/// codec itself.
pub fn call(name: &str, args: &ArgValue) -> (r: Dispatch)
    ensures
        dispatched(name@, *args, r),
{
    let params = match decode_params(args) {
        Ok(p) => p,
        Err(details) => {
            let msg = String::from_str("Invalid arguments: ").concat(details.as_str());
            return Dispatch::Reply(Envelope::failure(msg));
        },
    };
    let method = match parse_method(name) {
        Some(m) => m,
        None => {
            let msg = String::from_str("Unknown method called: ").concat(name);
            return Dispatch::Reply(Envelope::failure(msg));
        },
    };
    let keyed = match method {
        Method::Encrypt | Method::Decrypt | Method::ScryptEncrypt | Method::ScryptDecrypt => true,
        _ => false,
    };
    if keyed && params.passphrase.as_str().unicode_len() == 0 {
        return Dispatch::Reply(Envelope::failure(String::from_str("Passphrase is required")));
    }
    match method {
        Method::Encode => {
            let bytes = params.input.as_str().as_bytes();
            if bytes.len() <= MAX_ENCODE_LEN {
                Dispatch::Reply(Envelope::success(encode_base64(bytes)))
            } else {
                Dispatch::Reply(Envelope::failure(String::from_str("Input too large to encode")))
            }
        },
        Method::Decode => {
            let outcome = decode_base64(params.input.as_str());
            let ghost decoded = outcome;
            let env = complete_bytes(outcome);
            proof {
                if let Ok(b) = decoded {
                    assert(base64_of(b@) == params.input@);
                }
            }
            Dispatch::Reply(env)
        },
        _ => Dispatch::Invoke(method, params),
    }
}

/// A keyed method called with an empty passphrase is refused with the
/// precondition message and never handed to its collaborator.
pub proof fn lemma_empty_passphrase_refused(name: Seq<char>, args: ArgValue, d: Dispatch)
    requires
        dispatched(name, args, d),
        decoded_params(args) is Ok,
        decoded_params(args)->Ok_0.1.len() == 0,
        lookup_method(name) is Some,
        lookup_method(name)->Some_0.needs_passphrase(),
    ensures
        replies(d, false, passphrase_required_message()),
        !(d is Invoke),
{
}

/// A name outside the method table is reported as unknown, with the name,
/// in an ordinary failure envelope.
pub proof fn lemma_unknown_method_reported(name: Seq<char>, args: ArgValue, d: Dispatch)
    requires
        dispatched(name, args, d),
        decoded_params(args) is Ok,
        lookup_method(name) is None,
    ensures
        replies(d, false, unknown_method_message(name)),
{
}

/// Arguments that are not an object are reported as invalid, whatever the
/// method, and no operation runs.
pub proof fn lemma_malformed_arguments_reported(name: Seq<char>, args: ArgValue, d: Dispatch)
    requires
        dispatched(name, args, d),
        !(args is Object),
    ensures
        replies(d, false, invalid_arguments_message(not_object_message())),
{
}

/// Folds a collaborator's text outcome into an envelope; an error becomes
/// the failure message as it is.
pub fn complete_text(outcome: Result<String, String>) -> (r: Envelope)
    ensures
        r.succeeded() == (outcome is Ok),
        r.text() == match outcome {
            Ok(v) => v@,
            Err(e) => e@,
        },
{
    match outcome {
        Ok(v) => Envelope::success(v),
        Err(e) => Envelope::failure(e),
    }
}

/// Folds a collaborator's byte outcome into an envelope, rendering the
/// bytes one character per byte.
pub fn complete_bytes(outcome: Result<Vec<u8>, String>) -> (r: Envelope)
    ensures
        r.succeeded() == (outcome is Ok),
        r.text() == match outcome {
            Ok(b) => text_of_bytes(b@),
            Err(e) => e@,
        },
{
    match outcome {
        Ok(b) => Envelope::success(bytes_as_text(b.as_slice())),
        Err(e) => Envelope::failure(e),
    }
}

} // verus!
