//! Call arguments: a loosely typed JSON-like value, decoded into the two
//! optional text fields that every method reads.
use vstd::prelude::*;
use vstd::string::*;

verus! {

/// A JSON-like value as delivered with a call. Numbers are kept as their
/// text, since no method reads them.
pub enum ArgValue {
    Null,
    Bool(bool),
    Number(String),
    Text(String),
    Array(Vec<ArgValue>),
    Object(Vec<(String, ArgValue)>),
}

/// The typed parameters of a call; an absent field is empty.
#[derive(Clone, Debug, PartialEq, Eq)]
pub struct CallParams {
    pub input: String,
    pub passphrase: String,
}

/// The value under `key` in an object's entries: the first entry with that
/// key.
pub open spec fn field_of(entries: Seq<(String, ArgValue)>, key: Seq<char>) -> Option<ArgValue>
    decreases entries.len(),
{
    if entries.len() == 0 {
        None
    } else if entries[0].0@ == key {
        Some(entries[0].1)
    } else {
        field_of(entries.drop_first(), key)
    }
}

/// A text field: empty when absent, an error when of another kind.
pub open spec fn text_field(entries: Seq<(String, ArgValue)>, key: Seq<char>) -> Option<Seq<char>> {
    match field_of(entries, key) {
        None => Some(Seq::empty()),
        Some(ArgValue::Text(s)) => Some(s@),
        Some(_) => None,
    }
}

/// Why arguments that are not an object are refused.
pub open spec fn not_object_message() -> Seq<char> {
    "expected an object with optional text fields `input` and `passphrase`"@
}

/// Why a field of the wrong kind is refused.
pub open spec fn field_kind_message(key: Seq<char>) -> Seq<char> {
    "field `"@ + key + "` must be a text"@
}

/// What decoding `args` gives: the input and passphrase, or the details of
/// why they cannot be read. The input field is examined first.
pub open spec fn decoded_params(args: ArgValue) -> Result<(Seq<char>, Seq<char>), Seq<char>> {
    match args {
        ArgValue::Object(entries) => match text_field(entries@, "input"@) {
            None => Err(field_kind_message("input"@)),
            Some(input) => match text_field(entries@, "passphrase"@) {
                None => Err(field_kind_message("passphrase"@)),
                Some(pass) => Ok((input, pass)),
            },
        },
        _ => Err(not_object_message()),
    }
}

/// Looks up `key` in `entries`, first match wins.
fn find_field<'a>(entries: &'a Vec<(String, ArgValue)>, key: &str) -> (r: Option<&'a ArgValue>)
    ensures
        match r {
            Some(v) => field_of(entries@, key@) == Some(*v),
            None => field_of(entries@, key@) is None,
        },
{
    let wanted = key.to_owned();
    let mut i: usize = 0;
    assert(entries@.subrange(0, entries@.len() as int) == entries@);
    while i < entries.len()
        invariant
            i <= entries@.len(),
            wanted@ == key@,
            field_of(entries@, key@) == field_of(entries@.subrange(i as int, entries@.len() as int), key@),
        decreases entries@.len() - i,
    {
        let ghost rest = entries@.subrange(i as int, entries@.len() as int);
        assert(rest.drop_first() == entries@.subrange(i + 1, entries@.len() as int));
        if entries[i].0 == wanted {
            return Some(&entries[i].1);
        }
        i = i + 1;
    }
    None
}

/// Reads a text field: empty when absent, `None` when of another kind.
fn read_text_field(entries: &Vec<(String, ArgValue)>, key: &str) -> (r: Option<String>)
    ensures
        match r {
            Some(s) => text_field(entries@, key@) == Some(s@),
            None => text_field(entries@, key@) is None,
        },
{
    match find_field(entries, key) {
        None => Some(String::new()),
        Some(ArgValue::Text(s)) => Some(s.clone()),
        Some(_) => None,
    }
}

/// Decodes the call arguments into typed parameters; on failure the error
/// holds the details.
pub fn decode_params(args: &ArgValue) -> (r: Result<CallParams, String>)
    ensures
        match r {
            Ok(p) => decoded_params(*args) == Ok::<(Seq<char>, Seq<char>), Seq<char>>((p.input@, p.passphrase@)),
            Err(d) => decoded_params(*args) == Err::<(Seq<char>, Seq<char>), Seq<char>>(d@),
        },
{
    match args {
        ArgValue::Object(entries) => {
            let input = match read_text_field(entries, "input") {
                Some(s) => s,
                None => {
                    return Err(kind_error("input"));
                },
            };
            let passphrase = match read_text_field(entries, "passphrase") {
                Some(s) => s,
                None => {
                    return Err(kind_error("passphrase"));
                },
            };
            Ok(CallParams { input, passphrase })
        },
        _ => Err(String::from_str("expected an object with optional text fields `input` and `passphrase`")),
    }
}

fn kind_error(key: &str) -> (r: String)
    ensures
        r@ == field_kind_message(key@),
{
    let s = String::from_str("field `");
    let s = s.concat(key);
    s.concat("` must be a text")
}

} // verus!
