//! A generic success/failure holder whose serialised form is chosen by the
//! caller, with a fallback used when serialisation itself fails.
use vstd::prelude::*;

verus! {

#[verifier::external_type_specification]
#[verifier::external_body]
pub struct ExJsonValue(serde_json::Value);

#[verifier::external_type_specification]
#[verifier::external_body]
pub struct ExJsonError(serde_json::Error);

/// What a serialisation failure turns into.
pub trait Fallback {
    fn fallback(err: serde_json::Error) -> serde_json::Value;
}

/// Reports a serialisation failure as its message, held in a JSON string.
pub struct DefaultFallback;

impl Fallback for DefaultFallback {
    fn fallback(err: serde_json::Error) -> serde_json::Value {
        json_text(err.to_string())
    }
}

/// Relies on `From<String> for serde_json::Value`, which wraps the text in a
/// JSON string value.
#[verifier::external_body]
fn json_text(s: String) -> (r: serde_json::Value) {
    serde_json::Value::from(s)
}

/// An outcome of type `Result<T, E>`, tagged with the fallback `F` used when
/// it is serialised.
pub struct GenericResult<T, E, F = DefaultFallback>(Result<T, E>, core::marker::PhantomData<F>);

impl<T, E, F> GenericResult<T, E, F> {
    /// The outcome held.
    pub closed spec fn outcome(&self) -> Result<T, E> {
        self.0
    }

    /// A successful outcome holding `value`.
    pub fn ok(value: T) -> (r: Self)
        ensures
            r.outcome() == Ok::<T, E>(value),
    {
        Self(Ok(value), core::marker::PhantomData)
    }

    /// A failed outcome holding `err`.
    pub fn err(err: E) -> (r: Self)
        ensures
            r.outcome() == Err::<T, E>(err),
    {
        Self(Err(err), core::marker::PhantomData)
    }

    /// Gives up the tag and returns the outcome.
    pub fn into_result(self) -> (r: Result<T, E>)
        ensures
            r == self.outcome(),
    {
        self.0
    }
}

} // verus!
