//! The uniform outcome of every call: exactly one of a result text or an
//! error message, with a numeric status code that agrees with it.
use vstd::prelude::*;

verus! {

/// Numeric status carried beside the outcome.
#[derive(Clone, Copy, Debug, PartialEq, Eq, Structural)]
pub enum Status {
    Success,
    Error,
}

impl Status {
    pub open spec fn spec_code(self) -> i32 {
        match self {
            Status::Success => 0i32,
            Status::Error => -1i32,
        }
    }

    /// `0` for success, `-1` for an error.
    pub fn code(self) -> (r: i32)
        ensures
            r == self.spec_code(),
    {
        match self {
            Status::Success => 0,
            Status::Error => -1,
        }
    }
}

/// The outcome of one call. Being an enum, it holds exactly one of the two
/// fields.
#[derive(Clone, Debug, PartialEq, Eq)]
pub enum Envelope {
    Success(String),
    Failure(String),
}

impl Envelope {
    /// Whether the call succeeded.
    pub open spec fn succeeded(&self) -> bool {
        self is Success
    }

    /// The result text on success, the error message on failure.
    pub open spec fn text(&self) -> Seq<char> {
        match self {
            Envelope::Success(v) => v@,
            Envelope::Failure(m) => m@,
        }
    }

    /// A successful outcome with result `value`.
    pub fn success(value: String) -> (r: Envelope)
        ensures
            r.succeeded(),
            r.text() == value@,
    {
        Envelope::Success(value)
    }

    /// A failed outcome with error `message`.
    pub fn failure(message: String) -> (r: Envelope)
        ensures
            !r.succeeded(),
            r.text() == message@,
    {
        Envelope::Failure(message)
    }

    /// The status that agrees with the populated field.
    pub fn status(&self) -> (r: Status)
        ensures
            r == (if self.succeeded() { Status::Success } else { Status::Error }),
    {
        match self {
            Envelope::Success(_) => Status::Success,
            Envelope::Failure(_) => Status::Error,
        }
    }

    /// The numeric status code: `0` on success, `-1` on failure.
    pub fn code(&self) -> (r: i32)
        ensures
            r == (if self.succeeded() { 0i32 } else { -1i32 }),
    {
        self.status().code()
    }

    /// The result field, absent on failure.
    pub fn result(&self) -> (r: Option<String>)
        ensures
            r is Some <==> self.succeeded(),
            r is Some ==> r->Some_0@ == self.text(),
    {
        match self {
            Envelope::Success(v) => Some(v.clone()),
            Envelope::Failure(_) => None,
        }
    }

    /// The error field, absent on success.
    pub fn error(&self) -> (r: Option<String>)
        ensures
            r is Some <==> !self.succeeded(),
            r is Some ==> r->Some_0@ == self.text(),
    {
        match self {
            Envelope::Success(_) => None,
            Envelope::Failure(m) => Some(m.clone()),
        }
    }
}

} // verus!
