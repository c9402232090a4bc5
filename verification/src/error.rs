use vstd::prelude::*;

use crate::object::JsValue;

verus! {

/// A `TypeError`.
#[derive(Clone, Debug, PartialEq, Eq)]
pub struct TypeError {
    pub message: String,
}

/// An error: a `TypeError` raised here, or a value that code has thrown.
#[derive(Clone, Debug, PartialEq, Eq)]
pub enum JsError<P> {
    Type(TypeError),
    Thrown(JsValue<P>),
}

/// The result of an operation in which code may run.
pub type JsResult<T, P> = Result<T, JsError<P>>;

impl TypeError {
    /// Creates an error with the given message.
    pub fn with_message(message: &str) -> (error: Self)
        ensures
            error.message@ == message@,
    {
        TypeError { message: message.to_owned() }
    }
}

impl<P> JsError<P> {
    /// Whether this is a `TypeError` with the given message.
    pub open spec fn is_type_error(self, message: Seq<char>) -> bool {
        self matches JsError::Type(error) && error.message@ == message
    }
}

} // verus!
