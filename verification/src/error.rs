//! The error that scripts raise: a kind of error and what can be told of it.

use vstd::prelude::*;

use crate::error_kind::{
    context_of, description_of, hint_of, locatable, message_of, token_of, ErrorKind, ErrorLocation,
};

verus! {

/// An error raised by a script.
#[derive(Clone, Debug, PartialEq, Eq)]
pub struct Error(pub ErrorKind);

impl Error {
    /// The error of the given kind.
    pub fn from_kind(kind: ErrorKind) -> (e: Error)
        ensures
            e.0 == kind,
    {
        Error(kind)
    }

    /// What went wrong.
    pub fn kind(&self) -> (k: &ErrorKind)
        ensures
            *k == self.0,
    {
        &self.0
    }

    /// Where in the script the error points.
    pub fn context(&self) -> (r: ErrorLocation)
        requires
            locatable(self.0),
        ensures
            r == context_of(self.0),
    {
        self.0.expr()
    }

    /// A hint on how to fix the error, where there is one.
    pub fn hint(&self) -> (r: Option<String>)
        ensures
            r.deep_view() == hint_of(self.0),
    {
        self.0.hint()
    }

    /// The offending text, where the error carries one.
    pub fn token(&self) -> (r: Option<String>)
        ensures
            r.deep_view() == token_of(self.0),
    {
        self.0.token()
    }

    /// The message the error shows the user.
    pub fn message(&self) -> (r: String)
        ensures
            r@ == message_of(self.0),
    {
        self.0.message()
    }

    /// The short description of the error.
    pub fn description(&self) -> (r: &str)
        ensures
            r@ == description_of(self.0),
    {
        self.0.description()
    }
}

impl From<ErrorKind> for Error {
    fn from(kind: ErrorKind) -> (e: Error) {
        Error(kind)
    }
}

impl vstd::std_specs::convert::FromSpecImpl<ErrorKind> for Error {
    open spec fn obeys_from_spec() -> bool {
        true
    }

    open spec fn from_spec(kind: ErrorKind) -> Error {
        Error(kind)
    }
}

} // verus!
