//! Errors of this crate.

use vstd::prelude::*;
use vstd::string::StringExecFns;

verus! {

/// What went wrong while building a value from user input.
#[derive(Clone, Debug)]
pub enum Error {
    /// An event stream token was empty; the offending input is kept.
    InvalidEventStreamToken(String),
}

/// The text that describes an invalid token.
pub open spec fn invalid_token_message(token: Seq<char>) -> Seq<char> {
    "Invalid event stream token provided: '"@ + token + "'"@
}

/// The human-readable text of an error.
pub open spec fn error_message(e: Error) -> Seq<char> {
    match e {
        Error::InvalidEventStreamToken(t) => invalid_token_message(t@),
    }
}

impl Error {
    /// Renders the error for the person who gave the input.
    pub fn message(&self) -> (r: String)
        ensures
            r@ == error_message(*self),
    {
        match self {
            Error::InvalidEventStreamToken(t) => {
                let mut m = String::from_str("Invalid event stream token provided: '");
                m.append(t.as_str());
                m.append("'");
                m
            },
        }
    }
}

} // verus!
