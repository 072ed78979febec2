//! The event stream's auth token and its connection method.

use vstd::prelude::*;
use vstd::string::StringExecFns;
use crate::decimal::{decimal_u64, parse_u64};
use crate::error::{error_message, invalid_token_message, Error};

verus! {

/// The token that lets the supervisor send events to the event stream's
/// messaging server. It is never empty.
#[derive(Debug)]
pub struct AutomateAuthToken(String);

impl AutomateAuthToken {
    #[verifier::type_invariant]
    spec fn non_empty(self) -> bool {
        self.0@.len() > 0
    }
}

impl Clone for AutomateAuthToken {
    fn clone(&self) -> (r: AutomateAuthToken)
        ensures
            r@ == self@,
    {
        proof {
            use_type_invariant(self);
        }
        AutomateAuthToken(self.0.clone())
    }
}

impl View for AutomateAuthToken {
    type V = Seq<char>;

    closed spec fn view(&self) -> Seq<char> {
        self.0@
    }
}

impl AutomateAuthToken {
    /// The name of the command-line argument that carries the token.
    pub const ARG_NAME: &'static str = "EVENT_STREAM_TOKEN";

    /// The environment variable that may hold the token.
    pub const ENVVAR: &'static str = "HAB_AUTOMATE_AUTH_TOKEN";

    /// Builds a token from `s`, which must not be empty.
    pub fn from_str(s: &str) -> (r: Result<AutomateAuthToken, Error>)
        ensures
            r is Ok <==> s@.len() > 0,
            r matches Ok(t) ==> t@ == s@,
            r matches Err(Error::InvalidEventStreamToken(t)) ==> t@ == s@,
            r matches Err(e) ==> error_message(e) == invalid_token_message(s@),
    {
        if s.is_empty() {
            Err(Error::InvalidEventStreamToken(String::from_str(s)))
        } else {
            Ok(AutomateAuthToken(String::from_str(s)))
        }
    }

    /// Checks one command-line value: `Ok` exactly when it is not empty,
    /// else the message of the token error.
    pub fn validate(value: String) -> (r: Result<(), String>)
        ensures
            r is Ok <==> value@.len() > 0,
            r matches Err(e) ==> e@ == invalid_token_message(value@),
    {
        match AutomateAuthToken::from_str(value.as_str()) {
            Ok(_) => Ok(()),
            Err(e) => Err(e.message()),
        }
    }

    /// The token as it was given; it is not redacted.
    pub fn to_string(&self) -> (r: String)
        ensures
            r@ == self@,
            r@.len() > 0,
    {
        proof {
            use_type_invariant(self);
        }
        self.0.clone()
    }
}

impl std::str::FromStr for AutomateAuthToken {
    type Err = Error;

    fn from_str(s: &str) -> Result<AutomateAuthToken, Error> {
        AutomateAuthToken::from_str(s)
    }
}

/// How the supervisor starts with respect to the event stream.
#[derive(Clone, Copy, Debug, PartialEq, Eq, Structural)]
pub enum EventStreamConnectMethod {
    /// Start at once, whatever the state of the event stream.
    Immediate,
    /// Wait up to `secs` seconds for a connection; without one, exit.
    Timeout { secs: u64 },
}

/// The method that a number of seconds stands for: zero is no wait.
pub open spec fn connect_method_of(secs: u64) -> EventStreamConnectMethod {
    if secs == 0 {
        EventStreamConnectMethod::Immediate
    } else {
        EventStreamConnectMethod::Timeout { secs }
    }
}

impl EventStreamConnectMethod {
    /// The name of the command-line argument.
    pub const ARG_NAME: &'static str = "EVENT_STREAM_CONNECT_TIMEOUT";

    /// The environment variable that may set this value.
    pub const ENVVAR: &'static str = "HAB_EVENT_STREAM_CONNECT_TIMEOUT";

    /// Reads a number of seconds: `0` is `Immediate`, any other is a timeout.
    /// Fails with the integer error on anything that is not a `u64`.
    pub fn from_str(s: &str) -> (r: Result<EventStreamConnectMethod, std::num::ParseIntError>)
        ensures
            r is Ok <==> decimal_u64(s@) is Some,
            r matches Ok(m) ==> m == connect_method_of(decimal_u64(s@)->Some_0),
    {
        match parse_u64(s) {
            Ok(secs) => {
                if secs == 0 {
                    Ok(EventStreamConnectMethod::Immediate)
                } else {
                    Ok(EventStreamConnectMethod::Timeout { secs })
                }
            },
            Err(e) => Err(e),
        }
    }

    /// How long to wait for a connection, in seconds; `None` for no wait.
    pub fn timeout_secs(self) -> (r: Option<u64>)
        ensures
            r == match self {
                EventStreamConnectMethod::Immediate => None,
                EventStreamConnectMethod::Timeout { secs } => Some(secs),
            },
    {
        match self {
            EventStreamConnectMethod::Immediate => None,
            EventStreamConnectMethod::Timeout { secs } => Some(secs),
        }
    }
}

impl std::str::FromStr for EventStreamConnectMethod {
    type Err = std::num::ParseIntError;

    fn from_str(s: &str) -> Result<EventStreamConnectMethod, std::num::ParseIntError> {
        EventStreamConnectMethod::from_str(s)
    }
}

} // verus!
