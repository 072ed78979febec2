//! Configuration values that come from one environment variable each, with
//! a default that stands in when the variable is absent or malformed.

use vstd::prelude::*;

verus! {

/// A value that names its environment variable and has a default.
pub trait EnvConfig: Sized {
    /// The default, as a value.
    spec fn spec_default() -> Self;

    /// The name of the environment variable that configures this value.
    fn envvar() -> &'static str;

    /// The value used when the variable is absent or does not parse.
    fn default_value() -> (r: Self)
        ensures
            r == Self::spec_default(),
    ;
}

/// What a lookup resolves to: the parsed value if there is one, else the
/// default.
pub open spec fn resolution<T: EnvConfig, E>(lookup: Option<Result<T, E>>) -> T {
    match lookup {
        Some(Ok(v)) => v,
        _ => T::spec_default(),
    }
}

/// Resolves a configuration value from the lookup of its variable: `None`
/// when the variable is not set, else the outcome of parsing its text.
/// An absent or unparsable variable gives the default; this never fails.
pub fn configured_value<T: EnvConfig, E>(lookup: Option<Result<T, E>>) -> (r: T)
    ensures
        r == resolution(lookup),
        lookup is None ==> r == T::spec_default(),
        lookup matches Some(Err(_)) ==> r == T::spec_default(),
        lookup matches Some(Ok(v)) ==> r == v,
{
    match lookup {
        Some(Ok(v)) => v,
        _ => T::default_value(),
    }
}

} // verus!
