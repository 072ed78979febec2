//! Identity of the user and group a supervised service runs as.

use vstd::prelude::*;

verus! {

/// The user and group that a supervised service should run as: the
/// service's own when the supervisor has root-like permissions, else the
/// supervisor's. Each part is present only where the platform provides it.
#[derive(Clone, Debug, Default, PartialEq, Eq)]
pub struct UserInfo {
    pub username: Option<String>,
    pub uid: Option<u32>,
    pub groupname: Option<String>,
    pub gid: Option<u32>,
}

} // verus!
