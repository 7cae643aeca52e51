//! Internal aggregate configuration instruction.

use vstd::prelude::*;
use crate::ddns;
use crate::settings;
use crate::user;
use crate::vfs;

verus! {

/// The decoded form of a configuration patch. Each `None` sub-section is
/// "no instruction": the collaborator applying the configuration leaves
/// that subsystem untouched. A `Some` list replaces the stored collection
/// wholesale.
#[derive(Clone, Debug, PartialEq, Eq)]
pub struct Config {
    pub settings: Option<settings::NewSettings>,
    pub users: Option<Vec<user::NewUser>>,
    pub mount_dirs: Option<Vec<vfs::MountDir>>,
    pub ydns: Option<ddns::Config>,
}

} // verus!
