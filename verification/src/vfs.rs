//! Internal virtual-filesystem mount points.

use vstd::prelude::*;

verus! {

/// A mount point: a source path exposed under a logical name.
#[derive(Clone, Debug, PartialEq, Eq)]
pub struct MountDir {
    pub name: String,
    pub source: String,
}

} // verus!
