//! Internal indexer settings.

use vstd::prelude::*;

verus! {

/// Sparse settings patch: an absent field means "leave unchanged".
#[derive(Clone, Debug, PartialEq, Eq)]
pub struct NewSettings {
    pub album_art_pattern: Option<String>,
    pub reindex_every_n_seconds: Option<i32>,
}

/// Full settings read-back; both fields are always present.
#[derive(Clone, Debug, PartialEq, Eq)]
pub struct Settings {
    pub index_album_art_pattern: String,
    pub index_sleep_duration_seconds: i32,
}

impl Default for NewSettings {
    /// An empty patch: every field absent, so applying it changes nothing.
    fn default() -> (r: Self)
        ensures
            r.album_art_pattern is None,
            r.reindex_every_n_seconds is None,
    {
        NewSettings { album_art_pattern: None, reindex_every_n_seconds: None }
    }
}

} // verus!
