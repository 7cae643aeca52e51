//! Internal records produced by the media indexer.

use vstd::prelude::*;

verus! {

/// An indexed media file, as stored by the indexing collaborator.
#[derive(Clone, Debug, PartialEq, Eq)]
pub struct Song {
    pub path: String,
    pub parent: String,
    pub track_number: Option<i32>,
    pub disc_number: Option<i32>,
    pub title: Option<String>,
    pub year: Option<i32>,
    pub album: Option<String>,
    pub artwork: Option<String>,
    pub duration: Option<i32>,
    pub lyricist: Option<String>,
    pub composer: Option<String>,
    pub genre: Option<String>,
    pub label: Option<String>,
}

/// An indexed folder, as stored by the indexing collaborator.
#[derive(Clone, Debug, PartialEq, Eq)]
pub struct Directory {
    pub path: String,
    pub year: Option<i32>,
    pub album: Option<String>,
    pub artwork: Option<String>,
    pub date_added: i32,
}

} // verus!
