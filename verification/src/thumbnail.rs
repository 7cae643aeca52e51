//! Internal thumbnail-generation parameters.

use vstd::prelude::*;

verus! {

/// Parameters handed to the thumbnail renderer. `max_dimension` of `None`
/// means "no dimension bound" and is distinct from any finite bound.
#[derive(Clone, Copy, Debug, PartialEq, Eq)]
pub struct Options {
    pub max_dimension: Option<u32>,
    pub pad_to_square: bool,
}

/// The fixed default thumbnail parameters that option decoding starts from.
pub open spec fn spec_default_options() -> Options {
    Options { max_dimension: Some(400u32), pad_to_square: false }
}

impl Default for Options {
    fn default() -> (r: Self)
        ensures
            r == spec_default_options(),
    {
        Options { max_dimension: Some(400), pad_to_square: false }
    }
}

} // verus!
