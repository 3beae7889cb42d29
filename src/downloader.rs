//! The face that every backend shows.
use vstd::prelude::*;

verus! {

/// A way of acquiring media.
pub trait Downloader {
    /// The human-readable name of the downloader.
    fn name(&self) -> &'static str;

    /// Whether this downloader should be tried first for `url`; none is, by default.
    fn is_preferred_for_url(&self, url: &str) -> (r: bool)
        ensures
            !r,
    {
        false
    }
}

} // verus!
