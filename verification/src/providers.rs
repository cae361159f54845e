//! Verified implementations of the adapter's collaborator traits, suitable
//! for composing a complete adapter in memory.

use vstd::prelude::*;

use crate::interface::{AccountResolver, Matcher, MintPolicy};
use crate::types::{Asset, Error, Location, TrackingMode};

verus! {

/// Handles descriptors whose class identifier lies below a bound, reading
/// the class as the collection and the instance as the item.
pub struct BoundedMatcher {
    /// Descriptors with `id` below this bound are handled.
    pub limit: u64,
}

impl Matcher for BoundedMatcher {
    open spec fn match_spec(&self, asset: Asset) -> Option<(u64, u64)> {
        if asset.id < self.limit {
            Some((asset.id, asset.instance))
        } else {
            None
        }
    }

    fn matches(&self, asset: &Asset) -> (r: Result<(u64, u64), Error>) {
        if asset.id < self.limit {
            Ok((asset.id, asset.instance))
        } else {
            Err(Error::AssetNotHandled)
        }
    }
}

/// Resolves a location to the account of the same identifier; the zero
/// location stands for no local account and is unresolvable.
pub struct IdentityResolver {}

impl AccountResolver for IdentityResolver {
    open spec fn resolve_spec(&self, location: Location) -> Option<u64> {
        if location.id == 0 {
            None
        } else {
            Some(location.id)
        }
    }

    fn resolve(&self, location: &Location) -> (r: Option<u64>) {
        if location.id == 0 {
            None
        } else {
            Some(location.id)
        }
    }
}

/// Classifies collections by two bounds: those below the first are tracked
/// as local, those from the first up to the second as non-local, the rest
/// untracked.
pub struct SplitPolicy {
    /// Collections below this bound are `TrackLocal`.
    pub local_below: u64,
    /// Collections from `local_below` up to (excluding) this bound are
    /// `TrackNonLocal`.
    pub non_local_below: u64,
}

impl MintPolicy for SplitPolicy {
    open spec fn classify_spec(&self, collection: u64) -> TrackingMode {
        if collection < self.local_below {
            TrackingMode::TrackLocal
        } else if collection < self.non_local_below {
            TrackingMode::TrackNonLocal
        } else {
            TrackingMode::Untracked
        }
    }

    fn classify(&self, collection: u64) -> (r: TrackingMode) {
        if collection < self.local_below {
            TrackingMode::TrackLocal
        } else if collection < self.non_local_below {
            TrackingMode::TrackNonLocal
        } else {
            TrackingMode::Untracked
        }
    }
}

} // verus!
