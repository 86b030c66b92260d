use vstd::prelude::*;

verus! {

/// Error surfaced by the API client. `NoData` is the sentinel by which the
/// remote confirms an empty result; upper layers map it to a marked-absent
/// cache entry instead of treating it as a failure.
#[derive(Debug, Clone, Copy, PartialEq, Eq, Structural)]
pub enum ApiError {
    /// The remote confirmed that there is no data for the request.
    NoData,
    /// Any other failure of the API client, carried opaquely.
    Custom(u64),
}

impl ApiError {
    /// True exactly for the `NoData` sentinel.
    pub fn is_no_data(&self) -> (r: bool)
        ensures
            r == (*self == ApiError::NoData),
    {
        match self {
            ApiError::NoData => true,
            ApiError::Custom(_) => false,
        }
    }
}

/// Error reported by a cache backend.
#[derive(Debug, Clone, Copy, PartialEq, Eq, Structural)]
pub enum CacheError {
    /// A lookup found no usable entry.
    CacheMiss,
    /// Any other backend failure, carried opaquely.
    Custom(u64),
}

/// Top-level error taxonomy of the framework: API failures are never written
/// to the cache, cache failures are surfaced, and `NoContent` is the
/// recoverable sentinel for confirmed-empty singular results.
#[derive(Debug, Clone, Copy, PartialEq, Eq, Structural)]
pub enum GdcfError {
    Api(ApiError),
    Cache(CacheError),
    NoContent,
}

/// Error of the upgrade engine.
#[derive(Debug, Clone, Copy, PartialEq, Eq, Structural)]
pub enum UpgradeError {
    /// An upgrade dependency could not be resolved from the cache.
    UpgradeFailed,
    Cache(CacheError),
}

} // verus!
