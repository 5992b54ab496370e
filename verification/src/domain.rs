//! The transform stage: what is done to a source image, within which
//! limits, and the ceilings the image library's cache is held to.

use crate::config::Config;
use vstd::prelude::*;

pub mod image_processing;

verus! {

/// The number of bytes in a mebibyte.
pub const BYTES_PER_MEBIBYTE: u64 = 1_048_576;

/// The number of files the image library may keep open in its cache.
pub const MAX_CACHED_FILES: i32 = 50;

/// The number of operations the image library may keep in its cache.
pub const MAX_CACHED_OPERATIONS: i32 = 500;

/// The ceilings of the image library's cache. They are set once, before the
/// first request is served, and are all that the configuration hands to the
/// image library.
#[derive(Clone, Copy, Debug, PartialEq, Eq, Structural)]
pub struct VipsCacheLimits {
    /// The most memory the cache may hold, in bytes.
    pub max_mem_bytes: u64,
    /// The most files the cache may keep open.
    pub max_files: i32,
    /// The most operations the cache may keep.
    pub max_operations: i32,
}

/// The cache ceilings for a memory ceiling given in mebibytes, where the
/// number of bytes fits the 64 bits that the image library takes.
pub open spec fn cache_limits_of(vips_cache_mb: u64) -> Option<VipsCacheLimits> {
    if vips_cache_mb * BYTES_PER_MEBIBYTE <= u64::MAX {
        Some(
            VipsCacheLimits {
                max_mem_bytes: (vips_cache_mb * BYTES_PER_MEBIBYTE) as u64,
                max_files: MAX_CACHED_FILES,
                max_operations: MAX_CACHED_OPERATIONS,
            },
        )
    } else {
        None
    }
}

/// The ceilings to set on the image library's cache under a configuration;
/// none where the configured memory ceiling is too large to count in bytes.
pub fn vips_cache_limits(config: &Config) -> (limits: Option<VipsCacheLimits>)
    ensures
        limits == cache_limits_of(config.vips_cache_mb),
{
    match config.vips_cache_mb.checked_mul(BYTES_PER_MEBIBYTE) {
        Some(max_mem_bytes) => Some(
            VipsCacheLimits {
                max_mem_bytes,
                max_files: MAX_CACHED_FILES,
                max_operations: MAX_CACHED_OPERATIONS,
            },
        ),
        None => None,
    }
}

} // verus!
