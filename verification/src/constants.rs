//! Limits, time windows and fee constants shared by every operation.

use vstd::prelude::*;

verus! {

/// Maximum byte length of a video identifier.
pub const MAX_VIDEO_ID_LENGTH: usize = 64;

/// Maximum byte length of a content pointer (an IPFS CID).
pub const MAX_IPFS_HASH_LENGTH: usize = 128;

/// Maximum byte length of a video title.
pub const MAX_TITLE_LENGTH: usize = 200;

/// Maximum byte length of a video description.
pub const MAX_DESCRIPTION_LENGTH: usize = 1000;

/// Maximum chunks a single authorization call may add to a session's ceiling.
pub const MAX_CHUNKS_PER_APPROVAL: u32 = 1000;

/// Maximum chunks a video may consist of.
pub const MAX_TOTAL_CHUNKS: u32 = 10000;

/// A session expires this many seconds after it was opened.
pub const SESSION_EXPIRY_DURATION: i64 = 24 * 60 * 60;

/// A session counts as inactive this many seconds after its last activity.
pub const SESSION_INACTIVITY_DURATION: i64 = 60 * 60;

/// Fee rates are expressed in basis points: 10000 basis points = 100%.
pub const BASIS_POINTS: u64 = 10000;

/// Administrative cap on the platform fee rate (10%).
pub const MAX_PLATFORM_FEE_BPS: u64 = 1000;

/// Default platform fee rate (2.5%).
pub const DEFAULT_PLATFORM_FEE_BPS: u64 = 250;

/// Default minimum price per chunk.
pub const MIN_PRICE_PER_CHUNK: u64 = 1000;

} // verus!
