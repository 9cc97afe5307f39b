//! Platform bootstrap: builds the one-time configuration record after
//! validating the fee rate against the administrative cap.
//!
//! That only the controlling authority may call this, and that it can
//! succeed only once, is enforced by whoever stores the record; the
//! record itself is constructed here.

use vstd::prelude::*;

use crate::constants::MAX_PLATFORM_FEE_BPS;
use crate::errors::StreamingError;
use crate::events::PlatformInitialized;
use crate::state::Platform;

verus! {

/// Builds the platform configuration with zeroed running totals.
///
/// Rejected if and only if the fee rate exceeds the administrative cap;
/// the returned configuration therefore always satisfies the platform
/// invariant.
pub fn initialize_platform(
    authority: u64,
    token_mint: u64,
    platform_fee_basis_points: u16,
    min_price_per_chunk: u64,
    now: i64,
) -> (r: Result<(Platform, PlatformInitialized), StreamingError>)
    ensures
        r is Ok <==> platform_fee_basis_points as u64 <= MAX_PLATFORM_FEE_BPS,
        r is Err ==> r->Err_0 == StreamingError::PlatformFeeTooHigh,
        r is Ok ==> ({
            &&& r->Ok_0.0 == (Platform {
                authority,
                token_mint,
                platform_fee_basis_points,
                min_price_per_chunk,
                total_videos: 0,
                total_sessions: 0,
                total_revenue: 0,
            })
            &&& r->Ok_0.0.wf()
            &&& r->Ok_0.1 == (PlatformInitialized {
                token_mint,
                platform_fee_basis_points,
                min_price_per_chunk,
                timestamp: now,
            })
        }),
{
    if platform_fee_basis_points as u64 > MAX_PLATFORM_FEE_BPS {
        return Err(StreamingError::PlatformFeeTooHigh);
    }
    let platform = Platform {
        authority,
        token_mint,
        platform_fee_basis_points,
        min_price_per_chunk,
        total_videos: 0,
        total_sessions: 0,
        total_revenue: 0,
    };
    let event = PlatformInitialized {
        token_mint,
        platform_fee_basis_points,
        min_price_per_chunk,
        timestamp: now,
    };
    Ok((platform, event))
}

} // verus!
