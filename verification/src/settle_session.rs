//! Batch settlement: validates and prices a contiguous run of
//! already-authorized chunks reported in bulk by an off-session agent,
//! under the same ceiling accounting as single-chunk settlement but
//! without the strict per-chunk sequence, priced at the session's locked
//! price.

use vstd::prelude::*;

use crate::errors::StreamingError;
use crate::events::SessionSettled;
use crate::state::fee_amount;
use crate::state::lemma_fee_split;
use crate::state::CreatorEarnings;
use crate::state::Platform;
use crate::state::Video;
use crate::state::ViewerSession;
use crate::token::transfer_delegated;
use crate::token::TokenAccount;

verus! {

/// The decision batch settlement takes on the given state: either the
/// first rejection in validation order, or permission to settle.
///
/// Inactivity is tolerated here - the reporting agent may legitimately
/// deliver a batch after the activity window - but the report must fall
/// inside `[session_start, now]`, the batch must fit under the session's
/// remaining authorization, and the whole batch is priced at the locked
/// price, not the video's current one.
pub open spec fn settle_outcome(
    platform: Platform,
    video: Video,
    session: ViewerSession,
    earnings: CreatorEarnings,
    viewer_account: TokenAccount,
    creator_account: TokenAccount,
    platform_account: TokenAccount,
    viewer: u64,
    chunk_count: u32,
    settlement_timestamp: i64,
    now: i64,
) -> Result<(), StreamingError> {
    let total = session.approved_price_per_chunk * chunk_count;
    let fee = fee_amount(platform.platform_fee_basis_points, total as u64);
    let owner_share = total - fee;
    let first = session.chunks_consumed == 0;
    if session.viewer != viewer {
        Err(StreamingError::Unauthorized)
    } else if session.video != video.key {
        Err(StreamingError::InvalidSession)
    } else if !video.is_active {
        Err(StreamingError::VideoNotActive)
    } else if earnings.creator != video.creator {
        Err(StreamingError::Unauthorized)
    } else if earnings.video != video.key {
        Err(StreamingError::InvalidCreatorEarnings)
    } else if chunk_count == 0 {
        Err(StreamingError::InvalidChunkCount)
    } else if session.spec_is_expired(now) {
        Err(StreamingError::SessionExpired)
    } else if settlement_timestamp < session.session_start {
        Err(StreamingError::SettlementTooOld)
    } else if settlement_timestamp > now {
        Err(StreamingError::SettlementInFuture)
    } else if session.chunks_consumed + chunk_count > u32::MAX {
        Err(StreamingError::ArithmeticOverflow)
    } else if session.chunks_consumed + chunk_count > session.max_approved_chunks {
        Err(StreamingError::SettlementExceedsApproval)
    } else if total > u64::MAX {
        Err(StreamingError::ArithmeticOverflow)
    } else if viewer_account.amount < total {
        Err(StreamingError::InsufficientBalance)
    } else if viewer_account.delegated_amount < total {
        Err(StreamingError::InsufficientApproval)
    } else if creator_account.amount + owner_share > u64::MAX || platform_account.amount + fee
        > u64::MAX || session.total_spent + total > u64::MAX || video.total_chunks_served
        + chunk_count > u64::MAX || earnings.total_earned + owner_share > u64::MAX
        || earnings.total_chunks_sold + chunk_count > u64::MAX || (first && video.total_sessions
        + 1 > u64::MAX) || (first && earnings.total_sessions + 1 > u64::MAX)
        || platform.total_revenue + fee > u64::MAX {
        Err(StreamingError::ArithmeticOverflow)
    } else {
        Ok(())
    }
}

/// Settles a batch of `chunk_count` chunks consumed off-session and
/// reported at `settlement_timestamp`.
///
/// On rejection nothing changes.  On success the batch total - the locked
/// price times the chunk count - is split into the platform fee and the
/// creator's share, both moved under the platform's delegated allowance;
/// the session's consumption and spend advance by the whole batch while
/// its sequential per-chunk marker stays untouched, and the video's,
/// creator's and platform's running totals advance together.
pub fn settle_session(
    platform: &mut Platform,
    video: &mut Video,
    session: &mut ViewerSession,
    earnings: &mut CreatorEarnings,
    viewer_account: &mut TokenAccount,
    creator_account: &mut TokenAccount,
    platform_account: &mut TokenAccount,
    viewer: u64,
    chunk_count: u32,
    settlement_timestamp: i64,
    now: i64,
) -> (r: Result<SessionSettled, StreamingError>)
    requires
        old(platform).wf(),
        old(session).wf(),
        0 <= now,
    ensures
        r is Ok <==> settle_outcome(
            *old(platform),
            *old(video),
            *old(session),
            *old(earnings),
            *old(viewer_account),
            *old(creator_account),
            *old(platform_account),
            viewer,
            chunk_count,
            settlement_timestamp,
            now,
        ) is Ok,
        r is Err ==> r->Err_0 == settle_outcome(
            *old(platform),
            *old(video),
            *old(session),
            *old(earnings),
            *old(viewer_account),
            *old(creator_account),
            *old(platform_account),
            viewer,
            chunk_count,
            settlement_timestamp,
            now,
        )->Err_0,
        r is Err ==> ({
            &&& *final(platform) == *old(platform)
            &&& *final(video) == *old(video)
            &&& *final(session) == *old(session)
            &&& *final(earnings) == *old(earnings)
            &&& *final(viewer_account) == *old(viewer_account)
            &&& *final(creator_account) == *old(creator_account)
            &&& *final(platform_account) == *old(platform_account)
        }),
        r is Ok ==> ({
            let total = old(session).approved_price_per_chunk * chunk_count;
            let fee = fee_amount(old(platform).platform_fee_basis_points, total as u64);
            let owner_share = total - fee;
            let first = old(session).chunks_consumed == 0;
            let consumed = old(session).chunks_consumed + chunk_count;
            &&& *final(session) == (ViewerSession {
                chunks_consumed: consumed as u32,
                total_spent: (old(session).total_spent + total) as u64,
                last_activity: now,
                ..*old(session)
            })
            &&& *final(video) == (Video {
                total_chunks_served: (old(video).total_chunks_served + chunk_count) as u64,
                total_sessions: if first {
                    (old(video).total_sessions + 1) as u64
                } else {
                    old(video).total_sessions
                },
                ..*old(video)
            })
            &&& *final(earnings) == (CreatorEarnings {
                total_earned: (old(earnings).total_earned + owner_share) as u64,
                total_chunks_sold: (old(earnings).total_chunks_sold + chunk_count) as u64,
                total_sessions: if first {
                    (old(earnings).total_sessions + 1) as u64
                } else {
                    old(earnings).total_sessions
                },
                ..*old(earnings)
            })
            &&& *final(platform) == (Platform {
                total_revenue: (old(platform).total_revenue + fee) as u64,
                ..*old(platform)
            })
            &&& *final(viewer_account) == (TokenAccount {
                amount: (old(viewer_account).amount - total) as u64,
                delegated_amount: (old(viewer_account).delegated_amount - total) as u64,
            })
            &&& *final(creator_account) == (TokenAccount {
                amount: (old(creator_account).amount + owner_share) as u64,
                ..*old(creator_account)
            })
            &&& *final(platform_account) == (TokenAccount {
                amount: (old(platform_account).amount + fee) as u64,
                ..*old(platform_account)
            })
            &&& r->Ok_0 == (SessionSettled {
                viewer,
                video: old(video).key,
                chunk_count,
                total_payment: total as u64,
                platform_fee: fee as u64,
                creator_amount: owner_share as u64,
                chunks_consumed: consumed as u32,
                chunks_remaining: (old(session).max_approved_chunks - consumed) as u32,
                settlement_timestamp,
                timestamp: now,
            })
            &&& final(session).wf()
        }),
{
    if session.viewer != viewer {
        return Err(StreamingError::Unauthorized);
    }
    if session.video != video.key {
        return Err(StreamingError::InvalidSession);
    }
    if !video.is_active {
        return Err(StreamingError::VideoNotActive);
    }
    if earnings.creator != video.creator {
        return Err(StreamingError::Unauthorized);
    }
    if earnings.video != video.key {
        return Err(StreamingError::InvalidCreatorEarnings);
    }
    if chunk_count == 0 {
        return Err(StreamingError::InvalidChunkCount);
    }
    if session.is_expired(now) {
        return Err(StreamingError::SessionExpired);
    }
    if settlement_timestamp < session.session_start {
        return Err(StreamingError::SettlementTooOld);
    }
    if settlement_timestamp > now {
        return Err(StreamingError::SettlementInFuture);
    }
    let consumed_after_wide: u64 = session.chunks_consumed as u64 + chunk_count as u64;
    if consumed_after_wide > u32::MAX as u64 {
        return Err(StreamingError::ArithmeticOverflow);
    }
    if consumed_after_wide > session.max_approved_chunks as u64 {
        return Err(StreamingError::SettlementExceedsApproval);
    }
    let consumed_after: u32 = consumed_after_wide as u32;

    proof {
        vstd::arithmetic::mul::lemma_mul_upper_bound(
            session.approved_price_per_chunk as int,
            u64::MAX as int,
            chunk_count as int,
            u32::MAX as int,
        );
    }
    let total_wide: u128 = (session.approved_price_per_chunk as u128) * (chunk_count as u128);
    if total_wide > u64::MAX as u128 {
        return Err(StreamingError::ArithmeticOverflow);
    }
    let total: u64 = total_wide as u64;

    if viewer_account.amount < total {
        return Err(StreamingError::InsufficientBalance);
    }
    if viewer_account.delegated_amount < total {
        return Err(StreamingError::InsufficientApproval);
    }

    proof {
        lemma_fee_split(platform.platform_fee_basis_points, total);
    }
    let fee: u64 = match platform.calculate_platform_fee(total) {
        Ok(f) => f,
        Err(e) => {
            return Err(e);
        },
    };
    let owner_share: u64 = total - fee;

    let first: bool = session.chunks_consumed == 0;
    if creator_account.amount > u64::MAX - owner_share || platform_account.amount > u64::MAX - fee
        || session.total_spent > u64::MAX - total || video.total_chunks_served > u64::MAX
        - chunk_count as u64 || earnings.total_earned > u64::MAX - owner_share
        || earnings.total_chunks_sold > u64::MAX - chunk_count as u64 || (first
        && video.total_sessions == u64::MAX) || (first && earnings.total_sessions == u64::MAX)
        || platform.total_revenue > u64::MAX - fee {
        return Err(StreamingError::ArithmeticOverflow);
    }

    transfer_delegated(viewer_account, creator_account, owner_share);
    if fee > 0 {
        transfer_delegated(viewer_account, platform_account, fee);
    }

    session.chunks_consumed = consumed_after;
    session.total_spent = session.total_spent + total;
    session.last_activity = now;
    video.total_chunks_served = video.total_chunks_served + chunk_count as u64;
    earnings.total_earned = earnings.total_earned + owner_share;
    earnings.total_chunks_sold = earnings.total_chunks_sold + chunk_count as u64;
    if first {
        video.total_sessions = video.total_sessions + 1;
        earnings.total_sessions = earnings.total_sessions + 1;
    }
    platform.total_revenue = platform.total_revenue + fee;

    Ok(
        SessionSettled {
            viewer,
            video: video.key,
            chunk_count,
            total_payment: total,
            platform_fee: fee,
            creator_amount: owner_share,
            chunks_consumed: consumed_after,
            chunks_remaining: session.max_approved_chunks - consumed_after,
            settlement_timestamp,
            timestamp: now,
        },
    )
}

} // verus!
