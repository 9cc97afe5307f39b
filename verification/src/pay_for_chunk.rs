//! Single-chunk settlement: validates and prices exactly one chunk of
//! consumption, enforcing strict sequential ordering, then splits the
//! payment between creator and platform and updates every counter, all or
//! nothing.

use vstd::prelude::*;

use crate::errors::StreamingError;
use crate::events::ChunkPaid;
use crate::state::fee_amount;
use crate::state::lemma_fee_split;
use crate::state::CreatorEarnings;
use crate::state::Platform;
use crate::state::Video;
use crate::state::ViewerSession;
use crate::token::transfer_delegated;
use crate::token::TokenAccount;

verus! {

/// The decision single-chunk settlement takes on the given state: either
/// the first rejection in validation order, or permission to settle.
///
/// Validation order: record association and ownership first, then the
/// session's derived state, the chunk bounds and remaining authorization,
/// the strict-sequence rule, the price lock, the viewer's balance and
/// allowance, and finally every checked addition the commit will perform.
pub open spec fn pay_outcome(
    platform: Platform,
    video: Video,
    session: ViewerSession,
    earnings: CreatorEarnings,
    viewer_account: TokenAccount,
    creator_account: TokenAccount,
    platform_account: TokenAccount,
    viewer: u64,
    chunk_index: u32,
    now: i64,
) -> Result<(), StreamingError> {
    let price = video.price_per_chunk;
    let fee = fee_amount(platform.platform_fee_basis_points, price);
    let owner_share = price - fee;
    let first = session.chunks_consumed == 0;
    if session.viewer != viewer {
        Err(StreamingError::Unauthorized)
    } else if session.video != video.key {
        Err(StreamingError::InvalidSession)
    } else if !video.is_active {
        Err(StreamingError::VideoNotActive)
    } else if earnings.creator != video.creator {
        Err(StreamingError::Unauthorized)
    } else if earnings.video != video.key {
        Err(StreamingError::InvalidCreatorEarnings)
    } else if session.spec_is_expired(now) {
        Err(StreamingError::SessionExpired)
    } else if session.spec_is_inactive(now) {
        Err(StreamingError::SessionInactive)
    } else if chunk_index >= video.total_chunks {
        Err(StreamingError::InvalidChunkIndex)
    } else if !session.spec_has_approval_remaining() {
        Err(StreamingError::InsufficientApproval)
    } else if !session.spec_is_next_chunk_sequential(chunk_index) {
        Err(StreamingError::OutOfSequenceChunk)
    } else if price != session.approved_price_per_chunk {
        Err(StreamingError::PriceChangedSinceApproval)
    } else if viewer_account.amount < price {
        Err(StreamingError::InsufficientBalance)
    } else if viewer_account.delegated_amount < price {
        Err(StreamingError::InsufficientApproval)
    } else if creator_account.amount + owner_share > u64::MAX || platform_account.amount + fee
        > u64::MAX || session.total_spent + price > u64::MAX || video.total_chunks_served + 1
        > u64::MAX || earnings.total_earned + owner_share > u64::MAX || earnings.total_chunks_sold
        + 1 > u64::MAX || (first && video.total_sessions + 1 > u64::MAX) || (first
        && earnings.total_sessions + 1 > u64::MAX) || platform.total_revenue + fee > u64::MAX {
        Err(StreamingError::ArithmeticOverflow)
    } else {
        Ok(())
    }
}

/// Settles exactly one chunk of consumption for `viewer`.
///
/// On rejection nothing changes.  On success the chunk's price, locked at
/// authorization time, is split into the platform fee and the creator's
/// share, both moved under the platform's delegated allowance; the
/// session counts the chunk and advances its sequential marker, and the
/// video's, creator's and platform's running totals all advance together.
pub fn pay_for_chunk(
    platform: &mut Platform,
    video: &mut Video,
    session: &mut ViewerSession,
    earnings: &mut CreatorEarnings,
    viewer_account: &mut TokenAccount,
    creator_account: &mut TokenAccount,
    platform_account: &mut TokenAccount,
    viewer: u64,
    chunk_index: u32,
    now: i64,
) -> (r: Result<ChunkPaid, StreamingError>)
    requires
        old(platform).wf(),
        old(session).wf(),
        0 <= now,
    ensures
        r is Ok <==> pay_outcome(
            *old(platform),
            *old(video),
            *old(session),
            *old(earnings),
            *old(viewer_account),
            *old(creator_account),
            *old(platform_account),
            viewer,
            chunk_index,
            now,
        ) is Ok,
        r is Err ==> r->Err_0 == pay_outcome(
            *old(platform),
            *old(video),
            *old(session),
            *old(earnings),
            *old(viewer_account),
            *old(creator_account),
            *old(platform_account),
            viewer,
            chunk_index,
            now,
        )->Err_0,
        r is Err ==> ({
            &&& *final(platform) == *old(platform)
            &&& *final(video) == *old(video)
            &&& *final(session) == *old(session)
            &&& *final(earnings) == *old(earnings)
            &&& *final(viewer_account) == *old(viewer_account)
            &&& *final(creator_account) == *old(creator_account)
            &&& *final(platform_account) == *old(platform_account)
        }),
        r is Ok ==> ({
            let price = old(video).price_per_chunk;
            let fee = fee_amount(old(platform).platform_fee_basis_points, price);
            let owner_share = price - fee;
            let first = old(session).chunks_consumed == 0;
            let consumed = old(session).chunks_consumed + 1;
            &&& *final(session) == (ViewerSession {
                chunks_consumed: consumed as u32,
                total_spent: (old(session).total_spent + price) as u64,
                last_paid_chunk_index: Some(chunk_index),
                last_activity: now,
                ..*old(session)
            })
            &&& *final(video) == (Video {
                total_chunks_served: (old(video).total_chunks_served + 1) as u64,
                total_sessions: if first {
                    (old(video).total_sessions + 1) as u64
                } else {
                    old(video).total_sessions
                },
                ..*old(video)
            })
            &&& *final(earnings) == (CreatorEarnings {
                total_earned: (old(earnings).total_earned + owner_share) as u64,
                total_chunks_sold: (old(earnings).total_chunks_sold + 1) as u64,
                total_sessions: if first {
                    (old(earnings).total_sessions + 1) as u64
                } else {
                    old(earnings).total_sessions
                },
                ..*old(earnings)
            })
            &&& *final(platform) == (Platform {
                total_revenue: (old(platform).total_revenue + fee) as u64,
                ..*old(platform)
            })
            &&& *final(viewer_account) == (TokenAccount {
                amount: (old(viewer_account).amount - price) as u64,
                delegated_amount: (old(viewer_account).delegated_amount - price) as u64,
            })
            &&& *final(creator_account) == (TokenAccount {
                amount: (old(creator_account).amount + owner_share) as u64,
                ..*old(creator_account)
            })
            &&& *final(platform_account) == (TokenAccount {
                amount: (old(platform_account).amount + fee) as u64,
                ..*old(platform_account)
            })
            &&& r->Ok_0 == (ChunkPaid {
                viewer,
                video: old(video).key,
                creator: old(video).creator,
                chunk_index,
                payment_sequence: consumed as u32,
                amount_paid: price,
                platform_fee: fee as u64,
                creator_amount: owner_share as u64,
                chunks_remaining: (old(session).max_approved_chunks - consumed) as u32,
                timestamp: now,
            })
            &&& final(session).wf()
        }),
{
    if session.viewer != viewer {
        return Err(StreamingError::Unauthorized);
    }
    if session.video != video.key {
        return Err(StreamingError::InvalidSession);
    }
    if !video.is_active {
        return Err(StreamingError::VideoNotActive);
    }
    if earnings.creator != video.creator {
        return Err(StreamingError::Unauthorized);
    }
    if earnings.video != video.key {
        return Err(StreamingError::InvalidCreatorEarnings);
    }
    if session.is_expired(now) {
        return Err(StreamingError::SessionExpired);
    }
    if session.is_inactive(now) {
        return Err(StreamingError::SessionInactive);
    }
    if chunk_index >= video.total_chunks {
        return Err(StreamingError::InvalidChunkIndex);
    }
    if !session.has_approval_remaining() {
        return Err(StreamingError::InsufficientApproval);
    }
    if !session.is_next_chunk_sequential(chunk_index) {
        return Err(StreamingError::OutOfSequenceChunk);
    }
    let price = video.price_per_chunk;
    if price != session.approved_price_per_chunk {
        return Err(StreamingError::PriceChangedSinceApproval);
    }
    if viewer_account.amount < price {
        return Err(StreamingError::InsufficientBalance);
    }
    if viewer_account.delegated_amount < price {
        return Err(StreamingError::InsufficientApproval);
    }

    proof {
        lemma_fee_split(platform.platform_fee_basis_points, price);
    }
    let fee: u64 = match platform.calculate_platform_fee(price) {
        Ok(f) => f,
        Err(e) => {
            return Err(e);
        },
    };
    let owner_share: u64 = price - fee;

    let first: bool = session.chunks_consumed == 0;
    if creator_account.amount > u64::MAX - owner_share || platform_account.amount > u64::MAX - fee
        || session.total_spent > u64::MAX - price || video.total_chunks_served == u64::MAX
        || earnings.total_earned > u64::MAX - owner_share || earnings.total_chunks_sold == u64::MAX
        || (first && video.total_sessions == u64::MAX) || (first && earnings.total_sessions
        == u64::MAX) || platform.total_revenue > u64::MAX - fee {
        return Err(StreamingError::ArithmeticOverflow);
    }

    transfer_delegated(viewer_account, creator_account, owner_share);
    if fee > 0 {
        transfer_delegated(viewer_account, platform_account, fee);
    }

    session.update_activity(now, chunk_index);
    session.total_spent = session.total_spent + price;
    video.total_chunks_served = video.total_chunks_served + 1;
    earnings.total_earned = earnings.total_earned + owner_share;
    earnings.total_chunks_sold = earnings.total_chunks_sold + 1;
    if first {
        video.total_sessions = video.total_sessions + 1;
        earnings.total_sessions = earnings.total_sessions + 1;
    }
    platform.total_revenue = platform.total_revenue + fee;

    Ok(
        ChunkPaid {
            viewer,
            video: video.key,
            creator: video.creator,
            chunk_index,
            payment_sequence: session.chunks_consumed,
            amount_paid: price,
            platform_fee: fee,
            creator_amount: owner_share,
            chunks_remaining: session.max_approved_chunks - session.chunks_consumed,
            timestamp: now,
        },
    )
}

} // verus!
