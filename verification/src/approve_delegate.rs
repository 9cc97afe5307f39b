//! Authorization: opens a session or extends an existing one's ceiling,
//! and grants the platform delegate a spending allowance sized to the
//! whole outstanding obligation - the allowance replaces, never extends,
//! what was granted before.

use vstd::prelude::*;

use crate::constants::MAX_CHUNKS_PER_APPROVAL;
use crate::errors::StreamingError;
use crate::events::DelegationApproved;
use crate::state::Platform;
use crate::state::Video;
use crate::state::ViewerSession;
use crate::token::approve_delegate;
use crate::token::TokenAccount;

verus! {

/// The decision authorization takes on the given state: either the first
/// rejection in validation order, or permission to authorize.
///
/// A record whose start timestamp is zero counts as not yet opened and is
/// initialized; an opened one must still be inside both its expiry and
/// its activity windows to have its ceiling raised.
pub open spec fn approve_outcome(
    platform: Platform,
    video: Video,
    session: ViewerSession,
    viewer_account: TokenAccount,
    viewer: u64,
    max_chunks: u32,
    now: i64,
) -> Result<(), StreamingError> {
    let is_new = session.session_start == 0;
    let ceiling = if is_new {
        max_chunks as int
    } else {
        session.max_approved_chunks + max_chunks
    };
    let consumed = if is_new {
        0int
    } else {
        session.chunks_consumed as int
    };
    let amount = video.price_per_chunk * (ceiling - consumed);
    if !video.is_active {
        Err(StreamingError::VideoNotActive)
    } else if !is_new && (session.viewer != viewer || session.video != video.key) {
        Err(StreamingError::InvalidSession)
    } else if max_chunks == 0 || max_chunks > MAX_CHUNKS_PER_APPROVAL {
        Err(StreamingError::MaxChunksPerApprovalExceeded)
    } else if !is_new && session.spec_is_expired(now) {
        Err(StreamingError::SessionExpired)
    } else if !is_new && session.spec_is_inactive(now) {
        Err(StreamingError::SessionInactive)
    } else if (!is_new && ceiling > u32::MAX) || amount > u64::MAX || (is_new
        && platform.total_sessions + 1 > u64::MAX) {
        Err(StreamingError::ArithmeticOverflow)
    } else if viewer_account.amount < amount {
        Err(StreamingError::InsufficientBalanceForApproval)
    } else {
        Ok(())
    }
}

/// Opens or extends the viewer's session for `video` by `max_chunks`
/// authorized chunks.
///
/// On rejection nothing changes.  On success the session's ceiling
/// covers the request, its activity timestamp is fresh, and the viewer's
/// token account carries a delegated allowance of exactly
/// `(ceiling - consumed) * price` - the total outstanding obligation, not
/// the increment, because granting an allowance replaces the previous
/// one.  A new session locks the video's current price; an extended one
/// keeps its locked price while the allowance is sized at the current
/// one.
pub fn approve_streaming_delegate(
    platform: &mut Platform,
    video: &Video,
    session: &mut ViewerSession,
    viewer_account: &mut TokenAccount,
    viewer: u64,
    max_chunks: u32,
    now: i64,
) -> (r: Result<DelegationApproved, StreamingError>)
    requires
        old(session).wf(),
        0 <= now,
    ensures
        r is Ok <==> approve_outcome(
            *old(platform),
            *video,
            *old(session),
            *old(viewer_account),
            viewer,
            max_chunks,
            now,
        ) is Ok,
        r is Err ==> r->Err_0 == approve_outcome(
            *old(platform),
            *video,
            *old(session),
            *old(viewer_account),
            viewer,
            max_chunks,
            now,
        )->Err_0,
        r is Err ==> ({
            &&& *final(platform) == *old(platform)
            &&& *final(session) == *old(session)
            &&& *final(viewer_account) == *old(viewer_account)
        }),
        r is Ok ==> ({
            let is_new = old(session).session_start == 0;
            let ceiling = if is_new {
                max_chunks as int
            } else {
                old(session).max_approved_chunks + max_chunks
            };
            let consumed = if is_new {
                0int
            } else {
                old(session).chunks_consumed as int
            };
            let amount = video.price_per_chunk * (ceiling - consumed);
            &&& *final(session) == (if is_new {
                ViewerSession {
                    viewer,
                    video: video.key,
                    max_approved_chunks: max_chunks,
                    chunks_consumed: 0,
                    total_spent: 0,
                    approved_price_per_chunk: video.price_per_chunk,
                    last_paid_chunk_index: None,
                    session_start: now,
                    last_activity: now,
                }
            } else {
                ViewerSession {
                    max_approved_chunks: ceiling as u32,
                    last_activity: now,
                    ..*old(session)
                }
            })
            &&& *final(platform) == (Platform {
                total_sessions: if is_new {
                    (old(platform).total_sessions + 1) as u64
                } else {
                    old(platform).total_sessions
                },
                ..*old(platform)
            })
            &&& *final(viewer_account) == (TokenAccount {
                delegated_amount: amount as u64,
                ..*old(viewer_account)
            })
            &&& r->Ok_0 == (DelegationApproved {
                viewer,
                video: video.key,
                max_approved_chunks: ceiling as u32,
                locked_price_per_chunk: final(session).approved_price_per_chunk,
                is_reapproval: !is_new,
                timestamp: now,
            })
            &&& final(session).wf()
        }),
{
    if !video.is_active {
        return Err(StreamingError::VideoNotActive);
    }
    let is_new: bool = session.session_start == 0;
    if !is_new && (session.viewer != viewer || session.video != video.key) {
        return Err(StreamingError::InvalidSession);
    }
    if max_chunks == 0 || max_chunks > MAX_CHUNKS_PER_APPROVAL {
        return Err(StreamingError::MaxChunksPerApprovalExceeded);
    }

    let ceiling: u32;
    let consumed: u32;
    if is_new {
        ceiling = max_chunks;
        consumed = 0;
    } else {
        if session.is_expired(now) {
            return Err(StreamingError::SessionExpired);
        }
        if session.is_inactive(now) {
            return Err(StreamingError::SessionInactive);
        }
        let raised: u64 = session.max_approved_chunks as u64 + max_chunks as u64;
        if raised > u32::MAX as u64 {
            return Err(StreamingError::ArithmeticOverflow);
        }
        ceiling = raised as u32;
        consumed = session.chunks_consumed;
    }
    let remaining: u32 = ceiling - consumed;

    proof {
        vstd::arithmetic::mul::lemma_mul_upper_bound(
            video.price_per_chunk as int,
            u64::MAX as int,
            remaining as int,
            u32::MAX as int,
        );
    }
    let amount_wide: u128 = (video.price_per_chunk as u128) * (remaining as u128);
    if amount_wide > u64::MAX as u128 {
        return Err(StreamingError::ArithmeticOverflow);
    }
    let amount: u64 = amount_wide as u64;
    if is_new && platform.total_sessions == u64::MAX {
        return Err(StreamingError::ArithmeticOverflow);
    }
    if viewer_account.amount < amount {
        return Err(StreamingError::InsufficientBalanceForApproval);
    }

    if is_new {
        session.viewer = viewer;
        session.video = video.key;
        session.max_approved_chunks = max_chunks;
        session.chunks_consumed = 0;
        session.total_spent = 0;
        session.approved_price_per_chunk = video.price_per_chunk;
        session.last_paid_chunk_index = None;
        session.session_start = now;
        session.last_activity = now;
        platform.total_sessions = platform.total_sessions + 1;
    } else {
        session.max_approved_chunks = ceiling;
        session.last_activity = now;
    }
    approve_delegate(viewer_account, amount);

    Ok(
        DelegationApproved {
            viewer,
            video: video.key,
            max_approved_chunks: ceiling,
            locked_price_per_chunk: session.approved_price_per_chunk,
            is_reapproval: !is_new,
            timestamp: now,
        },
    )
}

} // verus!
