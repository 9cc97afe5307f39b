//! Revocation: withdraws the platform's remaining spending allowance
//! over the viewer's token account without touching the session's
//! counters.

use vstd::prelude::*;

use crate::errors::StreamingError;
use crate::events::DelegationRevoked;
use crate::state::ViewerSession;
use crate::token::revoke_delegate;
use crate::token::TokenAccount;

verus! {

/// Withdraws the whole outstanding delegated allowance on `viewer`'s
/// token account.
///
/// Only the session's own viewer may revoke.  On success the allowance
/// is zero, the balance and every session counter are untouched, and the
/// audit record carries the session's final consumed and spent totals.
pub fn revoke_streaming_delegate(
    session: &ViewerSession,
    viewer_account: &mut TokenAccount,
    viewer: u64,
    now: i64,
) -> (r: Result<DelegationRevoked, StreamingError>)
    ensures
        r is Ok <==> session.viewer == viewer,
        r is Err ==> r->Err_0 == StreamingError::Unauthorized && *final(viewer_account) == *old(
            viewer_account,
        ),
        r is Ok ==> ({
            &&& *final(viewer_account) == (TokenAccount {
                delegated_amount: 0,
                ..*old(viewer_account)
            })
            &&& r->Ok_0 == (DelegationRevoked {
                viewer,
                video: session.video,
                chunks_consumed: session.chunks_consumed,
                total_spent: session.total_spent,
                timestamp: now,
            })
        }),
{
    if session.viewer != viewer {
        return Err(StreamingError::Unauthorized);
    }
    revoke_delegate(viewer_account);
    Ok(
        DelegationRevoked {
            viewer,
            video: session.video,
            chunks_consumed: session.chunks_consumed,
            total_spent: session.total_spent,
            timestamp: now,
        },
    )
}

} // verus!
