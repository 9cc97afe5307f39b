//! Closure: final accounting for a session record about to be destroyed
//! at its viewer's request.
//!
//! The record's storage is reclaimed by whoever holds it; this operation
//! authorizes the teardown and produces the closing audit record.  A
//! second closure of the same session fails at the store, because the
//! record no longer exists.

use vstd::prelude::*;

use crate::errors::StreamingError;
use crate::events::SessionClosed;
use crate::state::ViewerSession;

verus! {

/// Authorizes tearing down `session` and reports its final totals.
///
/// Only the session's own viewer may close it; on success the caller
/// must drop the record and return its storage cost to the viewer.
pub fn close_viewer_session(session: &ViewerSession, viewer: u64, now: i64) -> (r: Result<
    SessionClosed,
    StreamingError,
>)
    ensures
        r is Ok <==> session.viewer == viewer,
        r is Err ==> r->Err_0 == StreamingError::Unauthorized,
        r is Ok ==> r->Ok_0 == (SessionClosed {
            viewer,
            video: session.video,
            chunks_consumed: session.chunks_consumed,
            total_spent: session.total_spent,
            timestamp: now,
        }),
{
    if session.viewer != viewer {
        return Err(StreamingError::Unauthorized);
    }
    Ok(
        SessionClosed {
            viewer,
            video: session.video,
            chunks_consumed: session.chunks_consumed,
            total_spent: session.total_spent,
            timestamp: now,
        },
    )
}

} // verus!
