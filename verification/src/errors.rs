//! The error taxonomy: every rejected precondition maps to a distinct kind.
//!
//! Errors are synchronous and typed; an operation that returns one of these
//! has changed no state at all.

use vstd::prelude::*;

verus! {

/// Every way an operation of this crate can be rejected.
#[derive(Clone, Copy, Debug, PartialEq, Eq)]
pub enum StreamingError {
    /// A video identifier exceeds its maximum byte length.
    VideoIdTooLong,
    /// A content pointer exceeds its maximum byte length.
    IpfsHashTooLong,
    /// A title exceeds its maximum byte length.
    TitleTooLong,
    /// A description exceeds its maximum byte length.
    DescriptionTooLong,
    /// A chunk count is outside the allowed range for a video.
    TooManyChunks,
    /// A price per chunk is below the platform minimum.
    PriceTooLow,
    /// The video is not active.
    VideoNotActive,
    /// A chunk index is out of bounds for the video.
    InvalidChunkIndex,
    /// No authorized chunks remain, or the delegated allowance cannot cover
    /// the payment.
    InsufficientApproval,
    /// Chunks must be paid strictly in sequence.
    OutOfSequenceChunk,
    /// The session passed its expiry window.
    SessionExpired,
    /// The session passed its inactivity window.
    SessionInactive,
    /// The video's price changed since authorization; re-authorization is
    /// required.
    PriceChangedSinceApproval,
    /// A single authorization asked for more chunks than allowed, or none.
    MaxChunksPerApprovalExceeded,
    /// A token account does not carry the platform's payment token.
    InvalidTokenMint,
    /// An update call carried no field to update.
    NoUpdateProvided,
    /// A platform fee rate exceeds the administrative maximum.
    PlatformFeeTooHigh,
    /// A checked arithmetic operation overflowed.
    ArithmeticOverflow,
    /// The caller does not own the record it tried to touch.
    Unauthorized,
    /// A video with this identifier already exists.
    VideoAlreadyExists,
    /// A session record does not belong to the video it was presented with.
    InvalidSession,
    /// There is no active delegation to revoke.
    NoDelegationToRevoke,
    /// A platform fee account is not owned by the platform authority.
    InvalidPlatformAccount,
    /// The viewer's balance cannot cover the requested authorization.
    InsufficientBalanceForApproval,
    /// The viewer's balance cannot cover a payment.
    InsufficientBalance,
    /// An earnings record does not belong to the video it was presented with.
    InvalidCreatorEarnings,
    /// A session record is in a state that forbids re-initialization.
    InvalidSessionState,
    /// Platform initialization was attempted by someone other than the
    /// controlling authority.
    UnauthorizedPlatformInitialization,
    /// A batch settlement reported zero chunks.
    InvalidChunkCount,
    /// A batch settlement was reported for a time before the session opened.
    SettlementTooOld,
    /// A batch settlement was reported for a future time.
    SettlementInFuture,
    /// A batch settlement would push consumption above the authorized
    /// ceiling.
    SettlementExceedsApproval,
}

} // verus!
