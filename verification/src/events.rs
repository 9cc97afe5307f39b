//! Audit records.  Every successful operation returns one of these
//! immutable records for the caller's audit trail; the core never reads
//! them back.

use vstd::prelude::*;

verus! {

/// Emitted once, when the platform configuration is created.
#[derive(Clone, Debug, PartialEq, Eq)]
pub struct PlatformInitialized {
    /// Identity of the payment token the platform settles in.
    pub token_mint: u64,
    /// Configured platform fee rate in basis points.
    pub platform_fee_basis_points: u16,
    /// Configured minimum price per chunk.
    pub min_price_per_chunk: u64,
    /// When the platform was initialized.
    pub timestamp: i64,
}

/// Emitted when a new video is registered.
#[derive(Clone, Debug, PartialEq, Eq)]
pub struct VideoCreated {
    /// The video's record identity.
    pub video: u64,
    /// Identity of the video's creator.
    pub creator: u64,
    /// Caller-supplied unique identifier.
    pub video_id: Vec<u8>,
    /// Content pointer (an IPFS CID).
    pub ipfs_hash: Vec<u8>,
    /// Number of chunks the video consists of.
    pub total_chunks: u32,
    /// Price per chunk at registration.
    pub price_per_chunk: u64,
    /// Title of the video.
    pub title: Vec<u8>,
    /// When the video was registered.
    pub timestamp: i64,
}

/// Emitted when a video's price or activation flag is updated.
#[derive(Clone, Debug, PartialEq, Eq)]
pub struct VideoUpdated {
    /// The video's record identity.
    pub video: u64,
    /// Identity of the video's creator.
    pub creator: u64,
    /// The new price per chunk, if it was updated.
    pub price_per_chunk: Option<u64>,
    /// The new activation flag, if it was updated.
    pub is_active: Option<bool>,
    /// When the update happened.
    pub timestamp: i64,
}

/// Emitted when spending authority is granted or re-granted.
#[derive(Clone, Debug, PartialEq, Eq)]
pub struct DelegationApproved {
    /// Identity of the viewer's wallet.
    pub viewer: u64,
    /// The video's record identity.
    pub video: u64,
    /// The session's authorized ceiling after this call.
    pub max_approved_chunks: u32,
    /// The price per chunk locked into the session.
    pub locked_price_per_chunk: u64,
    /// Whether this extended an existing session rather than opening one.
    pub is_reapproval: bool,
    /// When the authorization happened.
    pub timestamp: i64,
}

/// Emitted for every sequentially paid chunk.
#[derive(Clone, Debug, PartialEq, Eq)]
pub struct ChunkPaid {
    /// Identity of the viewer's wallet.
    pub viewer: u64,
    /// The video's record identity.
    pub video: u64,
    /// Identity of the video's creator.
    pub creator: u64,
    /// Index of the paid chunk.
    pub chunk_index: u32,
    /// Position of this payment in the session's sequence, counting from
    /// one.
    pub payment_sequence: u32,
    /// Tokens paid for the chunk, before the split.
    pub amount_paid: u64,
    /// The platform's share of the payment.
    pub platform_fee: u64,
    /// The creator's share of the payment.
    pub creator_amount: u64,
    /// Authorized chunks remaining after this payment.
    pub chunks_remaining: u32,
    /// When the payment happened.
    pub timestamp: i64,
}

/// Emitted when a viewer withdraws the platform's spending allowance.
#[derive(Clone, Debug, PartialEq, Eq)]
pub struct DelegationRevoked {
    /// Identity of the viewer's wallet.
    pub viewer: u64,
    /// The video's record identity.
    pub video: u64,
    /// Chunks the session had consumed when the allowance was revoked.
    pub chunks_consumed: u32,
    /// Tokens the session had spent when the allowance was revoked.
    pub total_spent: u64,
    /// When the revocation happened.
    pub timestamp: i64,
}

/// Emitted when a session record is destroyed at its viewer's request.
#[derive(Clone, Debug, PartialEq, Eq)]
pub struct SessionClosed {
    /// Identity of the viewer's wallet.
    pub viewer: u64,
    /// The video's record identity.
    pub video: u64,
    /// Final count of chunks the session consumed.
    pub chunks_consumed: u32,
    /// Final total of tokens the session spent.
    pub total_spent: u64,
    /// When the session was closed.
    pub timestamp: i64,
}

/// Emitted when a session is found to have left its usable window.
#[derive(Clone, Debug, PartialEq, Eq)]
pub struct SessionExpired {
    /// Identity of the viewer's wallet.
    pub viewer: u64,
    /// The video's record identity.
    pub video: u64,
    /// Why the session left its window: expiry or inactivity.
    pub reason: Vec<u8>,
    /// When the state was observed.
    pub timestamp: i64,
}

/// Emitted for every batch settlement of off-session-reported chunks.
#[derive(Clone, Debug, PartialEq, Eq)]
pub struct SessionSettled {
    /// Identity of the viewer's wallet.
    pub viewer: u64,
    /// The video's record identity.
    pub video: u64,
    /// Number of chunks in this settlement batch.
    pub chunk_count: u32,
    /// Tokens paid for the batch, before the split.
    pub total_payment: u64,
    /// The platform's share of the payment.
    pub platform_fee: u64,
    /// The creator's share of the payment.
    pub creator_amount: u64,
    /// Total chunks the session has consumed after this settlement.
    pub chunks_consumed: u32,
    /// Authorized chunks remaining after this settlement.
    pub chunks_remaining: u32,
    /// When the batch was reported to have been consumed.
    pub settlement_timestamp: i64,
    /// When the settlement was processed.
    pub timestamp: i64,
}

} // verus!
