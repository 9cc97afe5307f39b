//! The persistent records: platform configuration, videos, viewing sessions
//! and creator earnings, together with the fee calculator and the derived
//! session-state predicates.

use vstd::prelude::*;

use crate::constants::BASIS_POINTS;
use crate::constants::MAX_DESCRIPTION_LENGTH;
use crate::constants::MAX_IPFS_HASH_LENGTH;
use crate::constants::MAX_PLATFORM_FEE_BPS;
use crate::constants::MAX_TITLE_LENGTH;
use crate::constants::MAX_TOTAL_CHUNKS;
use crate::constants::MAX_VIDEO_ID_LENGTH;
use crate::constants::SESSION_EXPIRY_DURATION;
use crate::constants::SESSION_INACTIVITY_DURATION;
use crate::errors::StreamingError;

verus! {

/// The platform fee for `amount` at `rate_bps` basis points:
/// `floor(amount * rate_bps / 10000)`.  Never rounds up.
pub open spec fn fee_amount(rate_bps: u16, amount: u64) -> int {
    (amount * rate_bps) / (BASIS_POINTS as int)
}

/// Fee split law: for any rate at or below 100%, the platform share is
/// non-negative and never exceeds the amount, so the owner share
/// `amount - fee` is well defined and the two shares reconstitute the
/// amount exactly.
pub proof fn lemma_fee_split(rate_bps: u16, amount: u64)
    requires
        rate_bps as u64 <= BASIS_POINTS,
    ensures
        0 <= fee_amount(rate_bps, amount) <= amount,
        fee_amount(rate_bps, amount) + (amount - fee_amount(rate_bps, amount)) == amount,
{
    let a = amount as int;
    let r = rate_bps as int;
    let b = BASIS_POINTS as int;
    vstd::arithmetic::mul::lemma_mul_nonnegative(a, r);
    vstd::arithmetic::div_mod::lemma_div_pos_is_pos(a * r, b);
    vstd::arithmetic::mul::lemma_mul_upper_bound(a, a, r, b);
    vstd::arithmetic::div_mod::lemma_div_is_ordered(a * r, a * b, b);
    vstd::arithmetic::div_mod::lemma_div_multiples_vanish(a, b);
    assert(a * b == b * a) by (nonlinear_arith);
}

/// Global platform configuration, created once, plus the running totals
/// that every settlement path increments.
#[derive(Clone, Debug, PartialEq, Eq)]
pub struct Platform {
    /// Identity of the controlling authority.
    pub authority: u64,
    /// Identity of the payment token all accounts must carry.
    pub token_mint: u64,
    /// Platform fee rate in basis points (250 = 2.5%).
    pub platform_fee_basis_points: u16,
    /// Lowest price per chunk a video may set.
    pub min_price_per_chunk: u64,
    /// Number of videos ever registered.
    pub total_videos: u64,
    /// Number of sessions ever opened.
    pub total_sessions: u64,
    /// Total platform fees ever collected.
    pub total_revenue: u64,
}

impl Platform {
    /// The configuration invariant: the fee rate stays below the
    /// administrative cap.
    pub open spec fn wf(self) -> bool {
        self.platform_fee_basis_points as u64 <= MAX_PLATFORM_FEE_BPS
    }

    /// Computes the platform's share of `amount` at this configuration's
    /// fee rate, rounding down, through a 128-bit intermediate so the
    /// multiplication cannot overflow; fails only if the narrowed result
    /// cannot fit, which cannot happen while the rate is at most 100%.
    pub fn calculate_platform_fee(&self, amount: u64) -> (r: Result<u64, StreamingError>)
        ensures
            r is Ok <==> fee_amount(self.platform_fee_basis_points, amount) <= u64::MAX,
            r is Ok ==> r->Ok_0 == fee_amount(self.platform_fee_basis_points, amount),
            r is Err ==> r->Err_0 == StreamingError::ArithmeticOverflow,
            self.platform_fee_basis_points as u64 <= BASIS_POINTS ==> r is Ok,
    {
        proof {
            vstd::arithmetic::mul::lemma_mul_upper_bound(
                amount as int,
                u64::MAX as int,
                self.platform_fee_basis_points as int,
                u16::MAX as int,
            );
            if self.platform_fee_basis_points as u64 <= BASIS_POINTS {
                lemma_fee_split(self.platform_fee_basis_points, amount);
            }
        }
        let wide: u128 = (amount as u128) * (self.platform_fee_basis_points as u128);
        let fee: u128 = wide / (BASIS_POINTS as u128);
        if fee > u64::MAX as u128 {
            Err(StreamingError::ArithmeticOverflow)
        } else {
            Ok(fee as u64)
        }
    }
}

/// A registered video: its owner, content pointer, pricing, activation
/// flag and serving statistics.
#[derive(Clone, Debug, PartialEq, Eq)]
pub struct Video {
    /// The video's own record identity, derived from its identifier.
    pub key: u64,
    /// Identity of the video's creator, the only one who may update it.
    pub creator: u64,
    /// Caller-supplied unique identifier, at most 64 bytes.
    pub video_id: Vec<u8>,
    /// Content pointer (an IPFS CID), at most 128 bytes.
    pub ipfs_hash: Vec<u8>,
    /// Number of chunks the video consists of.
    pub total_chunks: u32,
    /// Current price per chunk in payment tokens.
    pub price_per_chunk: u64,
    /// Title, at most 200 bytes.
    pub title: Vec<u8>,
    /// Description, at most 1000 bytes.
    pub description: Vec<u8>,
    /// Whether the video can currently be streamed.
    pub is_active: bool,
    /// Number of sessions that ever consumed a first chunk of this video.
    pub total_sessions: u64,
    /// Total chunks ever paid for across all sessions.
    pub total_chunks_served: u64,
    /// When the video was registered.
    pub created_at: i64,
}

impl Video {
    /// The record bounds: text fields and the chunk count stay within the
    /// limits that keep emitted audit records within transport size.
    pub open spec fn bounds_ok(self) -> bool {
        &&& self.video_id@.len() <= MAX_VIDEO_ID_LENGTH
        &&& self.ipfs_hash@.len() <= MAX_IPFS_HASH_LENGTH
        &&& self.title@.len() <= MAX_TITLE_LENGTH
        &&& self.description@.len() <= MAX_DESCRIPTION_LENGTH
        &&& self.total_chunks <= MAX_TOTAL_CHUNKS
    }

    /// Checks every record bound, reporting the first violated one.
    pub fn validate(&self) -> (r: Result<(), StreamingError>)
        ensures
            r is Ok <==> self.bounds_ok(),
            self.video_id@.len() > MAX_VIDEO_ID_LENGTH ==> r == Err::<(), StreamingError>(
                StreamingError::VideoIdTooLong,
            ),
            self.video_id@.len() <= MAX_VIDEO_ID_LENGTH && self.ipfs_hash@.len()
                > MAX_IPFS_HASH_LENGTH ==> r == Err::<(), StreamingError>(
                StreamingError::IpfsHashTooLong,
            ),
            self.video_id@.len() <= MAX_VIDEO_ID_LENGTH && self.ipfs_hash@.len()
                <= MAX_IPFS_HASH_LENGTH && self.title@.len() > MAX_TITLE_LENGTH ==> r == Err::<
                (),
                StreamingError,
            >(StreamingError::TitleTooLong),
            self.video_id@.len() <= MAX_VIDEO_ID_LENGTH && self.ipfs_hash@.len()
                <= MAX_IPFS_HASH_LENGTH && self.title@.len() <= MAX_TITLE_LENGTH
                && self.description@.len() > MAX_DESCRIPTION_LENGTH ==> r == Err::<
                (),
                StreamingError,
            >(StreamingError::DescriptionTooLong),
            self.video_id@.len() <= MAX_VIDEO_ID_LENGTH && self.ipfs_hash@.len()
                <= MAX_IPFS_HASH_LENGTH && self.title@.len() <= MAX_TITLE_LENGTH
                && self.description@.len() <= MAX_DESCRIPTION_LENGTH && self.total_chunks
                > MAX_TOTAL_CHUNKS ==> r == Err::<(), StreamingError>(StreamingError::TooManyChunks),
    {
        if self.video_id.len() > MAX_VIDEO_ID_LENGTH {
            Err(StreamingError::VideoIdTooLong)
        } else if self.ipfs_hash.len() > MAX_IPFS_HASH_LENGTH {
            Err(StreamingError::IpfsHashTooLong)
        } else if self.title.len() > MAX_TITLE_LENGTH {
            Err(StreamingError::TitleTooLong)
        } else if self.description.len() > MAX_DESCRIPTION_LENGTH {
            Err(StreamingError::DescriptionTooLong)
        } else if self.total_chunks > MAX_TOTAL_CHUNKS {
            Err(StreamingError::TooManyChunks)
        } else {
            Ok(())
        }
    }
}

/// Per-viewer, per-video session state: the authorized ceiling, the
/// consumption counters, the price locked at authorization time and the
/// timestamps the derived expiry and inactivity states are computed from.
#[derive(Clone, Debug, PartialEq, Eq)]
pub struct ViewerSession {
    /// Identity of the viewer's wallet.
    pub viewer: u64,
    /// Identity of the video being watched.
    pub video: u64,
    /// Cumulative ceiling of chunks the viewer authorized.
    pub max_approved_chunks: u32,
    /// Chunks already paid for; never exceeds the ceiling.
    pub chunks_consumed: u32,
    /// Total tokens spent over the session's lifetime.
    pub total_spent: u64,
    /// Price per chunk locked when the session was first authorized.
    pub approved_price_per_chunk: u64,
    /// Index of the last chunk paid on the sequential path; `None` until
    /// the first chunk is paid.  Batch settlement never advances this.
    pub last_paid_chunk_index: Option<u32>,
    /// When the session was opened.
    pub session_start: i64,
    /// When the session last saw an authorization or payment.
    pub last_activity: i64,
}

impl ViewerSession {
    /// The session invariant: consumption never exceeds the authorized
    /// ceiling, and the stored timestamps are proper points in time.
    pub open spec fn wf(self) -> bool {
        &&& self.chunks_consumed <= self.max_approved_chunks
        &&& 0 <= self.session_start
        &&& 0 <= self.last_activity
    }

    /// A session not yet opened: every counter and timestamp at zero.
    /// Authorization recognizes such a record by its zero start time and
    /// initializes it.
    pub fn new_unopened() -> (s: ViewerSession)
        ensures
            s == (ViewerSession {
                viewer: 0,
                video: 0,
                max_approved_chunks: 0,
                chunks_consumed: 0,
                total_spent: 0,
                approved_price_per_chunk: 0,
                last_paid_chunk_index: None,
                session_start: 0,
                last_activity: 0,
            }),
    {
        ViewerSession {
            viewer: 0,
            video: 0,
            max_approved_chunks: 0,
            chunks_consumed: 0,
            total_spent: 0,
            approved_price_per_chunk: 0,
            last_paid_chunk_index: None,
            session_start: 0,
            last_activity: 0,
        }
    }

    /// Derived terminal state: more than the expiry window has passed
    /// since the session was opened.
    pub open spec fn spec_is_expired(self, current_time: i64) -> bool {
        current_time - self.session_start > SESSION_EXPIRY_DURATION
    }

    /// Derived state: more than the inactivity window has passed since
    /// the session's last activity.
    pub open spec fn spec_is_inactive(self, current_time: i64) -> bool {
        current_time - self.last_activity > SESSION_INACTIVITY_DURATION
    }

    /// Whether any authorized chunks remain to consume.
    pub open spec fn spec_has_approval_remaining(self) -> bool {
        self.chunks_consumed < self.max_approved_chunks
    }

    /// Whether `chunk_index` is the exact successor of the last paid
    /// chunk: the first payment must be for index 0, every later one for
    /// the previous index plus one.
    pub open spec fn spec_is_next_chunk_sequential(self, chunk_index: u32) -> bool {
        match self.last_paid_chunk_index {
            None => chunk_index == 0,
            Some(last) => chunk_index == last + 1,
        }
    }

    /// Evaluates the expiry predicate against the given clock reading.
    pub fn is_expired(&self, current_time: i64) -> (r: bool)
        requires
            0 <= self.session_start,
            0 <= current_time,
        ensures
            r == self.spec_is_expired(current_time),
    {
        current_time - self.session_start > SESSION_EXPIRY_DURATION
    }

    /// Evaluates the inactivity predicate against the given clock reading.
    pub fn is_inactive(&self, current_time: i64) -> (r: bool)
        requires
            0 <= self.last_activity,
            0 <= current_time,
        ensures
            r == self.spec_is_inactive(current_time),
    {
        current_time - self.last_activity > SESSION_INACTIVITY_DURATION
    }

    /// Whether any authorized chunks remain to consume.
    pub fn has_approval_remaining(&self) -> (r: bool)
        ensures
            r == self.spec_has_approval_remaining(),
    {
        self.chunks_consumed < self.max_approved_chunks
    }

    /// Whether `chunk_index` continues the strict sequence of paid
    /// chunks.
    pub fn is_next_chunk_sequential(&self, chunk_index: u32) -> (r: bool)
        ensures
            r == self.spec_is_next_chunk_sequential(chunk_index),
    {
        match self.last_paid_chunk_index {
            None => chunk_index == 0,
            Some(last) => chunk_index as u64 == last as u64 + 1,
        }
    }

    /// Records one sequentially paid chunk: refreshes the activity
    /// timestamp, counts the chunk and advances the sequential marker.
    pub fn update_activity(&mut self, current_time: i64, chunk_index: u32)
        requires
            old(self).chunks_consumed < u32::MAX,
        ensures
            *final(self) == (ViewerSession {
                chunks_consumed: (old(self).chunks_consumed + 1) as u32,
                last_paid_chunk_index: Some(chunk_index),
                last_activity: current_time,
                ..*old(self)
            }),
    {
        self.last_activity = current_time;
        self.chunks_consumed = self.chunks_consumed + 1;
        self.last_paid_chunk_index = Some(chunk_index);
    }
}

/// Cumulative earnings of one creator for one video, mutated only by the
/// settlement paths.
#[derive(Clone, Debug, PartialEq, Eq)]
pub struct CreatorEarnings {
    /// Identity of the creator the earnings belong to.
    pub creator: u64,
    /// Identity of the video the earnings were made on.
    pub video: u64,
    /// Total tokens earned, net of platform fees.
    pub total_earned: u64,
    /// Number of sessions that ever paid for a first chunk.
    pub total_sessions: u64,
    /// Total chunks ever sold.
    pub total_chunks_sold: u64,
}

} // verus!
