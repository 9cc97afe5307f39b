//! Video registration: validates every record bound before anything is
//! created, then builds the video and its earnings record and counts the
//! video in the platform totals.

use vstd::prelude::*;
use vstd::slice::slice_to_vec;

use crate::constants::MAX_DESCRIPTION_LENGTH;
use crate::constants::MAX_IPFS_HASH_LENGTH;
use crate::constants::MAX_TITLE_LENGTH;
use crate::constants::MAX_TOTAL_CHUNKS;
use crate::constants::MAX_VIDEO_ID_LENGTH;
use crate::errors::StreamingError;
use crate::events::VideoCreated;
use crate::state::CreatorEarnings;
use crate::state::Platform;
use crate::state::Video;

verus! {

/// The decision registration takes on the given inputs: either the first
/// rejection in validation order, or permission to register.
///
/// The byte-length bounds keep the emitted audit record within transport
/// size; a violated bound rejects the call, never truncates a field.
pub open spec fn create_video_outcome(
    platform: Platform,
    video_id: Seq<u8>,
    ipfs_hash: Seq<u8>,
    total_chunks: u32,
    price_per_chunk: u64,
    title: Seq<u8>,
    description: Seq<u8>,
) -> Result<(), StreamingError> {
    if video_id.len() > MAX_VIDEO_ID_LENGTH {
        Err(StreamingError::VideoIdTooLong)
    } else if ipfs_hash.len() > MAX_IPFS_HASH_LENGTH {
        Err(StreamingError::IpfsHashTooLong)
    } else if title.len() > MAX_TITLE_LENGTH {
        Err(StreamingError::TitleTooLong)
    } else if description.len() > MAX_DESCRIPTION_LENGTH {
        Err(StreamingError::DescriptionTooLong)
    } else if total_chunks < 1 || total_chunks > MAX_TOTAL_CHUNKS {
        Err(StreamingError::TooManyChunks)
    } else if price_per_chunk < platform.min_price_per_chunk {
        Err(StreamingError::PriceTooLow)
    } else if platform.total_videos + 1 > u64::MAX {
        Err(StreamingError::ArithmeticOverflow)
    } else {
        Ok(())
    }
}

/// Registers a new video under the record identity `key` and creates its
/// earnings record.
///
/// On rejection nothing changes.  On success the returned video is
/// active, carries the given metadata unchanged and starts with zeroed
/// serving statistics; the earnings record starts at zero; the platform's
/// video count advances by one; and the audit record repeats the
/// registered identifier, content pointer and title.
pub fn create_video(
    platform: &mut Platform,
    creator: u64,
    key: u64,
    video_id: Vec<u8>,
    ipfs_hash: Vec<u8>,
    total_chunks: u32,
    price_per_chunk: u64,
    title: Vec<u8>,
    description: Vec<u8>,
    now: i64,
) -> (r: Result<(Video, CreatorEarnings, VideoCreated), StreamingError>)
    ensures
        r is Ok <==> create_video_outcome(
            *old(platform),
            video_id@,
            ipfs_hash@,
            total_chunks,
            price_per_chunk,
            title@,
            description@,
        ) is Ok,
        r is Err ==> r->Err_0 == create_video_outcome(
            *old(platform),
            video_id@,
            ipfs_hash@,
            total_chunks,
            price_per_chunk,
            title@,
            description@,
        )->Err_0,
        r is Err ==> *final(platform) == *old(platform),
        r is Ok ==> ({
            &&& *final(platform) == (Platform {
                total_videos: (old(platform).total_videos + 1) as u64,
                ..*old(platform)
            })
            &&& r->Ok_0.0 == (Video {
                key,
                creator,
                video_id,
                ipfs_hash,
                total_chunks,
                price_per_chunk,
                title,
                description,
                is_active: true,
                total_sessions: 0,
                total_chunks_served: 0,
                created_at: now,
            })
            &&& r->Ok_0.0.bounds_ok()
            &&& r->Ok_0.1 == (CreatorEarnings {
                creator,
                video: key,
                total_earned: 0,
                total_sessions: 0,
                total_chunks_sold: 0,
            })
            &&& r->Ok_0.2.video == key
            &&& r->Ok_0.2.creator == creator
            &&& r->Ok_0.2.video_id@ == video_id@
            &&& r->Ok_0.2.ipfs_hash@ == ipfs_hash@
            &&& r->Ok_0.2.total_chunks == total_chunks
            &&& r->Ok_0.2.price_per_chunk == price_per_chunk
            &&& r->Ok_0.2.title@ == title@
            &&& r->Ok_0.2.timestamp == now
        }),
{
    if video_id.len() > MAX_VIDEO_ID_LENGTH {
        return Err(StreamingError::VideoIdTooLong);
    }
    if ipfs_hash.len() > MAX_IPFS_HASH_LENGTH {
        return Err(StreamingError::IpfsHashTooLong);
    }
    if title.len() > MAX_TITLE_LENGTH {
        return Err(StreamingError::TitleTooLong);
    }
    if description.len() > MAX_DESCRIPTION_LENGTH {
        return Err(StreamingError::DescriptionTooLong);
    }
    if total_chunks < 1 || total_chunks > MAX_TOTAL_CHUNKS {
        return Err(StreamingError::TooManyChunks);
    }
    if price_per_chunk < platform.min_price_per_chunk {
        return Err(StreamingError::PriceTooLow);
    }
    if platform.total_videos == u64::MAX {
        return Err(StreamingError::ArithmeticOverflow);
    }

    let event = VideoCreated {
        video: key,
        creator,
        video_id: slice_to_vec(video_id.as_slice()),
        ipfs_hash: slice_to_vec(ipfs_hash.as_slice()),
        total_chunks,
        price_per_chunk,
        title: slice_to_vec(title.as_slice()),
        timestamp: now,
    };
    let video = Video {
        key,
        creator,
        video_id,
        ipfs_hash,
        total_chunks,
        price_per_chunk,
        title,
        description,
        is_active: true,
        total_sessions: 0,
        total_chunks_served: 0,
        created_at: now,
    };
    let earnings = CreatorEarnings {
        creator,
        video: key,
        total_earned: 0,
        total_sessions: 0,
        total_chunks_sold: 0,
    };
    platform.total_videos = platform.total_videos + 1;

    Ok((video, earnings, event))
}

} // verus!
