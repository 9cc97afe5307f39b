//! Owner-only video update: changes the price per chunk or the
//! activation flag, never both silently and never below the platform's
//! price floor.

use vstd::prelude::*;

use crate::errors::StreamingError;
use crate::events::VideoUpdated;
use crate::state::Platform;
use crate::state::Video;

verus! {

/// The decision an update takes on the given inputs: either the first
/// rejection in validation order, or permission to update.
pub open spec fn update_video_outcome(
    video: Video,
    platform: Platform,
    creator: u64,
    price_per_chunk: Option<u64>,
    is_active: Option<bool>,
) -> Result<(), StreamingError> {
    if video.creator != creator {
        Err(StreamingError::Unauthorized)
    } else if price_per_chunk is None && is_active is None {
        Err(StreamingError::NoUpdateProvided)
    } else if price_per_chunk is Some && price_per_chunk->0 < platform.min_price_per_chunk {
        Err(StreamingError::PriceTooLow)
    } else {
        Ok(())
    }
}

/// Updates the video's price, activation flag, or both, on behalf of its
/// creator.
///
/// On rejection nothing changes.  On success exactly the provided fields
/// change, a provided price respects the platform minimum, and the audit
/// record repeats what was provided.
pub fn update_video(
    video: &mut Video,
    platform: &Platform,
    creator: u64,
    price_per_chunk: Option<u64>,
    is_active: Option<bool>,
    now: i64,
) -> (r: Result<VideoUpdated, StreamingError>)
    ensures
        r is Ok <==> update_video_outcome(
            *old(video),
            *platform,
            creator,
            price_per_chunk,
            is_active,
        ) is Ok,
        r is Err ==> r->Err_0 == update_video_outcome(
            *old(video),
            *platform,
            creator,
            price_per_chunk,
            is_active,
        )->Err_0,
        r is Err ==> *final(video) == *old(video),
        r is Ok ==> ({
            &&& *final(video) == (Video {
                price_per_chunk: if price_per_chunk is Some {
                    price_per_chunk->0
                } else {
                    old(video).price_per_chunk
                },
                is_active: if is_active is Some {
                    is_active->0
                } else {
                    old(video).is_active
                },
                ..*old(video)
            })
            &&& r->Ok_0 == (VideoUpdated {
                video: old(video).key,
                creator,
                price_per_chunk,
                is_active,
                timestamp: now,
            })
        }),
{
    if video.creator != creator {
        return Err(StreamingError::Unauthorized);
    }
    if price_per_chunk.is_none() && is_active.is_none() {
        return Err(StreamingError::NoUpdateProvided);
    }
    if let Some(new_price) = price_per_chunk {
        if new_price < platform.min_price_per_chunk {
            return Err(StreamingError::PriceTooLow);
        }
        video.price_per_chunk = new_price;
    }
    if let Some(active) = is_active {
        video.is_active = active;
    }
    Ok(VideoUpdated { video: video.key, creator, price_per_chunk, is_active, timestamp: now })
}

} // verus!
