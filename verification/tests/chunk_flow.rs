use solplay_402::approve_streaming_delegate;
use solplay_402::create_video;
use solplay_402::initialize_platform;
use solplay_402::pay_for_chunk;
use solplay_402::update_video;
use solplay_402::CreatorEarnings;
use solplay_402::Platform;
use solplay_402::StreamingError;
use solplay_402::TokenAccount;
use solplay_402::Video;
use solplay_402::ViewerSession;

const VIEWER: u64 = 7;
const CREATOR: u64 = 3;
const VIDEO_KEY: u64 = 10;

fn setup(price: u64, chunks: u32) -> (Platform, Video, CreatorEarnings) {
    let (mut platform, _event) = initialize_platform(1, 2, 250, 1000, 100).unwrap();
    let (video, earnings, _event) = create_video(
        &mut platform,
        CREATOR,
        VIDEO_KEY,
        b"trailer".to_vec(),
        b"bafybeigdyrzt".to_vec(),
        chunks,
        price,
        b"A trailer".to_vec(),
        b"Test footage".to_vec(),
        100,
    )
    .unwrap();
    (platform, video, earnings)
}

fn open_session(
    platform: &mut Platform,
    video: &Video,
    viewer_account: &mut TokenAccount,
    max_chunks: u32,
    now: i64,
) -> ViewerSession {
    let mut session = ViewerSession::new_unopened();
    approve_streaming_delegate(platform, video, &mut session, viewer_account, VIEWER, max_chunks, now)
        .unwrap();
    session
}

fn empty_account() -> TokenAccount {
    TokenAccount { amount: 0, delegated_amount: 0 }
}

#[test]
fn authorize_ten_chunks_delegates_full_amount() {
    let (mut platform, video, _earnings) = setup(1000, 100);
    let mut viewer_account = TokenAccount { amount: 50_000, delegated_amount: 0 };
    let session = open_session(&mut platform, &video, &mut viewer_account, 10, 100);
    assert_eq!(viewer_account.delegated_amount, 10_000);
    assert_eq!(viewer_account.amount, 50_000);
    assert_eq!(session.max_approved_chunks, 10);
    assert_eq!(session.chunks_consumed, 0);
    assert_eq!(session.approved_price_per_chunk, 1000);
    assert_eq!(session.last_paid_chunk_index, None);
    assert_eq!(platform.total_sessions, 1);
}

#[test]
fn first_chunk_pays_fee_and_owner_share() {
    let (mut platform, mut video, mut earnings) = setup(1000, 100);
    let mut viewer_account = TokenAccount { amount: 50_000, delegated_amount: 0 };
    let mut session = open_session(&mut platform, &video, &mut viewer_account, 10, 100);
    let mut creator_account = empty_account();
    let mut platform_account = empty_account();

    let event = pay_for_chunk(
        &mut platform,
        &mut video,
        &mut session,
        &mut earnings,
        &mut viewer_account,
        &mut creator_account,
        &mut platform_account,
        VIEWER,
        0,
        200,
    )
    .unwrap();

    assert_eq!(event.amount_paid, 1000);
    assert_eq!(event.platform_fee, 25);
    assert_eq!(event.creator_amount, 975);
    assert_eq!(event.payment_sequence, 1);
    assert_eq!(event.chunks_remaining, 9);
    assert_eq!(session.chunks_consumed, 1);
    assert_eq!(session.last_paid_chunk_index, Some(0));
    assert_eq!(session.total_spent, 1000);
    assert_eq!(viewer_account.amount, 49_000);
    assert_eq!(viewer_account.delegated_amount, 9_000);
    assert_eq!(creator_account.amount, 975);
    assert_eq!(platform_account.amount, 25);
    assert_eq!(platform.total_revenue, 25);
    assert_eq!(video.total_chunks_served, 1);
    assert_eq!(video.total_sessions, 1);
    assert_eq!(earnings.total_earned, 975);
    assert_eq!(earnings.total_chunks_sold, 1);
    assert_eq!(earnings.total_sessions, 1);
}

#[test]
fn skipping_a_chunk_is_rejected_and_changes_nothing() {
    let (mut platform, mut video, mut earnings) = setup(1000, 100);
    let mut viewer_account = TokenAccount { amount: 50_000, delegated_amount: 0 };
    let mut session = open_session(&mut platform, &video, &mut viewer_account, 10, 100);
    let mut creator_account = empty_account();
    let mut platform_account = empty_account();
    pay_for_chunk(
        &mut platform,
        &mut video,
        &mut session,
        &mut earnings,
        &mut viewer_account,
        &mut creator_account,
        &mut platform_account,
        VIEWER,
        0,
        200,
    )
    .unwrap();

    let platform_before = platform.clone();
    let video_before = video.clone();
    let session_before = session.clone();
    let earnings_before = earnings.clone();
    let viewer_before = viewer_account.clone();
    let creator_before = creator_account.clone();
    let fee_before = platform_account.clone();

    let err = pay_for_chunk(
        &mut platform,
        &mut video,
        &mut session,
        &mut earnings,
        &mut viewer_account,
        &mut creator_account,
        &mut platform_account,
        VIEWER,
        2,
        300,
    )
    .unwrap_err();
    assert_eq!(err, StreamingError::OutOfSequenceChunk);
    assert_eq!(platform, platform_before);
    assert_eq!(video, video_before);
    assert_eq!(session, session_before);
    assert_eq!(earnings, earnings_before);
    assert_eq!(viewer_account, viewer_before);
    assert_eq!(creator_account, creator_before);
    assert_eq!(platform_account, fee_before);
}

#[test]
fn repeating_a_chunk_is_rejected() {
    let (mut platform, mut video, mut earnings) = setup(1000, 100);
    let mut viewer_account = TokenAccount { amount: 50_000, delegated_amount: 0 };
    let mut session = open_session(&mut platform, &video, &mut viewer_account, 10, 100);
    let mut creator_account = empty_account();
    let mut platform_account = empty_account();
    for index in 0..3u32 {
        pay_for_chunk(
            &mut platform,
            &mut video,
            &mut session,
            &mut earnings,
            &mut viewer_account,
            &mut creator_account,
            &mut platform_account,
            VIEWER,
            index,
            200,
        )
        .unwrap();
    }
    assert_eq!(session.last_paid_chunk_index, Some(2));
    let err = pay_for_chunk(
        &mut platform,
        &mut video,
        &mut session,
        &mut earnings,
        &mut viewer_account,
        &mut creator_account,
        &mut platform_account,
        VIEWER,
        2,
        200,
    )
    .unwrap_err();
    assert_eq!(err, StreamingError::OutOfSequenceChunk);
    let err = pay_for_chunk(
        &mut platform,
        &mut video,
        &mut session,
        &mut earnings,
        &mut viewer_account,
        &mut creator_account,
        &mut platform_account,
        VIEWER,
        0,
        200,
    )
    .unwrap_err();
    assert_eq!(err, StreamingError::OutOfSequenceChunk);
}

#[test]
fn first_payment_must_be_chunk_zero() {
    let (mut platform, mut video, mut earnings) = setup(1000, 100);
    let mut viewer_account = TokenAccount { amount: 50_000, delegated_amount: 0 };
    let mut session = open_session(&mut platform, &video, &mut viewer_account, 10, 100);
    let mut creator_account = empty_account();
    let mut platform_account = empty_account();
    let err = pay_for_chunk(
        &mut platform,
        &mut video,
        &mut session,
        &mut earnings,
        &mut viewer_account,
        &mut creator_account,
        &mut platform_account,
        VIEWER,
        1,
        200,
    )
    .unwrap_err();
    assert_eq!(err, StreamingError::OutOfSequenceChunk);
}

#[test]
fn price_change_in_either_direction_is_rejected() {
    for new_price in [2000u64, 1500u64] {
        let (mut platform, mut video, mut earnings) = setup(1600, 100);
        let mut viewer_account = TokenAccount { amount: 500_000, delegated_amount: 0 };
        let mut session = open_session(&mut platform, &video, &mut viewer_account, 10, 100);
        let mut creator_account = empty_account();
        let mut platform_account = empty_account();
        update_video(&mut video, &platform, CREATOR, Some(new_price), None, 150).unwrap();
        let err = pay_for_chunk(
            &mut platform,
            &mut video,
            &mut session,
            &mut earnings,
            &mut viewer_account,
            &mut creator_account,
            &mut platform_account,
            VIEWER,
            0,
            200,
        )
        .unwrap_err();
        assert_eq!(err, StreamingError::PriceChangedSinceApproval);
        assert_eq!(session.chunks_consumed, 0);
    }
}

#[test]
fn inactive_session_cannot_pay() {
    let (mut platform, mut video, mut earnings) = setup(1000, 100);
    let mut viewer_account = TokenAccount { amount: 50_000, delegated_amount: 0 };
    let mut session = open_session(&mut platform, &video, &mut viewer_account, 10, 100);
    let mut creator_account = empty_account();
    let mut platform_account = empty_account();
    // 3700 seconds past the last activity: inactive, far from expired.
    let err = pay_for_chunk(
        &mut platform,
        &mut video,
        &mut session,
        &mut earnings,
        &mut viewer_account,
        &mut creator_account,
        &mut platform_account,
        VIEWER,
        0,
        100 + 3700,
    )
    .unwrap_err();
    assert_eq!(err, StreamingError::SessionInactive);
}

#[test]
fn expired_session_cannot_pay_or_reauthorize() {
    let (mut platform, mut video, mut earnings) = setup(1000, 100);
    let mut viewer_account = TokenAccount { amount: 50_000, delegated_amount: 0 };
    let mut session = open_session(&mut platform, &video, &mut viewer_account, 10, 100);
    let mut creator_account = empty_account();
    let mut platform_account = empty_account();
    let late: i64 = 100 + 24 * 60 * 60 + 1;
    let err = pay_for_chunk(
        &mut platform,
        &mut video,
        &mut session,
        &mut earnings,
        &mut viewer_account,
        &mut creator_account,
        &mut platform_account,
        VIEWER,
        0,
        late,
    )
    .unwrap_err();
    assert_eq!(err, StreamingError::SessionExpired);
    let err = approve_streaming_delegate(
        &mut platform,
        &video,
        &mut session,
        &mut viewer_account,
        VIEWER,
        5,
        late,
    )
    .unwrap_err();
    assert_eq!(err, StreamingError::SessionExpired);
}

#[test]
fn inactive_session_cannot_reauthorize() {
    // The re-authorization path rejects inactivity outright instead of
    // treating the call as refreshing activity; a fresh session is the
    // only way back.
    let (mut platform, video, _earnings) = setup(1000, 100);
    let mut viewer_account = TokenAccount { amount: 50_000, delegated_amount: 0 };
    let mut session = open_session(&mut platform, &video, &mut viewer_account, 10, 100);
    let err = approve_streaming_delegate(
        &mut platform,
        &video,
        &mut session,
        &mut viewer_account,
        VIEWER,
        5,
        100 + 3700,
    )
    .unwrap_err();
    assert_eq!(err, StreamingError::SessionInactive);
}

#[test]
fn chunk_index_out_of_bounds_is_rejected() {
    let (mut platform, mut video, mut earnings) = setup(1000, 5);
    let mut viewer_account = TokenAccount { amount: 50_000, delegated_amount: 0 };
    let mut session = open_session(&mut platform, &video, &mut viewer_account, 10, 100);
    let mut creator_account = empty_account();
    let mut platform_account = empty_account();
    let err = pay_for_chunk(
        &mut platform,
        &mut video,
        &mut session,
        &mut earnings,
        &mut viewer_account,
        &mut creator_account,
        &mut platform_account,
        VIEWER,
        5,
        200,
    )
    .unwrap_err();
    assert_eq!(err, StreamingError::InvalidChunkIndex);
}

#[test]
fn exhausted_ceiling_rejects_further_chunks() {
    let (mut platform, mut video, mut earnings) = setup(1000, 100);
    let mut viewer_account = TokenAccount { amount: 50_000, delegated_amount: 0 };
    let mut session = open_session(&mut platform, &video, &mut viewer_account, 2, 100);
    let mut creator_account = empty_account();
    let mut platform_account = empty_account();
    for index in 0..2u32 {
        pay_for_chunk(
            &mut platform,
            &mut video,
            &mut session,
            &mut earnings,
            &mut viewer_account,
            &mut creator_account,
            &mut platform_account,
            VIEWER,
            index,
            200,
        )
        .unwrap();
    }
    let err = pay_for_chunk(
        &mut platform,
        &mut video,
        &mut session,
        &mut earnings,
        &mut viewer_account,
        &mut creator_account,
        &mut platform_account,
        VIEWER,
        2,
        200,
    )
    .unwrap_err();
    assert_eq!(err, StreamingError::InsufficientApproval);
}

#[test]
fn insufficient_balance_rejects_payment() {
    let (mut platform, mut video, mut earnings) = setup(1000, 100);
    let mut viewer_account = TokenAccount { amount: 10_000, delegated_amount: 0 };
    let mut session = open_session(&mut platform, &video, &mut viewer_account, 10, 100);
    let mut creator_account = empty_account();
    let mut platform_account = empty_account();
    // The balance drops below one chunk's price after authorization.
    viewer_account.amount = 999;
    let err = pay_for_chunk(
        &mut platform,
        &mut video,
        &mut session,
        &mut earnings,
        &mut viewer_account,
        &mut creator_account,
        &mut platform_account,
        VIEWER,
        0,
        200,
    )
    .unwrap_err();
    assert_eq!(err, StreamingError::InsufficientBalance);
}

#[test]
fn revoked_delegation_rejects_payment() {
    let (mut platform, mut video, mut earnings) = setup(1000, 100);
    let mut viewer_account = TokenAccount { amount: 50_000, delegated_amount: 0 };
    let mut session = open_session(&mut platform, &video, &mut viewer_account, 10, 100);
    let mut creator_account = empty_account();
    let mut platform_account = empty_account();
    solplay_402::revoke_streaming_delegate(&session, &mut viewer_account, VIEWER, 150).unwrap();
    let err = pay_for_chunk(
        &mut platform,
        &mut video,
        &mut session,
        &mut earnings,
        &mut viewer_account,
        &mut creator_account,
        &mut platform_account,
        VIEWER,
        0,
        200,
    )
    .unwrap_err();
    assert_eq!(err, StreamingError::InsufficientApproval);
}

#[test]
fn inactive_video_rejects_payment() {
    let (mut platform, mut video, mut earnings) = setup(1000, 100);
    let mut viewer_account = TokenAccount { amount: 50_000, delegated_amount: 0 };
    let mut session = open_session(&mut platform, &video, &mut viewer_account, 10, 100);
    let mut creator_account = empty_account();
    let mut platform_account = empty_account();
    update_video(&mut video, &platform, CREATOR, None, Some(false), 150).unwrap();
    let err = pay_for_chunk(
        &mut platform,
        &mut video,
        &mut session,
        &mut earnings,
        &mut viewer_account,
        &mut creator_account,
        &mut platform_account,
        VIEWER,
        0,
        200,
    )
    .unwrap_err();
    assert_eq!(err, StreamingError::VideoNotActive);
}

#[test]
fn session_counters_count_a_session_once() {
    let (mut platform, mut video, mut earnings) = setup(1000, 100);
    let mut viewer_account = TokenAccount { amount: 50_000, delegated_amount: 0 };
    let mut session = open_session(&mut platform, &video, &mut viewer_account, 10, 100);
    let mut creator_account = empty_account();
    let mut platform_account = empty_account();
    for index in 0..3u32 {
        pay_for_chunk(
            &mut platform,
            &mut video,
            &mut session,
            &mut earnings,
            &mut viewer_account,
            &mut creator_account,
            &mut platform_account,
            VIEWER,
            index,
            200,
        )
        .unwrap();
    }
    assert_eq!(video.total_sessions, 1);
    assert_eq!(earnings.total_sessions, 1);
    assert_eq!(video.total_chunks_served, 3);
    assert_eq!(earnings.total_chunks_sold, 3);
}

#[test]
fn reauthorization_delegates_total_outstanding_not_increment() {
    let (mut platform, mut video, mut earnings) = setup(1000, 100);
    let mut viewer_account = TokenAccount { amount: 500_000, delegated_amount: 0 };
    let mut session = open_session(&mut platform, &video, &mut viewer_account, 10, 100);
    let mut creator_account = empty_account();
    let mut platform_account = empty_account();
    for index in 0..4u32 {
        pay_for_chunk(
            &mut platform,
            &mut video,
            &mut session,
            &mut earnings,
            &mut viewer_account,
            &mut creator_account,
            &mut platform_account,
            VIEWER,
            index,
            200,
        )
        .unwrap();
    }
    // Ceiling 10, consumed 4: adding 5 more must delegate
    // (15 - 4) * 1000 = 11000, not 5 * 1000.
    let event = approve_streaming_delegate(
        &mut platform,
        &video,
        &mut session,
        &mut viewer_account,
        VIEWER,
        5,
        300,
    )
    .unwrap();
    assert!(event.is_reapproval);
    assert_eq!(session.max_approved_chunks, 15);
    assert_eq!(viewer_account.delegated_amount, 11_000);
    // Re-authorization does not open another session.
    assert_eq!(platform.total_sessions, 1);
}
