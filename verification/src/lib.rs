//! Pay-per-chunk streaming settlement core.
//!
//! A viewer pre-authorizes a bounded spend against a creator-priced video
//! (a sequence of fixed-size chunks), then consumes chunks one at a time or
//! in reconciled batches.  Every consumption event splits funds between the
//! video's creator and the operating platform.
//!
//! The crate verifies the session/delegation/settlement state machine:
//! how a viewing session is opened, how spending authority is granted and
//! re-granted with replace-not-add semantics, how single-chunk and batched
//! consumption are validated and priced, and how the resulting transfers and
//! aggregate counters are applied all-or-nothing.
//!
//! Account identities (wallets, videos, mints) are carried as plain `u64`
//! values; text fields (identifiers, content pointers, titles) are carried as
//! byte vectors.  The delegated-transfer capability of the underlying value
//! ledger is modeled by [`token::TokenAccount`], an explicit allowance ledger
//! the core itself maintains and decrements on transfer.

pub mod approve_delegate;
pub mod close_session;
pub mod constants;
pub mod create_video;
pub mod errors;
pub mod events;
pub mod initialize;
pub mod pay_for_chunk;
pub mod revoke_delegate;
pub mod settle_session;
pub mod state;
pub mod token;
pub mod update_video;

pub use approve_delegate::approve_streaming_delegate;
pub use close_session::close_viewer_session;
pub use create_video::create_video;
pub use initialize::initialize_platform;
pub use pay_for_chunk::pay_for_chunk;
pub use revoke_delegate::revoke_streaming_delegate;
pub use settle_session::settle_session;
pub use update_video::update_video;

pub use errors::StreamingError;
pub use state::CreatorEarnings;
pub use state::Platform;
pub use state::Video;
pub use state::ViewerSession;
pub use token::TokenAccount;

pub use events::ChunkPaid;
pub use events::DelegationApproved;
pub use events::DelegationRevoked;
pub use events::PlatformInitialized;
pub use events::SessionClosed;
pub use events::SessionExpired;
pub use events::SessionSettled;
pub use events::VideoCreated;
pub use events::VideoUpdated;
