//! Core logic of a voice-channel music bot: duration and progress-bar
//! formatting, queue bookkeeping, command dispatch, search-result handling,
//! and the delayed auto-disconnect coordinator.

pub mod buttons;
pub mod coordinator;
pub mod dispatch;
pub mod format;
pub mod messages;
pub mod registry;
pub mod search;
pub mod session;
pub mod url;

pub use format::create_progress_bar;
pub use format::format_description;
pub use format::format_duration;
pub use format::format_queue_description;
pub use session::TrackMetadata;
pub use url::is_valid_youtube_url;
