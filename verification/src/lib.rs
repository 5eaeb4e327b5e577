//! Verified core of a desktop media-session monitor.
//!
//! The library mirrors at most one externally managed media-playback session,
//! converts the operating system's callback-driven notifications into an
//! ordered, multi-consumer event stream, and derives visual metadata
//! (a cropped thumbnail and its dominant colors) from raw artwork bytes.

pub mod artists;
pub mod bus;
pub mod color;
pub mod events;
pub mod image_data;
pub mod manager;
pub mod session;
pub mod thumbnail;
pub mod volume;

pub use bus::EventBus;
pub use bus::RecvOutcome;
pub use bus::Subscriber;
pub use events::MediaEvent;
pub use image_data::Image;
pub use manager::DiscoveryOutcome;
pub use manager::MediaManager;
pub use session::MediaPropertiesSnapshot;
pub use session::Session;
pub use thumbnail::ThumbnailError;
pub use volume::AudioVolumeBridge;
pub use events::MediaPlaybackData;
pub use events::MediaSessionData;
pub use events::MediaTimelineData;
pub use events::NamedSwatch;
pub use events::PlaybackStatus;
pub use events::Rgb;
pub use events::ThumbnailData;
pub use events::VolumeLevel;
