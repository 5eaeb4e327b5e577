//! The closed vocabulary of domain events carried on the event bus, and the
//! payload types they wrap.

use vstd::prelude::*;

verus! {

/// Playback state of the mirrored session, as reported by the operating
/// system's media-control subsystem.
#[derive(Clone, Copy, PartialEq, Eq, Structural, Debug)]
pub enum PlaybackStatus {
    Closed,
    Opened,
    Changing,
    Stopped,
    Playing,
    Paused,
}

/// Payload of `MediaEvent::PlaybackInfoChanged`: the one boolean the bus
/// carries about playback state.
#[derive(Clone, Copy, PartialEq, Eq, Structural, Debug)]
pub struct MediaPlaybackData {
    pub is_playing: bool,
}

/// Payload of `MediaEvent::TimelinePropertiesChanged`. All fields are opaque
/// OS time ticks; nothing here assumes a particular unit.
#[derive(Clone, Copy, PartialEq, Eq, Structural, Debug)]
pub struct MediaTimelineData {
    pub timeline_start_time: usize,
    pub timeline_end_time: usize,
    pub timeline_position: usize,
}

/// An sRGB color with eight bits per channel.
#[derive(Clone, Copy, PartialEq, Eq, Structural, Debug)]
pub struct Rgb {
    pub r: u8,
    pub g: u8,
    pub b: u8,
}

impl Rgb {
    /// Builds a color from its three channels.
    pub fn new(r: u8, g: u8, b: u8) -> (c: Rgb)
        ensures
            c == (Rgb { r, g, b }),
    {
        Rgb { r, g, b }
    }
}

/// The fixed named-swatch palette used for UI theming. The prominent color of
/// the artwork is classified into exactly one of these.
#[derive(Clone, Copy, PartialEq, Eq, Structural, Debug)]
pub enum NamedSwatch {
    Slate,
    Gray,
    Red,
    Orange,
    Amber,
    Yellow,
    Lime,
    Green,
    Teal,
    Sky,
    Blue,
    Violet,
    Fuchsia,
    Rose,
}

/// Visual metadata derived from the session's artwork: the transport-encoded
/// cropped image and its dominant colors. `base64` is empty when no artwork
/// was available or it could not be decoded.
#[derive(Debug)]
pub struct ThumbnailData {
    pub base64: String,
    pub palette: NamedSwatch,
    pub prominant_color: Rgb,
    pub average_color: Rgb,
}

/// Payload of `MediaEvent::MediaPropertiesChanged`: capability flags, track
/// metadata, and the derived thumbnail.
#[derive(Debug)]
pub struct MediaSessionData {
    pub is_play_enabled: bool,
    pub is_pause_enabled: bool,
    pub is_play_or_pause_enabled: bool,
    pub is_previous_enabled: bool,
    pub is_next_enabled: bool,
    pub title: String,
    pub artist: String,
    pub album: String,
    pub thumbnail: ThumbnailData,
}

/// A volume level as carried on the bus: ten-thousandths of full scale,
/// so full volume is `10_000`.
pub type VolumeLevel = u32;

/// The tagged union distributed on the event bus; the only cross-boundary
/// vocabulary between the monitor and its subscribers.
#[derive(Debug)]
pub enum MediaEvent {
    Connect(String),
    Disconnect(String),
    MediaPropertiesChanged(MediaSessionData),
    PlaybackInfoChanged(MediaPlaybackData),
    TimelinePropertiesChanged(MediaTimelineData),
    VolumeChanged(VolumeLevel),
}

impl MediaEvent {
    /// True when the event is `Connect(a)` for the given app id.
    pub open spec fn is_connect_for(self, app: Seq<char>) -> bool {
        match self {
            MediaEvent::Connect(a) => a@ == app,
            _ => false,
        }
    }

    /// True when the event is `Disconnect(a)` for the given app id.
    pub open spec fn is_disconnect_for(self, app: Seq<char>) -> bool {
        match self {
            MediaEvent::Disconnect(a) => a@ == app,
            _ => false,
        }
    }

}

impl Clone for ThumbnailData {
    /// Value-preserving clone, so that handing a thumbnail to the bus keeps
    /// exactly the data that was derived.
    fn clone(&self) -> (r: Self)
        ensures
            r == *self,
    {
        ThumbnailData {
            base64: self.base64.clone(),
            palette: self.palette,
            prominant_color: self.prominant_color,
            average_color: self.average_color,
        }
    }
}

impl Clone for MediaSessionData {
    /// Value-preserving clone.
    fn clone(&self) -> (r: Self)
        ensures
            r == *self,
    {
        MediaSessionData {
            is_play_enabled: self.is_play_enabled,
            is_pause_enabled: self.is_pause_enabled,
            is_play_or_pause_enabled: self.is_play_or_pause_enabled,
            is_previous_enabled: self.is_previous_enabled,
            is_next_enabled: self.is_next_enabled,
            title: self.title.clone(),
            artist: self.artist.clone(),
            album: self.album.clone(),
            thumbnail: self.thumbnail.clone(),
        }
    }
}

impl Clone for MediaEvent {
    /// Value-preserving clone, so that fanning an event out to several
    /// subscribers repeats it unchanged.
    fn clone(&self) -> (r: Self)
        ensures
            r == *self,
    {
        match self {
            MediaEvent::Connect(a) => MediaEvent::Connect(a.clone()),
            MediaEvent::Disconnect(a) => MediaEvent::Disconnect(a.clone()),
            MediaEvent::MediaPropertiesChanged(d) => MediaEvent::MediaPropertiesChanged(d.clone()),
            MediaEvent::PlaybackInfoChanged(d) => MediaEvent::PlaybackInfoChanged(*d),
            MediaEvent::TimelinePropertiesChanged(d) => MediaEvent::TimelinePropertiesChanged(*d),
            MediaEvent::VolumeChanged(v) => MediaEvent::VolumeChanged(*v),
        }
    }
}

impl MediaPlaybackData {
    /// Maps an OS playback status to the single boolean the bus carries:
    /// the session counts as playing exactly when the status is `Playing`.
    pub fn from_status(status: PlaybackStatus) -> (r: MediaPlaybackData)
        ensures
            r.is_playing == (status == PlaybackStatus::Playing),
    {
        MediaPlaybackData { is_playing: matches!(status, PlaybackStatus::Playing) }
    }
}

impl MediaTimelineData {
    /// Packs the three timeline accessors' results into one payload.
    pub fn new(start: usize, end: usize, position: usize) -> (r: MediaTimelineData)
        ensures
            r.timeline_start_time == start,
            r.timeline_end_time == end,
            r.timeline_position == position,
    {
        MediaTimelineData {
            timeline_start_time: start,
            timeline_end_time: end,
            timeline_position: position,
        }
    }
}

impl MediaSessionData {
    /// Assembles the media-properties payload from the individually fetched
    /// OS values. The combined play-or-pause capability is the logical OR of
    /// the two underlying flags.
    pub fn new(
        is_play_enabled: bool,
        is_pause_enabled: bool,
        is_previous_enabled: bool,
        is_next_enabled: bool,
        title: String,
        artist: String,
        album: String,
        thumbnail: ThumbnailData,
    ) -> (r: MediaSessionData)
        ensures
            r.is_play_enabled == is_play_enabled,
            r.is_pause_enabled == is_pause_enabled,
            r.is_play_or_pause_enabled == (is_play_enabled || is_pause_enabled),
            r.is_previous_enabled == is_previous_enabled,
            r.is_next_enabled == is_next_enabled,
            r.title@ == title@,
            r.artist@ == artist@,
            r.album@ == album@,
            r.thumbnail == thumbnail,
    {
        MediaSessionData {
            is_play_enabled,
            is_pause_enabled,
            is_play_or_pause_enabled: is_play_enabled || is_pause_enabled,
            is_previous_enabled,
            is_next_enabled,
            title,
            artist,
            album,
            thumbnail,
        }
    }
}

} // verus!
