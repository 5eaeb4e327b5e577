//! The session: the live binding between the monitor and one OS-exposed
//! playback-control handle.
//!
//! A `Session` value exists exactly while the three property-change
//! callbacks are registered with the OS, so "callbacks registered iff a
//! session is attached" holds by construction: `attach` registers them,
//! seeds the current playback and timeline state, and publishes `Connect`;
//! the callbacks are unregistered when the session is torn down through
//! `disconnect`, before `Disconnect` is published. Each handler method
//! turns one OS notification, already fetched into plain values by the
//! caller, into exactly one domain event on the bus.

use vstd::prelude::*;

use crate::bus::EventBus;
use crate::events::MediaEvent;
use crate::events::MediaPlaybackData;
use crate::events::MediaSessionData;
use crate::events::MediaTimelineData;
use crate::events::PlaybackStatus;
use crate::events::ThumbnailData;
use crate::events::VolumeLevel;
use crate::thumbnail::get_thumbnail_data;
use crate::thumbnail::thumbnail_for_artwork;
use crate::volume::AudioVolumeBridge;

verus! {

/// The media-properties values fetched from the OS for one notification:
/// the four capability flags and the three text fields, as plain values.
pub struct MediaPropertiesSnapshot {
    pub is_play_enabled: bool,
    pub is_pause_enabled: bool,
    pub is_previous_enabled: bool,
    pub is_next_enabled: bool,
    pub title: String,
    pub artist: String,
    pub album: String,
}

/// The artwork bytes a media-properties notification carried, viewed as an
/// optional byte string.
pub open spec fn artwork_view(artwork: Option<&Vec<u8>>) -> Option<Seq<u8>> {
    match artwork {
        Some(bytes) => Some(bytes@),
        None => None,
    }
}

/// One attached playback-control binding: the app id it belongs to, the
/// registration state of the three property-change callbacks, and the audio
/// volume bridge for the same process.
pub struct Session {
    app_id: String,
    media_properties_registered: bool,
    playback_info_registered: bool,
    timeline_properties_registered: bool,
    bridge: AudioVolumeBridge,
}

impl Session {
    /// The app id of the OS session this binding mirrors.
    pub closed spec fn app_id(self) -> Seq<char> {
        self.app_id@
    }

    /// Whether all three property-change callbacks are registered. True of
    /// every live session.
    pub closed spec fn callbacks_registered(self) -> bool {
        &&& self.media_properties_registered
        &&& self.playback_info_registered
        &&& self.timeline_properties_registered
    }

    /// Whether the audio volume bridge has bound an audio session.
    pub closed spec fn audio_bound(self) -> bool {
        self.bridge.is_bound()
    }

    /// The last volume the bound audio session reported, if any.
    pub closed spec fn last_volume(self) -> Option<VolumeLevel> {
        self.bridge.last_volume()
    }

    /// Well-formedness of a live session: the callbacks are registered and
    /// the audio bridge filters on this session's app id. Established by
    /// `attach`, preserved by every method, and carried by the manager for
    /// the session it holds.
    pub closed spec fn wf(self) -> bool {
        &&& self.callbacks_registered()
        &&& self.bridge.target() == self.app_id@
    }

    /// A well-formed session has its three callbacks registered.
    pub proof fn lemma_wf_callbacks(self)
        ensures
            self.wf() ==> self.callbacks_registered(),
    {
    }

    /// Attaches to the OS session with the given app id. The caller has
    /// registered the three property-change callbacks and fetched the
    /// session's current playback status and timeline; those seed initial
    /// state by firing the playback-info and timeline handlers once each,
    /// and `Connect` is then published to announce the attachment — so the
    /// history grows by exactly `PlaybackInfoChanged`,
    /// `TimelinePropertiesChanged`, `Connect`, in that order.
    pub fn attach(
        app_id: String,
        initial_status: PlaybackStatus,
        initial_timeline: MediaTimelineData,
        bus: &mut EventBus,
    ) -> (s: Session)
        requires
            old(bus).history().len() + 3 <= usize::MAX,
        ensures
            s.wf(),
            s.app_id() == app_id@,
            s.callbacks_registered(),
            !s.audio_bound(),
            s.last_volume() is None,
            final(bus).history() == old(bus).history().push(
                MediaEvent::PlaybackInfoChanged(
                    MediaPlaybackData { is_playing: initial_status == PlaybackStatus::Playing },
                ),
            ).push(MediaEvent::TimelinePropertiesChanged(initial_timeline)).push(
                MediaEvent::Connect(app_id),
            ),
            final(bus).capacity() == old(bus).capacity(),
    {
        let announced = app_id.clone();
        let bridge = AudioVolumeBridge::new(app_id.clone());
        let session = Session {
            app_id,
            media_properties_registered: true,
            playback_info_registered: true,
            timeline_properties_registered: true,
            bridge,
        };
        session.playback_info_handler(initial_status, bus);
        session.timeline_properties_handler(
            initial_timeline.timeline_start_time,
            initial_timeline.timeline_end_time,
            initial_timeline.timeline_position,
            bus,
        );
        bus.publish(MediaEvent::Connect(announced));
        session
    }

    /// Tears the attachment down. Consuming the session stands for
    /// unregistering the three callbacks and dropping the OS handles; this
    /// happens whether or not the OS unregistration calls succeeded, and
    /// `Disconnect` is published afterwards in every case (best-effort
    /// teardown must not be blocked by a misbehaving OS call).
    pub fn disconnect(self, bus: &mut EventBus)
        requires
            old(bus).history().len() < usize::MAX,
        ensures
            final(bus).history().len() == old(bus).history().len() + 1,
            final(bus).history().drop_last() == old(bus).history(),
            final(bus).history().last().is_disconnect_for(self.app_id()),
            final(bus).capacity() == old(bus).capacity(),
    {
        let Session { app_id, .. } = self;
        bus.publish(MediaEvent::Disconnect(app_id));
        proof {
            assert(bus.history().drop_last() =~= old(bus).history());
        }
    }

    /// Reports whether all three property-change callbacks are registered;
    /// true of every well-formed session.
    pub fn has_registered_callbacks(&self) -> (b: bool)
        ensures
            b == self.callbacks_registered(),
            self.wf() ==> b,
    {
        self.media_properties_registered && self.playback_info_registered
            && self.timeline_properties_registered
    }

    /// Handles one media-properties notification: the fetched snapshot and
    /// the artwork bytes (if the OS offered a thumbnail stream) become
    /// exactly one `MediaPropertiesChanged` event. The thumbnail pipeline
    /// runs on the artwork; a missing or failed thumbnail falls back to the
    /// defaults and never aborts the event.
    pub fn media_properties_handler(
        &self,
        props: MediaPropertiesSnapshot,
        artwork: Option<&Vec<u8>>,
        bus: &mut EventBus,
    )
        requires
            old(bus).history().len() < usize::MAX,
        ensures
            final(bus).capacity() == old(bus).capacity(),
            final(bus).history().len() == old(bus).history().len() + 1,
            final(bus).history().drop_last() == old(bus).history(),
            final(bus).history().last() matches MediaEvent::MediaPropertiesChanged(d) && {
                &&& d.is_play_enabled == props.is_play_enabled
                &&& d.is_pause_enabled == props.is_pause_enabled
                &&& d.is_play_or_pause_enabled == (props.is_play_enabled
                    || props.is_pause_enabled)
                &&& d.is_previous_enabled == props.is_previous_enabled
                &&& d.is_next_enabled == props.is_next_enabled
                &&& d.title@ == props.title@
                &&& d.artist@ == props.artist@
                &&& d.album@ == props.album@
                &&& thumbnail_for_artwork(d.thumbnail, artwork_view(artwork))
            },
    {
        let thumbnail = match artwork {
            Some(bytes) => match get_thumbnail_data(bytes) {
                Ok(t) => t,
                Err(_) => ThumbnailData::fallback(),
            },
            None => ThumbnailData::fallback(),
        };
        let data = MediaSessionData::new(
            props.is_play_enabled,
            props.is_pause_enabled,
            props.is_previous_enabled,
            props.is_next_enabled,
            props.title,
            props.artist,
            props.album,
            thumbnail,
        );
        bus.publish(MediaEvent::MediaPropertiesChanged(data));
        proof {
            assert(bus.history().drop_last() =~= old(bus).history());
        }
    }

    /// Handles one playback-info notification: the status the caller
    /// fetched from the OS becomes exactly one `PlaybackInfoChanged` event.
    pub fn playback_info_handler(&self, status: PlaybackStatus, bus: &mut EventBus)
        requires
            old(bus).history().len() < usize::MAX,
        ensures
            final(bus).history() == old(bus).history().push(
                MediaEvent::PlaybackInfoChanged(
                    MediaPlaybackData { is_playing: status == PlaybackStatus::Playing },
                ),
            ),
            final(bus).capacity() == old(bus).capacity(),
    {
        let data = MediaPlaybackData::from_status(status);
        bus.publish(MediaEvent::PlaybackInfoChanged(data));
    }

    /// Handles one timeline notification: the three fetched tick values
    /// become exactly one `TimelinePropertiesChanged` event.
    pub fn timeline_properties_handler(
        &self,
        start: usize,
        end: usize,
        position: usize,
        bus: &mut EventBus,
    )
        requires
            old(bus).history().len() < usize::MAX,
        ensures
            final(bus).history() == old(bus).history().push(
                MediaEvent::TimelinePropertiesChanged(
                    MediaTimelineData {
                        timeline_start_time: start,
                        timeline_end_time: end,
                        timeline_position: position,
                    },
                ),
            ),
            final(bus).capacity() == old(bus).capacity(),
    {
        let data = MediaTimelineData::new(start, end, position);
        bus.publish(MediaEvent::TimelinePropertiesChanged(data));
    }

    /// Handles one "audio session created" notification, forwarded to the
    /// bridge with this session's app id as the filter. Returns whether the
    /// audio session was bound (see `AudioVolumeBridge::on_session_created`).
    pub fn on_audio_session_created(
        &mut self,
        process_name: &String,
        current_volume: VolumeLevel,
        bus: &mut EventBus,
    ) -> (bound_now: bool)
        requires
            old(self).wf(),
            old(bus).history().len() < usize::MAX,
        ensures
            final(self).wf(),
            bound_now == (process_name@ == old(self).app_id() && !old(self).audio_bound()),
            final(self).app_id() == old(self).app_id(),
            final(self).callbacks_registered() == old(self).callbacks_registered(),
            final(bus).capacity() == old(bus).capacity(),
            bound_now ==> {
                &&& final(self).audio_bound()
                &&& final(self).last_volume() == Some(current_volume)
                &&& final(bus).history() == old(bus).history().push(
                    MediaEvent::VolumeChanged(current_volume),
                )
            },
            !bound_now ==> {
                &&& final(self).audio_bound() == old(self).audio_bound()
                &&& final(self).last_volume() == old(self).last_volume()
                &&& final(bus).history() == old(bus).history()
            },
    {
        self.bridge.on_session_created(process_name, current_volume, bus)
    }

    /// Handles one volume-change notification from the bound audio session.
    pub fn on_volume_changed(&mut self, volume: VolumeLevel, bus: &mut EventBus)
        requires
            old(self).wf(),
            old(self).audio_bound(),
            old(bus).history().len() < usize::MAX,
        ensures
            final(self).wf(),
            final(self).app_id() == old(self).app_id(),
            final(self).callbacks_registered() == old(self).callbacks_registered(),
            final(self).audio_bound(),
            final(self).last_volume() == Some(volume),
            final(bus).history() == old(bus).history().push(MediaEvent::VolumeChanged(volume)),
            final(bus).capacity() == old(bus).capacity(),
    {
        self.bridge.on_volume_changed(volume, bus)
    }

    /// Whether the audio bridge has bound an audio session.
    pub fn has_bound_audio(&self) -> (b: bool)
        ensures
            b == self.audio_bound(),
    {
        self.bridge.has_bound_session()
    }

    /// The last-known volume from the audio bridge, or `None` when no audio
    /// session is bound yet — the caller maps `None` to its sentinel.
    pub fn get_volume(&self) -> (r: Option<VolumeLevel>)
        ensures
            r == self.last_volume(),
            r is None <==> !self.audio_bound(),
    {
        self.bridge.get_volume()
    }

    /// Decides a volume-control request: the level is forwarded to the OS
    /// audio handle exactly when one is bound, and the request is a no-op
    /// otherwise. The caller performs the forwarding when `true` comes back.
    pub fn set_volume(&self, _volume: VolumeLevel) -> (forward: bool)
        ensures
            forward == self.audio_bound(),
    {
        self.bridge.has_bound_session()
    }
}

} // verus!
