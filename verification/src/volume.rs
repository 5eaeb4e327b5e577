//! The audio volume bridge: mirrors the per-process volume of the audio
//! session belonging to the monitored app onto the event bus.
//!
//! The operating system announces audio sessions as they are created; the
//! bridge binds to the first one whose process name equals the monitored app
//! id, publishes its current volume, and thereafter republishes every
//! volume-change notification. At most one audio session is ever bound per
//! bridge, and it is never rebound.

use vstd::prelude::*;

use crate::bus::EventBus;
use crate::events::MediaEvent;
use crate::events::VolumeLevel;

verus! {

/// The binding between the monitor and the audio session of the monitored
/// process, together with the last volume it reported.
pub struct AudioVolumeBridge {
    target: String,
    bound: bool,
    last_volume: Option<VolumeLevel>,
}

impl AudioVolumeBridge {
    /// The process name this bridge binds to.
    pub closed spec fn target(self) -> Seq<char> {
        self.target@
    }

    /// Whether an audio session has been bound.
    pub closed spec fn is_bound(self) -> bool {
        self.bound
    }

    /// The most recent volume the bound audio session reported, if any.
    pub closed spec fn last_volume(self) -> Option<VolumeLevel> {
        self.last_volume
    }

    #[verifier::type_invariant]
    spec fn inv(self) -> bool {
        self.bound <==> self.last_volume is Some
    }

    /// A bridge for the given process name, with nothing bound yet.
    pub fn new(target: String) -> (b: AudioVolumeBridge)
        ensures
            b.target() == target@,
            !b.is_bound(),
            b.last_volume() is None,
    {
        AudioVolumeBridge { target, bound: false, last_volume: None }
    }

    /// Handles one "audio session created" notification from the OS audio
    /// subsystem, given the session's process name and its current volume.
    /// The session is bound exactly when its process name matches the
    /// monitored app and nothing is bound yet; binding publishes the initial
    /// `VolumeChanged`. The caller keeps the OS control handle and registers
    /// the volume-change callback only when `true` comes back.
    pub fn on_session_created(
        &mut self,
        process_name: &String,
        current_volume: VolumeLevel,
        bus: &mut EventBus,
    ) -> (bound_now: bool)
        requires
            old(bus).history().len() < usize::MAX,
        ensures
            bound_now == (process_name@ == old(self).target() && !old(self).is_bound()),
            final(self).target() == old(self).target(),
            final(bus).capacity() == old(bus).capacity(),
            bound_now ==> {
                &&& final(self).is_bound()
                &&& final(self).last_volume() == Some(current_volume)
                &&& final(bus).history() == old(bus).history().push(
                    MediaEvent::VolumeChanged(current_volume),
                )
            },
            !bound_now ==> {
                &&& *final(self) == *old(self)
                &&& final(bus).history() == old(bus).history()
            },
    {
        proof {
            use_type_invariant(&*self);
        }
        if self.bound || !(*process_name == self.target) {
            return false;
        }
        bus.publish(MediaEvent::VolumeChanged(current_volume));
        let mut target = String::new();
        std::mem::swap(&mut self.target, &mut target);
        *self = AudioVolumeBridge { target, bound: true, last_volume: Some(current_volume) };
        true
    }

    /// Handles one volume-change notification from the bound audio session:
    /// remembers the level and republishes it on the bus. The OS fires this
    /// callback only for the session the bridge bound, so a binding is
    /// required.
    pub fn on_volume_changed(&mut self, volume: VolumeLevel, bus: &mut EventBus)
        requires
            old(self).is_bound(),
            old(bus).history().len() < usize::MAX,
        ensures
            final(self).target() == old(self).target(),
            final(self).is_bound(),
            final(self).last_volume() == Some(volume),
            final(bus).history() == old(bus).history().push(MediaEvent::VolumeChanged(volume)),
            final(bus).capacity() == old(bus).capacity(),
    {
        proof {
            use_type_invariant(&*self);
        }
        bus.publish(MediaEvent::VolumeChanged(volume));
        self.last_volume = Some(volume);
    }

    /// The last-known volume, or `None` when no audio session is bound yet —
    /// the caller maps `None` to its out-of-band sentinel.
    pub fn get_volume(&self) -> (r: Option<VolumeLevel>)
        ensures
            r == self.last_volume(),
            r is None <==> !self.is_bound(),
    {
        proof {
            use_type_invariant(self);
        }
        self.last_volume
    }

    /// Whether an audio session is bound, hence whether volume-control
    /// requests can be forwarded to the OS.
    pub fn has_bound_session(&self) -> (b: bool)
        ensures
            b == self.is_bound(),
    {
        self.bound
    }
}

} // verus!
