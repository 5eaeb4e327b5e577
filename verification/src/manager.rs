//! The session manager: maintains the zero-or-one active session against
//! the stream of OS "session list changed" notifications.
//!
//! On each discovery tick it filters the observed app ids by equality with
//! the configured target app id. A match with no session attached creates
//! one (seeding the playback and timeline state, then publishing
//! `Connect`); a match while a session is attached is deliberately a no-op,
//! refusing to replace an attachment mid-flight; no match while a session
//! is attached tears it down (publishing `Disconnect`). A failed
//! enumeration counts as "no sessions this tick".

use vstd::prelude::*;

use crate::bus::EventBus;
use crate::events::MediaEvent;
use crate::events::MediaPlaybackData;
use crate::events::MediaTimelineData;
use crate::events::PlaybackStatus;
use crate::events::VolumeLevel;
use crate::session::Session;

verus! {

/// What one discovery tick did.
#[derive(Clone, Copy, PartialEq, Eq, Structural, Debug)]
pub enum DiscoveryOutcome {
    /// A matching session appeared and was attached; the caller registers
    /// the OS callbacks for it.
    Attached,
    /// A matching session was observed but one is already attached: dedup,
    /// nothing published.
    AlreadyActive,
    /// The target disappeared and the attached session was torn down; the
    /// caller unregisters the OS callbacks.
    Detached,
    /// No match observed and nothing attached.
    Idle,
}

/// The projection of a publish history onto the `Connect`/`Disconnect`
/// events for one app id: `true` for each `Connect`, `false` for each
/// `Disconnect`, in publish order.
pub open spec fn attach_trace(log: Seq<MediaEvent>, app: Seq<char>) -> Seq<bool>
    decreases log.len(),
{
    if log.len() == 0 {
        Seq::empty()
    } else {
        let rest = attach_trace(log.drop_last(), app);
        if log.last().is_connect_for(app) {
            rest.push(true)
        } else if log.last().is_disconnect_for(app) {
            rest.push(false)
        } else {
            rest
        }
    }
}

/// An attachment trace alternates and starts with `Connect`: the events at
/// even positions are `Connect`, those at odd positions `Disconnect`.
pub open spec fn alternating(trace: Seq<bool>) -> bool {
    forall|i: int| 0 <= i < trace.len() ==> trace[i] == (i % 2 == 0)
}

/// Whether an event is part of some app's attachment trace.
pub open spec fn is_attachment_event(e: MediaEvent) -> bool {
    e is Connect || e is Disconnect
}

/// Whether any observed app id equals the target.
pub open spec fn tick_matches(obs: Seq<String>, target: Seq<char>) -> bool {
    exists|i: int| 0 <= i < obs.len() && (#[trigger] obs[i])@ == target
}

/// The app ids one discovery tick observed; a failed enumeration (`None`)
/// counts as no sessions observed.
pub open spec fn observed_ids(observed: Option<&Vec<String>>) -> Seq<String> {
    match observed {
        Some(list) => list@,
        None => Seq::empty(),
    }
}

/// The invariant coupling a manager to the publish history of the bus it
/// works against, assuming all attachment events on that bus came from this
/// manager:
/// - the target app's attachment trace alternates, starting with `Connect`,
///   and ends in an unmatched `Connect` exactly when a session is attached;
/// - no other app has any attachment event at all.
pub open spec fn coupled(m: MediaManager, log: Seq<MediaEvent>) -> bool {
    &&& alternating(attach_trace(log, m.target()))
    &&& attach_trace(log, m.target()).len() % 2 == (if m.has_active() {
        1int
    } else {
        0int
    })
    &&& forall|app: Seq<char>|
        app != m.target() ==> (#[trigger] attach_trace(log, app)).len() == 0
}

/// Owner of the zero-or-one active session, keyed to one target app id.
pub struct MediaManager {
    target_app_id: String,
    session: Option<Session>,
}

impl MediaManager {
    /// The app id the discovery filter matches against.
    pub closed spec fn target(self) -> Seq<char> {
        self.target_app_id@
    }

    /// The attached session, if any.
    pub closed spec fn active(self) -> Option<Session> {
        self.session
    }

    /// Whether a session is currently attached.
    pub open spec fn has_active(self) -> bool {
        self.active() is Some
    }

    /// The app id of the attached session, if any.
    pub open spec fn active_app(self) -> Seq<char> {
        match self.active() {
            Some(s) => s.app_id(),
            None => Seq::empty(),
        }
    }

    /// Whether the attached session has bound an audio session.
    pub open spec fn active_audio_bound(self) -> bool {
        match self.active() {
            Some(s) => s.audio_bound(),
            None => false,
        }
    }

    /// The last volume the attached session's audio bridge reported, if any.
    pub open spec fn active_last_volume(self) -> Option<VolumeLevel> {
        match self.active() {
            Some(s) => s.last_volume(),
            None => None,
        }
    }

    /// How many sessions are attached: zero or one, by construction.
    pub open spec fn active_count(self) -> nat {
        if self.has_active() {
            1
        } else {
            0
        }
    }

    #[verifier::type_invariant]
    spec fn inv(self) -> bool {
        match self.session {
            Some(s) => s.wf() && s.app_id() == self.target_app_id@,
            None => true,
        }
    }

    /// A manager for the given target app id, with nothing attached.
    pub fn new(target_app_id: String) -> (m: MediaManager)
        ensures
            m.target() == target_app_id@,
            !m.has_active(),
    {
        MediaManager { target_app_id, session: None }
    }

    /// Read access to the attached session's control surface. A returned
    /// session is well formed, belongs to the target app, and has its
    /// property-change callbacks registered — callbacks are registered
    /// exactly while a session is attached.
    pub fn get_session(&self) -> (r: Option<&Session>)
        ensures
            r is Some <==> self.has_active(),
            r matches Some(s) ==> {
                &&& self.active() == Some(*s)
                &&& s.wf()
                &&& s.app_id() == self.target()
                &&& s.callbacks_registered()
            },
    {
        proof {
            use_type_invariant(self);
            match &self.session {
                Some(s) => s.lemma_wf_callbacks(),
                None => {},
            }
        }
        self.session.as_ref()
    }

    /// Handles one discovery tick: the list of app ids the OS reported, or
    /// `None` when enumeration failed (treated as no sessions observed),
    /// together with the current playback status and timeline of the matched
    /// session, fetched by the caller to seed initial state on attachment.
    /// Attaches on a fresh match — publishing the two seed events and then
    /// `Connect` — skips on a duplicate match, detaches when the target
    /// disappeared (publishing exactly one `Disconnect`), and preserves the
    /// coupling invariant throughout.
    pub fn on_sessions_changed(
        &mut self,
        observed: Option<&Vec<String>>,
        initial_status: PlaybackStatus,
        initial_timeline: MediaTimelineData,
        bus: &mut EventBus,
    ) -> (outcome: DiscoveryOutcome)
        requires
            old(bus).history().len() + 3 <= usize::MAX,
        ensures
            final(self).target() == old(self).target(),
            final(bus).capacity() == old(bus).capacity(),
            ({
                let matched = tick_matches(observed_ids(observed), old(self).target());
                if matched && old(self).has_active() {
                    &&& outcome == DiscoveryOutcome::AlreadyActive
                    &&& *final(self) == *old(self)
                    &&& final(bus).history() == old(bus).history()
                } else if matched {
                    &&& outcome == DiscoveryOutcome::Attached
                    &&& final(self).has_active()
                    &&& final(self).active_app() == old(self).target()
                    &&& !final(self).active_audio_bound()
                    &&& final(bus).history().len() == old(bus).history().len() + 3
                    &&& final(bus).history().subrange(0, old(bus).history().len() as int)
                        == old(bus).history()
                    &&& final(bus).history()[old(bus).history().len() as int]
                        == MediaEvent::PlaybackInfoChanged(
                        MediaPlaybackData {
                            is_playing: initial_status == PlaybackStatus::Playing,
                        },
                    )
                    &&& final(bus).history()[old(bus).history().len() as int + 1]
                        == MediaEvent::TimelinePropertiesChanged(initial_timeline)
                    &&& final(bus).history().last().is_connect_for(old(self).target())
                } else if old(self).has_active() {
                    &&& outcome == DiscoveryOutcome::Detached
                    &&& !final(self).has_active()
                    &&& final(bus).history().len() == old(bus).history().len() + 1
                    &&& final(bus).history().drop_last() == old(bus).history()
                    &&& final(bus).history().last().is_disconnect_for(old(self).target())
                } else {
                    &&& outcome == DiscoveryOutcome::Idle
                    &&& *final(self) == *old(self)
                    &&& final(bus).history() == old(bus).history()
                }
            }),
            coupled(*old(self), old(bus).history()) ==> coupled(
                *final(self),
                final(bus).history(),
            ),
    {
        proof {
            use_type_invariant(&*self);
        }
        let matched = match observed {
            Some(list) => contains_app(list, &self.target_app_id),
            None => false,
        };
        if matched {
            if self.session.is_some() {
                return DiscoveryOutcome::AlreadyActive;
            }
            let announced = self.target_app_id.clone();
            let ghost log0 = bus.history();
            let s = Session::attach(announced, initial_status, initial_timeline, bus);
            self.session = Some(s);
            proof {
                let seed_playback = MediaEvent::PlaybackInfoChanged(
                    MediaPlaybackData { is_playing: initial_status == PlaybackStatus::Playing },
                );
                let seed_timeline = MediaEvent::TimelinePropertiesChanged(initial_timeline);
                let log1 = log0.push(seed_playback);
                let log2 = log1.push(seed_timeline);
                assert(bus.history().subrange(0, log0.len() as int) =~= log0);
                assert(bus.history().drop_last() =~= log2);
                if coupled(*old(self), log0) {
                    lemma_coupled_data_event(*old(self), log0, seed_playback);
                    lemma_coupled_data_event(*old(self), log1, seed_timeline);
                    lemma_coupled_after_connect(*old(self), *self, log2, bus.history());
                }
            }
            DiscoveryOutcome::Attached
        } else {
            let mut slot: Option<Session> = None;
            std::mem::swap(&mut self.session, &mut slot);
            match slot {
                Some(s) => {
                    let ghost log0 = bus.history();
                    s.disconnect(bus);
                    proof {
                        if coupled(*old(self), log0) {
                            lemma_coupled_after_disconnect(*old(self), *self, log0, bus.history());
                        }
                    }
                    DiscoveryOutcome::Detached
                },
                None => DiscoveryOutcome::Idle,
            }
        }
    }

    /// Forwards one "audio session created" notification to the attached
    /// session, if any (see `Session::on_audio_session_created`). With no
    /// session attached nothing happens.
    pub fn audio_session_created(
        &mut self,
        process_name: &String,
        current_volume: VolumeLevel,
        bus: &mut EventBus,
    ) -> (bound_now: bool)
        requires
            old(bus).history().len() < usize::MAX,
        ensures
            final(self).target() == old(self).target(),
            final(self).has_active() == old(self).has_active(),
            final(bus).capacity() == old(bus).capacity(),
            bound_now == (old(self).has_active() && process_name@ == old(self).target()
                && !old(self).active_audio_bound()),
            bound_now ==> {
                &&& final(self).active_audio_bound()
                &&& final(self).active_last_volume() == Some(current_volume)
                &&& final(bus).history() == old(bus).history().push(
                    MediaEvent::VolumeChanged(current_volume),
                )
            },
            !bound_now ==> {
                &&& final(self).active_audio_bound() == old(self).active_audio_bound()
                &&& final(self).active_last_volume() == old(self).active_last_volume()
                &&& final(bus).history() == old(bus).history()
            },
            coupled(*old(self), old(bus).history()) ==> coupled(
                *final(self),
                final(bus).history(),
            ),
    {
        proof {
            use_type_invariant(&*self);
        }
        let mut slot: Option<Session> = None;
        std::mem::swap(&mut self.session, &mut slot);
        let bound_now = match &mut slot {
            Some(s) => s.on_audio_session_created(process_name, current_volume, bus),
            None => false,
        };
        std::mem::swap(&mut self.session, &mut slot);
        proof {
            if coupled(*old(self), old(bus).history()) && bound_now {
                lemma_coupled_data_event(
                    *self,
                    old(bus).history(),
                    MediaEvent::VolumeChanged(current_volume),
                );
            }
        }
        bound_now
    }

    /// Forwards one volume-change notification from the bound audio session
    /// to the attached session (see `Session::on_volume_changed`). With no
    /// session attached, or none bound, nothing happens.
    pub fn volume_changed(&mut self, volume: VolumeLevel, bus: &mut EventBus) -> (published: bool)
        requires
            old(bus).history().len() < usize::MAX,
        ensures
            final(self).target() == old(self).target(),
            final(self).has_active() == old(self).has_active(),
            final(bus).capacity() == old(bus).capacity(),
            published == old(self).active_audio_bound(),
            published ==> {
                &&& final(self).active_audio_bound()
                &&& final(self).active_last_volume() == Some(volume)
                &&& final(bus).history() == old(bus).history().push(
                    MediaEvent::VolumeChanged(volume),
                )
            },
            !published ==> {
                &&& final(self).active_audio_bound() == old(self).active_audio_bound()
                &&& final(self).active_last_volume() == old(self).active_last_volume()
                &&& final(bus).history() == old(bus).history()
            },
            coupled(*old(self), old(bus).history()) ==> coupled(
                *final(self),
                final(bus).history(),
            ),
    {
        proof {
            use_type_invariant(&*self);
        }
        let mut slot: Option<Session> = None;
        std::mem::swap(&mut self.session, &mut slot);
        let published = match &mut slot {
            Some(s) => {
                if s.has_bound_audio() {
                    s.on_volume_changed(volume, bus);
                    true
                } else {
                    false
                }
            },
            None => false,
        };
        std::mem::swap(&mut self.session, &mut slot);
        proof {
            if coupled(*old(self), old(bus).history()) && published {
                lemma_coupled_data_event(*self, old(bus).history(), MediaEvent::VolumeChanged(volume));
            }
        }
        published
    }
}

/// Whether any app id in the list equals the target.
fn contains_app(list: &Vec<String>, target: &String) -> (b: bool)
    ensures
        b == tick_matches(list@, target@),
{
    let mut i: usize = 0;
    while i < list.len()
        invariant
            i <= list.len(),
            forall|j: int| 0 <= j < i ==> (#[trigger] list@[j])@ != target@,
        decreases list.len() - i,
    {
        if list[i] == *target {
            return true;
        }
        i = i + 1;
    }
    false
}

/// How one pushed event extends an attachment trace: a `Connect` for the
/// app appends `true`, a `Disconnect` for it appends `false`, anything else
/// leaves the trace unchanged.
proof fn lemma_attach_trace_push(log: Seq<MediaEvent>, app: Seq<char>, e: MediaEvent)
    ensures
        attach_trace(log.push(e), app) == (if e.is_connect_for(app) {
            attach_trace(log, app).push(true)
        } else if e.is_disconnect_for(app) {
            attach_trace(log, app).push(false)
        } else {
            attach_trace(log, app)
        }),
{
    assert(log.push(e).drop_last() =~= log);
    assert(log.push(e).last() == e);
}

/// A history of one more event whose front is `log` is `log` with its last
/// event pushed.
proof fn lemma_push_decomposition(log2: Seq<MediaEvent>, log1: Seq<MediaEvent>)
    requires
        log2.len() == log1.len() + 1,
        log2.drop_last() == log1,
    ensures
        log2 == log1.push(log2.last()),
{
    assert(log2 =~= log1.push(log2.last()));
}

/// Publishing an event that is neither `Connect` nor `Disconnect` preserves
/// the coupling invariant.
pub proof fn lemma_coupled_data_event(m: MediaManager, log: Seq<MediaEvent>, e: MediaEvent)
    requires
        coupled(m, log),
        !is_attachment_event(e),
    ensures
        coupled(m, log.push(e)),
{
    lemma_attach_trace_push(log, m.target(), e);
    assert forall|app: Seq<char>| app != m.target() implies (#[trigger] attach_trace(
        log.push(e),
        app,
    )).len() == 0 by {
        lemma_attach_trace_push(log, app, e);
    }
}

/// Attaching publishes one `Connect` for the target on the end of the
/// history, which keeps the coupling invariant.
proof fn lemma_coupled_after_connect(
    m0: MediaManager,
    m1: MediaManager,
    log0: Seq<MediaEvent>,
    log1: Seq<MediaEvent>,
)
    requires
        coupled(m0, log0),
        !m0.has_active(),
        m1.has_active(),
        m1.target() == m0.target(),
        log1.len() == log0.len() + 1,
        log1.drop_last() == log0,
        log1.last().is_connect_for(m0.target()),
    ensures
        coupled(m1, log1),
{
    lemma_push_decomposition(log1, log0);
    let e = log1.last();
    lemma_attach_trace_push(log0, m0.target(), e);
    let t0 = attach_trace(log0, m0.target());
    let t1 = attach_trace(log1, m1.target());
    assert(t1 == t0.push(true));
    assert forall|i: int| 0 <= i < t1.len() implies t1[i] == (i % 2 == 0) by {
        if i < t0.len() {
            assert(t1[i] == t0[i]);
        }
    }
    assert forall|app: Seq<char>| app != m1.target() implies (#[trigger] attach_trace(
        log1,
        app,
    )).len() == 0 by {
        lemma_attach_trace_push(log0, app, e);
    }
}

/// Detaching publishes one `Disconnect` for the target on the end of the
/// history, which keeps the coupling invariant.
proof fn lemma_coupled_after_disconnect(
    m0: MediaManager,
    m1: MediaManager,
    log0: Seq<MediaEvent>,
    log1: Seq<MediaEvent>,
)
    requires
        coupled(m0, log0),
        m0.has_active(),
        !m1.has_active(),
        m1.target() == m0.target(),
        log1.len() == log0.len() + 1,
        log1.drop_last() == log0,
        log1.last().is_disconnect_for(m0.target()),
    ensures
        coupled(m1, log1),
{
    lemma_push_decomposition(log1, log0);
    let e = log1.last();
    lemma_attach_trace_push(log0, m0.target(), e);
    let t0 = attach_trace(log0, m0.target());
    let t1 = attach_trace(log1, m1.target());
    assert(t1 == t0.push(false));
    assert forall|i: int| 0 <= i < t1.len() implies t1[i] == (i % 2 == 0) by {
        if i < t0.len() {
            assert(t1[i] == t0[i]);
        }
    }
    assert forall|app: Seq<char>| app != m1.target() implies (#[trigger] attach_trace(
        log1,
        app,
    )).len() == 0 by {
        lemma_attach_trace_push(log0, app, e);
    }
}

/// Law: the coupling invariant holds at the start of a run — a manager with
/// nothing attached is coupled to an empty publish history, so every history
/// built from there through the manager's operations keeps it.
pub proof fn lemma_coupled_initially(m: MediaManager)
    requires
        !m.has_active(),
    ensures
        coupled(m, Seq::<MediaEvent>::empty()),
{
    assert forall|app: Seq<char>| app != m.target() implies (#[trigger] attach_trace(
        Seq::<MediaEvent>::empty(),
        app,
    )).len() == 0 by {
    }
}

/// Law: at all times the manager holds zero or one active session.
pub proof fn lemma_at_most_one_active(m: MediaManager)
    ensures
        m.active_count() <= 1,
{
}

/// Law: under the coupling invariant, every app id's event subsequence
/// restricted to `Connect`/`Disconnect` alternates, starting with `Connect`
/// (`Connect` at every even position, `Disconnect` at every odd one).
pub proof fn lemma_attachments_alternate(m: MediaManager, log: Seq<MediaEvent>, app: Seq<char>)
    requires
        coupled(m, log),
    ensures
        alternating(attach_trace(log, app)),
{
    if app != m.target() {
        assert(attach_trace(log, app).len() == 0);
    }
}

} // verus!
