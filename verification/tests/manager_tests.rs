use media_monitor::bus::EventBus;
use media_monitor::bus::RecvOutcome;
use media_monitor::events::MediaEvent;
use media_monitor::events::MediaTimelineData;
use media_monitor::events::PlaybackStatus;
use media_monitor::manager::DiscoveryOutcome;
use media_monitor::manager::MediaManager;

fn seed_timeline() -> MediaTimelineData {
    MediaTimelineData { timeline_start_time: 0, timeline_end_time: 0, timeline_position: 0 }
}

fn drain(sub: &mut media_monitor::bus::Subscriber, bus: &EventBus) -> Vec<MediaEvent> {
    let mut events = Vec::new();
    loop {
        match sub.recv(bus) {
            RecvOutcome::Event(e) => events.push(e),
            RecvOutcome::Lagged(_) => {},
            RecvOutcome::Empty => return events,
        }
    }
}

#[test]
fn matching_discovery_attaches_seeds_and_publishes_one_connect() {
    let mut bus = EventBus::new(16);
    let mut sub = bus.subscribe();
    let mut manager = MediaManager::new(String::from("Spotify.exe"));
    let tick = vec![String::from("Spotify.exe"), String::from("Other.exe")];
    let timeline = MediaTimelineData {
        timeline_start_time: 5,
        timeline_end_time: 100,
        timeline_position: 42,
    };
    let outcome =
        manager.on_sessions_changed(Some(&tick), PlaybackStatus::Playing, timeline, &mut bus);
    assert_eq!(outcome, DiscoveryOutcome::Attached);
    let session = manager.get_session().expect("a session should be attached");
    assert!(session.has_registered_callbacks());
    // Attachment seeds the current playback and timeline state, then
    // announces the connection: exactly one Connect, and it comes last.
    let events = drain(&mut sub, &bus);
    assert_eq!(events.len(), 3);
    match &events[0] {
        MediaEvent::PlaybackInfoChanged(d) => assert!(d.is_playing),
        _ => panic!("expected the playback seed first"),
    }
    match &events[1] {
        MediaEvent::TimelinePropertiesChanged(d) => {
            assert_eq!(d.timeline_start_time, 5);
            assert_eq!(d.timeline_end_time, 100);
            assert_eq!(d.timeline_position, 42);
        },
        _ => panic!("expected the timeline seed second"),
    }
    match &events[2] {
        MediaEvent::Connect(app) => assert_eq!(app, "Spotify.exe"),
        _ => panic!("expected Connect last"),
    }
    let connects = events
        .iter()
        .filter(|e| matches!(e, MediaEvent::Connect(_)))
        .count();
    assert_eq!(connects, 1);
}

#[test]
fn duplicate_discovery_is_deduplicated() {
    let mut bus = EventBus::new(16);
    let mut manager = MediaManager::new(String::from("Spotify.exe"));
    let tick = vec![String::from("Spotify.exe")];
    assert_eq!(manager.on_sessions_changed(Some(&tick), PlaybackStatus::Paused, seed_timeline(), &mut bus), DiscoveryOutcome::Attached);
    let mut sub = bus.subscribe();
    let again = vec![String::from("Spotify.exe")];
    assert_eq!(
        manager.on_sessions_changed(Some(&again), PlaybackStatus::Paused, seed_timeline(), &mut bus),
        DiscoveryOutcome::AlreadyActive
    );
    assert!(manager.get_session().is_some());
    assert!(drain(&mut sub, &bus).is_empty());
}

#[test]
fn disappearing_target_detaches_and_publishes_one_disconnect() {
    let mut bus = EventBus::new(16);
    let mut manager = MediaManager::new(String::from("Spotify.exe"));
    let tick = vec![String::from("Spotify.exe")];
    manager.on_sessions_changed(Some(&tick), PlaybackStatus::Paused, seed_timeline(), &mut bus);
    let mut sub = bus.subscribe();
    let empty_tick: Vec<String> = vec![String::from("Other.exe")];
    let outcome = manager.on_sessions_changed(Some(&empty_tick), PlaybackStatus::Paused, seed_timeline(), &mut bus);
    assert_eq!(outcome, DiscoveryOutcome::Detached);
    assert!(manager.get_session().is_none());
    let events = drain(&mut sub, &bus);
    assert_eq!(events.len(), 1);
    match &events[0] {
        MediaEvent::Disconnect(app) => assert_eq!(app, "Spotify.exe"),
        _ => panic!("expected exactly one Disconnect"),
    }
}

#[test]
fn enumeration_failure_counts_as_no_sessions() {
    let mut bus = EventBus::new(16);
    let mut manager = MediaManager::new(String::from("Spotify.exe"));
    let tick = vec![String::from("Spotify.exe")];
    manager.on_sessions_changed(Some(&tick), PlaybackStatus::Paused, seed_timeline(), &mut bus);
    let outcome = manager.on_sessions_changed(None, PlaybackStatus::Paused, seed_timeline(), &mut bus);
    assert_eq!(outcome, DiscoveryOutcome::Detached);
    assert!(manager.get_session().is_none());
}

#[test]
fn no_match_and_no_session_is_idle() {
    let mut bus = EventBus::new(16);
    let mut manager = MediaManager::new(String::from("Spotify.exe"));
    let mut sub = bus.subscribe();
    let tick = vec![String::from("Other.exe")];
    assert_eq!(manager.on_sessions_changed(Some(&tick), PlaybackStatus::Paused, seed_timeline(), &mut bus), DiscoveryOutcome::Idle);
    assert_eq!(manager.on_sessions_changed(None, PlaybackStatus::Paused, seed_timeline(), &mut bus), DiscoveryOutcome::Idle);
    assert!(drain(&mut sub, &bus).is_empty());
}

#[test]
fn connect_disconnect_alternate_over_many_ticks() {
    let mut bus = EventBus::new(64);
    let mut sub = bus.subscribe();
    let mut manager = MediaManager::new(String::from("Spotify.exe"));
    let present = vec![String::from("Spotify.exe")];
    let absent: Vec<String> = Vec::new();
    for _ in 0..3 {
        manager.on_sessions_changed(Some(&present), PlaybackStatus::Playing, seed_timeline(), &mut bus);
        manager.on_sessions_changed(Some(&present), PlaybackStatus::Playing, seed_timeline(), &mut bus);
        manager.on_sessions_changed(Some(&absent), PlaybackStatus::Paused, seed_timeline(), &mut bus);
        manager.on_sessions_changed(Some(&absent), PlaybackStatus::Paused, seed_timeline(), &mut bus);
    }
    let events = drain(&mut sub, &bus);
    let attachment_events: Vec<&MediaEvent> = events
        .iter()
        .filter(|e| matches!(e, MediaEvent::Connect(_) | MediaEvent::Disconnect(_)))
        .collect();
    assert_eq!(attachment_events.len(), 6);
    for (i, event) in attachment_events.iter().enumerate() {
        if i % 2 == 0 {
            assert!(matches!(event, MediaEvent::Connect(app) if app == "Spotify.exe"));
        } else {
            assert!(matches!(event, MediaEvent::Disconnect(app) if app == "Spotify.exe"));
        }
    }
}

#[test]
fn audio_notifications_flow_through_the_manager() {
    let mut bus = EventBus::new(16);
    let mut manager = MediaManager::new(String::from("Spotify.exe"));
    let tick = vec![String::from("Spotify.exe")];
    manager.on_sessions_changed(Some(&tick), PlaybackStatus::Paused, seed_timeline(), &mut bus);
    let mut sub = bus.subscribe();
    // A foreign process's audio session is ignored.
    assert!(!manager.audio_session_created(&String::from("Other.exe"), 9999, &mut bus));
    // The matching process binds and the initial volume is published.
    assert!(manager.audio_session_created(&String::from("Spotify.exe"), 4200, &mut bus));
    // Never rebound while attached.
    assert!(!manager.audio_session_created(&String::from("Spotify.exe"), 1111, &mut bus));
    assert!(manager.volume_changed(5000, &mut bus));
    let events = drain(&mut sub, &bus);
    assert_eq!(events.len(), 2);
    assert!(matches!(events[0], MediaEvent::VolumeChanged(4200)));
    assert!(matches!(events[1], MediaEvent::VolumeChanged(5000)));
}
