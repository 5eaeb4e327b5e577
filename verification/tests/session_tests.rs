use media_monitor::bus::EventBus;
use media_monitor::bus::RecvOutcome;
use media_monitor::color::classify_color;
use media_monitor::events::MediaEvent;
use media_monitor::events::MediaTimelineData;
use media_monitor::events::PlaybackStatus;
use media_monitor::events::Rgb;
use media_monitor::session::MediaPropertiesSnapshot;
use media_monitor::session::Session;

fn next_event(sub: &mut media_monitor::bus::Subscriber, bus: &EventBus) -> MediaEvent {
    match sub.recv(bus) {
        RecvOutcome::Event(e) => e,
        _ => panic!("expected an event"),
    }
}

fn attach_for_test(bus: &mut EventBus) -> Session {
    let timeline = MediaTimelineData {
        timeline_start_time: 0,
        timeline_end_time: 0,
        timeline_position: 0,
    };
    Session::attach(String::from("Spotify.exe"), PlaybackStatus::Paused, timeline, bus)
}

fn snapshot() -> MediaPropertiesSnapshot {
    MediaPropertiesSnapshot {
        is_play_enabled: true,
        is_pause_enabled: false,
        is_previous_enabled: true,
        is_next_enabled: true,
        title: String::from("Song"),
        artist: String::from("Artist"),
        album: String::from("Album"),
    }
}

#[test]
fn attach_seeds_state_then_publishes_connect() {
    let mut bus = EventBus::new(16);
    let mut sub = bus.subscribe();
    let timeline = MediaTimelineData {
        timeline_start_time: 7,
        timeline_end_time: 200,
        timeline_position: 30,
    };
    let session = Session::attach(
        String::from("Spotify.exe"),
        PlaybackStatus::Playing,
        timeline,
        &mut bus,
    );
    assert!(session.has_registered_callbacks());
    match next_event(&mut sub, &bus) {
        MediaEvent::PlaybackInfoChanged(d) => assert!(d.is_playing),
        _ => panic!("expected the playback seed first"),
    }
    match next_event(&mut sub, &bus) {
        MediaEvent::TimelinePropertiesChanged(d) => {
            assert_eq!(d.timeline_start_time, 7);
            assert_eq!(d.timeline_end_time, 200);
            assert_eq!(d.timeline_position, 30);
        },
        _ => panic!("expected the timeline seed second"),
    }
    assert!(matches!(next_event(&mut sub, &bus), MediaEvent::Connect(app) if app == "Spotify.exe"));
}

#[test]
fn disconnect_publishes_disconnect_for_the_app() {
    let mut bus = EventBus::new(16);
    let session = attach_for_test(&mut bus);
    let mut sub = bus.subscribe();
    session.disconnect(&mut bus);
    assert!(
        matches!(next_event(&mut sub, &bus), MediaEvent::Disconnect(app) if app == "Spotify.exe")
    );
}

#[test]
fn playback_status_maps_to_is_playing() {
    let mut bus = EventBus::new(16);
    let session = attach_for_test(&mut bus);
    let mut sub = bus.subscribe();
    session.playback_info_handler(PlaybackStatus::Playing, &mut bus);
    session.playback_info_handler(PlaybackStatus::Paused, &mut bus);
    session.playback_info_handler(PlaybackStatus::Stopped, &mut bus);
    match next_event(&mut sub, &bus) {
        MediaEvent::PlaybackInfoChanged(d) => assert!(d.is_playing),
        _ => panic!("expected PlaybackInfoChanged"),
    }
    match next_event(&mut sub, &bus) {
        MediaEvent::PlaybackInfoChanged(d) => assert!(!d.is_playing),
        _ => panic!("expected PlaybackInfoChanged"),
    }
    match next_event(&mut sub, &bus) {
        MediaEvent::PlaybackInfoChanged(d) => assert!(!d.is_playing),
        _ => panic!("expected PlaybackInfoChanged"),
    }
}

#[test]
fn timeline_values_pass_through() {
    let mut bus = EventBus::new(16);
    let session = attach_for_test(&mut bus);
    let mut sub = bus.subscribe();
    session.timeline_properties_handler(100, 2000, 1500, &mut bus);
    match next_event(&mut sub, &bus) {
        MediaEvent::TimelinePropertiesChanged(d) => {
            assert_eq!(d.timeline_start_time, 100);
            assert_eq!(d.timeline_end_time, 2000);
            assert_eq!(d.timeline_position, 1500);
        },
        _ => panic!("expected TimelinePropertiesChanged"),
    }
}

#[test]
fn media_properties_without_artwork_fall_back_to_defaults() {
    let mut bus = EventBus::new(16);
    let session = attach_for_test(&mut bus);
    let mut sub = bus.subscribe();
    session.media_properties_handler(snapshot(), None, &mut bus);
    match next_event(&mut sub, &bus) {
        MediaEvent::MediaPropertiesChanged(d) => {
            assert!(d.is_play_enabled);
            assert!(!d.is_pause_enabled);
            assert!(d.is_play_or_pause_enabled);
            assert!(d.is_previous_enabled);
            assert!(d.is_next_enabled);
            assert_eq!(d.title, "Song");
            assert_eq!(d.artist, "Artist");
            assert_eq!(d.album, "Album");
            assert_eq!(d.thumbnail.base64, "");
            assert_eq!(d.thumbnail.prominant_color, Rgb { r: 245, g: 245, b: 245 });
            assert_eq!(d.thumbnail.average_color, Rgb { r: 245, g: 245, b: 245 });
            assert_eq!(
                d.thumbnail.palette,
                classify_color(&Rgb { r: 245, g: 245, b: 245 })
            );
        },
        _ => panic!("expected MediaPropertiesChanged"),
    }
}

#[test]
fn undecodable_artwork_falls_back_to_defaults() {
    let mut bus = EventBus::new(16);
    let session = attach_for_test(&mut bus);
    let mut sub = bus.subscribe();
    let garbage = vec![1u8, 2, 3, 4, 5];
    session.media_properties_handler(snapshot(), Some(&garbage), &mut bus);
    match next_event(&mut sub, &bus) {
        MediaEvent::MediaPropertiesChanged(d) => {
            assert_eq!(d.thumbnail.base64, "");
            assert_eq!(d.thumbnail.prominant_color, Rgb { r: 245, g: 245, b: 245 });
        },
        _ => panic!("expected MediaPropertiesChanged"),
    }
}

#[test]
fn play_or_pause_flag_is_the_or_of_the_two() {
    let mut bus = EventBus::new(16);
    let session = attach_for_test(&mut bus);
    let mut sub = bus.subscribe();
    let mut props = snapshot();
    props.is_play_enabled = false;
    props.is_pause_enabled = true;
    session.media_properties_handler(props, None, &mut bus);
    match next_event(&mut sub, &bus) {
        MediaEvent::MediaPropertiesChanged(d) => {
            assert!(!d.is_play_enabled);
            assert!(d.is_pause_enabled);
            assert!(d.is_play_or_pause_enabled);
        },
        _ => panic!("expected MediaPropertiesChanged"),
    }
}

#[test]
fn volume_sentinel_and_updates() {
    let mut bus = EventBus::new(16);
    let mut session = attach_for_test(&mut bus);
    let mut sub = bus.subscribe();
    // No audio session bound: the sentinel (None, mapped to -1.0 by callers).
    assert_eq!(session.get_volume(), None);
    assert!(!session.set_volume(5000));
    // A foreign audio session does not bind.
    assert!(!session.on_audio_session_created(&String::from("Other.exe"), 9000, &mut bus));
    assert_eq!(session.get_volume(), None);
    // The matching audio session binds, publishes, and is remembered.
    assert!(session.on_audio_session_created(&String::from("Spotify.exe"), 4200, &mut bus));
    assert_eq!(session.get_volume(), Some(4200));
    assert!(session.set_volume(5000));
    // A later volume change event updates the last-known level.
    session.on_volume_changed(4200, &mut bus);
    assert_eq!(session.get_volume(), Some(4200));
    session.on_volume_changed(9999, &mut bus);
    assert_eq!(session.get_volume(), Some(9999));
    let events: Vec<MediaEvent> = {
        let mut out = Vec::new();
        while let RecvOutcome::Event(e) = sub.recv(&bus) {
            out.push(e);
        }
        out
    };
    assert_eq!(events.len(), 3);
    assert!(matches!(events[0], MediaEvent::VolumeChanged(4200)));
    assert!(matches!(events[1], MediaEvent::VolumeChanged(4200)));
    assert!(matches!(events[2], MediaEvent::VolumeChanged(9999)));
}
