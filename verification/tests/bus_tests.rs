use media_monitor::bus::EventBus;
use media_monitor::bus::RecvOutcome;
use media_monitor::events::MediaEvent;
use media_monitor::events::MediaPlaybackData;
use media_monitor::events::MediaTimelineData;

#[test]
fn subscriber_before_publishes_receives_all_in_order() {
    let mut bus = EventBus::new(8);
    let mut sub = bus.subscribe();
    bus.publish(MediaEvent::Connect(String::from("Spotify.exe")));
    bus.publish(MediaEvent::VolumeChanged(1000));
    bus.publish(MediaEvent::PlaybackInfoChanged(MediaPlaybackData { is_playing: true }));
    bus.publish(MediaEvent::Disconnect(String::from("Spotify.exe")));
    match sub.recv(&bus) {
        RecvOutcome::Event(MediaEvent::Connect(app)) => assert_eq!(app, "Spotify.exe"),
        _ => panic!("expected Connect first"),
    }
    match sub.recv(&bus) {
        RecvOutcome::Event(MediaEvent::VolumeChanged(v)) => assert_eq!(v, 1000),
        _ => panic!("expected VolumeChanged second"),
    }
    match sub.recv(&bus) {
        RecvOutcome::Event(MediaEvent::PlaybackInfoChanged(d)) => assert!(d.is_playing),
        _ => panic!("expected PlaybackInfoChanged third"),
    }
    match sub.recv(&bus) {
        RecvOutcome::Event(MediaEvent::Disconnect(app)) => assert_eq!(app, "Spotify.exe"),
        _ => panic!("expected Disconnect fourth"),
    }
    assert!(matches!(sub.recv(&bus), RecvOutcome::Empty));
}

#[test]
fn publishes_up_to_capacity_lose_nothing() {
    let mut bus = EventBus::new(3);
    let mut sub = bus.subscribe();
    bus.publish(MediaEvent::VolumeChanged(1));
    bus.publish(MediaEvent::VolumeChanged(2));
    bus.publish(MediaEvent::VolumeChanged(3));
    for expected in 1..=3u32 {
        match sub.recv(&bus) {
            RecvOutcome::Event(MediaEvent::VolumeChanged(v)) => assert_eq!(v, expected),
            _ => panic!("lost an event within capacity"),
        }
    }
    assert!(matches!(sub.recv(&bus), RecvOutcome::Empty));
}

#[test]
fn stalled_subscriber_observes_gap_not_crash() {
    let mut bus = EventBus::new(2);
    let mut sub = bus.subscribe();
    bus.publish(MediaEvent::VolumeChanged(1));
    bus.publish(MediaEvent::VolumeChanged(2));
    bus.publish(MediaEvent::VolumeChanged(3));
    match sub.recv(&bus) {
        RecvOutcome::Lagged(missed) => assert_eq!(missed, 1),
        _ => panic!("expected a gap"),
    }
    match sub.recv(&bus) {
        RecvOutcome::Event(MediaEvent::VolumeChanged(v)) => assert_eq!(v, 2),
        _ => panic!("expected oldest retained event after the gap"),
    }
    match sub.recv(&bus) {
        RecvOutcome::Event(MediaEvent::VolumeChanged(v)) => assert_eq!(v, 3),
        _ => panic!("expected newest event last"),
    }
    assert!(matches!(sub.recv(&bus), RecvOutcome::Empty));
}

#[test]
fn publish_succeeds_with_zero_subscribers() {
    let mut bus = EventBus::new(4);
    bus.publish(MediaEvent::TimelinePropertiesChanged(MediaTimelineData {
        timeline_start_time: 0,
        timeline_end_time: 100,
        timeline_position: 50,
    }));
    // A subscriber created afterwards starts at the current end of history.
    let mut sub = bus.subscribe();
    assert!(matches!(sub.recv(&bus), RecvOutcome::Empty));
}

#[test]
fn capacity_is_kept() {
    let bus = EventBus::new(1024);
    assert_eq!(bus.get_capacity(), 1024);
}
