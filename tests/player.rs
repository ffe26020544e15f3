use stremio_core_shell::player::{
    engine_options, EngineEvent, Player, PlayerEvent, PollResult, StopReason,
};
use stremio_core_shell::property::{
    MpvProperty, MpvPropertyValue, UntypedValue, NOT_A_BOOL, NOT_A_FLOAT, NOT_A_STRING, NO_VALUE,
};
use stremio_core_shell::registry::{kind_of, PropertyKind};

fn polled(events: Vec<EngineEvent>) -> Vec<PollResult> {
    events.into_iter().map(PollResult::Event).collect()
}

#[test]
fn registry_kinds() {
    assert_eq!(kind_of("pause"), Some(PropertyKind::Bool));
    assert_eq!(kind_of("speed"), Some(PropertyKind::Float));
    assert_eq!(kind_of("time-pos"), Some(PropertyKind::Float));
    assert_eq!(kind_of("media-title"), Some(PropertyKind::Str));
    assert_eq!(kind_of("not-a-property"), None);
    assert_eq!(kind_of(""), None);
    assert_eq!(kind_of("paus"), None);
}

#[test]
fn unknown_property_is_never_observed() {
    let mut player = Player::new();
    assert_eq!(player.observe_property("no-such-property"), None);
    player.observe_accepted("no-such-property".to_string());
    assert_eq!(player.observe_property("no-such-property"), None);
}

#[test]
fn unknown_property_is_never_set() {
    let player = Player::new();
    let r = player.set_property(MpvProperty(
        "no-such-property".to_string(),
        Some(UntypedValue::Bool(true)),
    ));
    assert!(r.is_err());
}

#[test]
fn observe_registers_once() {
    let mut player = Player::new();
    assert_eq!(player.observe_property("pause"), Some(PropertyKind::Bool));
    player.observe_accepted("pause".to_string());
    for _ in 0..5 {
        assert_eq!(player.observe_property("pause"), None);
        player.observe_accepted("pause".to_string());
    }
    assert_eq!(player.observe_property("speed"), Some(PropertyKind::Float));
}

#[test]
fn rejected_observe_is_asked_again() {
    let player = Player::new();
    assert_eq!(player.observe_property("duration"), Some(PropertyKind::Float));
    assert_eq!(player.observe_property("duration"), Some(PropertyKind::Float));
}

#[test]
fn set_float_with_text_fails_locally() {
    let player = Player::new();
    let r = player.set_property(MpvProperty(
        "speed".to_string(),
        Some(UntypedValue::String("fast".to_string())),
    ));
    assert_eq!(r.unwrap_err(), NOT_A_FLOAT);
}

#[test]
fn set_typed_values() {
    let player = Player::new();
    let bits = 1.5f64.to_bits();
    match player.set_property(MpvProperty("speed".to_string(), Some(UntypedValue::Number(bits)))) {
        Ok(MpvPropertyValue::Float(b)) => assert_eq!(f64::from_bits(b), 1.5),
        other => panic!("unexpected {:?}", other),
    }
    match player.set_property(MpvProperty("pause".to_string(), Some(UntypedValue::Bool(false)))) {
        Ok(MpvPropertyValue::Bool(b)) => assert!(!b),
        other => panic!("unexpected {:?}", other),
    }
    match player.set_property(MpvProperty(
        "sid".to_string(),
        Some(UntypedValue::String("2".to_string())),
    )) {
        Ok(MpvPropertyValue::String(s)) => assert_eq!(s, "2"),
        other => panic!("unexpected {:?}", other),
    }
    assert!(player.set_property(MpvProperty("pause".to_string(), None)).is_err());
    assert!(player
        .set_property(MpvProperty("pause".to_string(), Some(UntypedValue::Number(1))))
        .is_err());
}

#[test]
fn drain_keeps_poll_order() {
    let mut player = Player::new();
    let out = player.events(polled(vec![
        EngineEvent::StartFile,
        EngineEvent::PropertyChange("pause".to_string(), UntypedValue::Bool(true)),
        EngineEvent::EndFile(0),
    ]));
    assert_eq!(out.len(), 3);
    assert!(matches!(out[0], PlayerEvent::Start));
    match &out[1] {
        PlayerEvent::PropertyChange(p) => {
            assert_eq!(p.name(), "pause");
            assert!(matches!(p.value(), Ok(MpvPropertyValue::Bool(true))));
        }
        other => panic!("unexpected {:?}", other),
    }
    assert!(matches!(out[2], PlayerEvent::Stop(None)));
}

#[test]
fn drain_flushes_queued_updates_first() {
    let mut player = Player::new();
    player.queue_update();
    let out = player.events(polled(vec![EngineEvent::StartFile]));
    assert_eq!(out.len(), 2);
    assert!(matches!(out[0], PlayerEvent::Update));
    assert!(matches!(out[1], PlayerEvent::Start));
    assert!(player.events(vec![]).is_empty());
}

#[test]
fn drain_drops_unsupported_events() {
    let mut player = Player::new();
    let out = player.events(polled(vec![
        EngineEvent::Other,
        EngineEvent::PropertyChange("pause".to_string(), UntypedValue::Other),
        EngineEvent::EndFile(3),
        EngineEvent::EndFile(4),
        EngineEvent::EndFile(2),
    ]));
    assert_eq!(out.len(), 3);
    assert!(matches!(out[0], PlayerEvent::Stop(Some(StopReason::Quit))));
    assert!(matches!(out[1], PlayerEvent::Stop(Some(StopReason::General))));
    assert!(matches!(out[2], PlayerEvent::Stop(None)));
}

#[test]
fn drain_stops_at_engine_error() {
    let mut player = Player::new();
    let out = player.events(vec![
        PollResult::Event(EngineEvent::StartFile),
        PollResult::Error("broken".to_string()),
        PollResult::Event(EngineEvent::EndFile(0)),
    ]);
    assert_eq!(out.len(), 2);
    assert!(matches!(out[0], PlayerEvent::Start));
    match &out[1] {
        PlayerEvent::MpvError(m) => assert_eq!(m, "broken"),
        other => panic!("unexpected {:?}", other),
    }
}

#[test]
fn render_needs_context_and_size() {
    let mut player = Player::new();
    assert!(!player.render(640, 480));
    assert!(!player.report_swap());
    player.setup(true);
    assert!(player.render(640, 480));
    assert!(!player.render(0, 480));
    assert!(!player.render(640, -1));
    assert!(player.report_swap());
    player.release();
    assert!(!player.render(640, 480));
}

#[test]
fn from_engine_converts_one_event() {
    assert!(matches!(PlayerEvent::from_engine(EngineEvent::StartFile), Some(PlayerEvent::Start)));
    assert!(PlayerEvent::from_engine(EngineEvent::Other).is_none());
}

#[test]
fn value_errors_name_the_kind() {

    let p = MpvProperty("pause".to_string(), Some(UntypedValue::String("yes".to_string())));
    assert_eq!(p.value().unwrap_err(), NOT_A_BOOL);
    let p = MpvProperty("media-title".to_string(), Some(UntypedValue::Bool(true)));
    assert_eq!(p.value().unwrap_err(), NOT_A_STRING);
    let p = MpvProperty("media-title".to_string(), None);
    assert_eq!(p.value().unwrap_err(), NO_VALUE);
    let p = MpvProperty("unknown".to_string(), Some(UntypedValue::Bool(true)));
    assert_eq!(p.value().unwrap_err(), NO_VALUE);
}

#[test]
fn engine_options_follow_log_scope() {

    let quiet = engine_options(None);
    assert_eq!(quiet.len(), 9);
    assert_eq!(quiet[0], ("vo".to_string(), "libmpv".to_string()));
    assert_eq!(quiet[5], ("msg-level".to_string(), "all=no".to_string()));
    assert_eq!(quiet[7], ("demuxer-max-bytes".to_string(), "100000000".to_string()));
    let debug = engine_options(Some("debug".to_string()));
    assert_eq!(debug[5], ("msg-level".to_string(), "all=debug".to_string()));
}
