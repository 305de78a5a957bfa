use leo_bot::gateway::discord::{ReaderEvent, ReaderPhase};
use leo_bot::gateway::payloads::{bot_properties, identify_text, voice_state_text};
use leo_bot::gateway::{
    on_plain_event, on_plain_frame, plain_heartbeat, plain_identify, plain_reader_step,
    PlainAction, PLAIN_GUILD,
};
use leo_bot::json::Json;

fn read(text: &str) -> (ReaderPhase, PlainAction) {
    plain_reader_step(ReaderPhase::Reading, ReaderEvent::Text(String::from(text)))
}

#[test]
fn plain_introduction_and_heartbeat() {
    assert_eq!(plain_identify("tok"), identify_text(&bot_properties("tok"), 513));
    assert_eq!(plain_heartbeat(), r#"{"d":null,"op":1}"#);
}

#[test]
fn plain_reader_greets_back() {
    let (phase, action) = read(r#"{"op":10,"d":{"heartbeat_interval":5}}"#);
    assert!(matches!(phase, ReaderPhase::Reading));
    assert!(matches!(action, PlainAction::Greet { heartbeat_interval: 5 }));
}

#[test]
fn plain_greeting_must_name_an_interval() {
    let (phase, action) = read(r#"{"op":10,"d":{}}"#);
    assert!(matches!(phase, ReaderPhase::Stopped));
    assert!(matches!(action, PlainAction::Unusable));
}

#[test]
fn plain_reader_answers_heartbeat_requests() {
    let (phase, action) = read(r#"{"op":1}"#);
    assert!(matches!(action, PlainAction::QueueHeartbeat(text) if text == plain_heartbeat()));
    let (phase, action) = plain_reader_step(phase, ReaderEvent::HeartbeatQueued(true));
    assert!(matches!(phase, ReaderPhase::Reading));
    assert!(matches!(action, PlainAction::Wait));
}

#[test]
fn plain_reader_passes_events_on() {
    let (phase, action) = read(r#"{"op":0,"t":"X"}"#);
    match action {
        PlainAction::PassEvent(event) => {
            assert_eq!(event.get("t").as_str(), Some("X"));
            assert_eq!(on_plain_event(&event), None);
        }
        _ => panic!("no event"),
    }
    let (phase, action) = plain_reader_step(phase, ReaderEvent::EventPassed(true));
    assert!(matches!(phase, ReaderPhase::Reading));
    assert!(matches!(action, PlainAction::Wait));
}

#[test]
fn plain_reader_overlooks_the_rest() {
    for text in [r#"{"op":11}"#, r#"{"op":7}"#, r#"{"op":4}"#, "{}", "junk"] {
        let (phase, action) = read(text);
        assert!(matches!(phase, ReaderPhase::Reading));
        assert!(matches!(action, PlainAction::Wait));
    }
    let (phase, _) = plain_reader_step(ReaderPhase::Reading, ReaderEvent::NonText);
    assert!(matches!(phase, ReaderPhase::Reading));
    let (_, action) = on_plain_frame(Json::Null);
    assert!(matches!(action, PlainAction::Wait));
}

#[test]
fn plain_reader_stops_at_the_end() {
    let ends = [
        (ReaderPhase::Reading, ReaderEvent::ReadFailed),
        (ReaderPhase::Reading, ReaderEvent::StreamEnded),
        (ReaderPhase::QueueingHeartbeat, ReaderEvent::HeartbeatQueued(false)),
        (ReaderPhase::PassingEvent, ReaderEvent::EventPassed(false)),
        (ReaderPhase::Stopped, ReaderEvent::NonText),
    ];
    for (phase, event) in ends {
        let (phase, action) = plain_reader_step(phase, event);
        assert!(matches!(phase, ReaderPhase::Stopped));
        assert!(matches!(action, PlainAction::Stop));
    }
}

#[test]
fn voice_states_are_answered() {
    let state = Json::parse(r#"{"op":4}"#).expect("a document");
    assert_eq!(on_plain_event(&state), Some(voice_state_text("41771983423143937", Some(""))));
    assert_eq!(PLAIN_GUILD, "41771983423143937");
    assert_eq!(on_plain_event(&Json::Null), None);
}

#[test]
fn plain_connection_answers_a_run_of_frames() {
    let frames = [
        r#"{"op":10,"d":{"heartbeat_interval":9}}"#,
        r#"{"op":1}"#,
        r#"{"op":11}"#,
        r#"{"op":0,"t":"X"}"#,
        r#"{"op":1}"#,
        "junk",
    ];
    let mut sent = Vec::new();
    let mut phase = ReaderPhase::Reading;
    for frame in frames {
        let (next, action) = plain_reader_step(phase, ReaderEvent::Text(String::from(frame)));
        let (next, _) = match action {
            PlainAction::Greet { heartbeat_interval } => {
                sent.push(format!("greeting {heartbeat_interval}"));
                (next, action)
            }
            PlainAction::QueueHeartbeat(text) => {
                sent.push(text);
                plain_reader_step(next, ReaderEvent::HeartbeatQueued(true))
            }
            PlainAction::PassEvent(_) => plain_reader_step(next, ReaderEvent::EventPassed(true)),
            _ => (next, action),
        };
        phase = next;
    }
    assert_eq!(sent, ["greeting 9", r#"{"d":null,"op":1}"#, r#"{"d":null,"op":1}"#]);
}
