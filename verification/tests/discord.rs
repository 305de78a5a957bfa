use leo_bot::gateway::discord::{
    classify_frame, get_random_number, read_opcode, sender_on_message, sender_step, Frame,
    GatewayReader, ReaderAction, ReaderEvent, ReaderPhase, SenderAction, SenderContext,
    SenderEvent, SenderState, DEFAULT_HEARTBEAT_INTERVAL, GATEWAY_URL, INTENTS,
};
use leo_bot::gateway::payloads::{bot_properties, heartbeat_text, identify_text, resume_text};
use leo_bot::json::Json;

fn parsed(text: &str) -> Json {
    Json::parse(text).expect("a document")
}

fn context(session: Option<&str>, url: Option<&str>) -> SenderContext {
    SenderContext {
        token: String::from("tok"),
        session_id: session.map(String::from),
        resume_gateway_url: url.map(String::from),
        seq: Some(5),
    }
}

fn outbound(message: &str, known: &SenderContext) -> (SenderState, SenderAction) {
    sender_step(
        SenderState::Listening,
        SenderEvent::Outbound(String::from(message)),
        known,
    )
}

fn text(content: &str) -> ReaderEvent {
    ReaderEvent::Text(String::from(content))
}

#[test]
fn random_numbers_stay_in_their_range() {
    let mut seen = [false; 22];
    for _ in 0..5000 {
        let number = get_random_number(1, 21);
        assert!((1..=21).contains(&number));
        seen[number as usize] = true;
    }
    assert_eq!(seen.iter().filter(|s| **s).count(), 21);
    assert_eq!(get_random_number(4, 4), 4);
    assert!(get_random_number(u64::MAX - 1, u64::MAX) >= u64::MAX - 1);
}

#[test]
fn gateway_is_the_tenth_version() {
    assert_eq!(GATEWAY_URL, "wss://gateway.discord.gg/?v=10&encoding=json");
    assert_eq!(INTENTS, 1 + 512 + 32768);
}

#[test]
fn opcodes_are_read_from_messages() {
    assert_eq!(read_opcode(r#"{"op":4,"d":null}"#), Some(4));
    assert_eq!(read_opcode(r#"{"op":"4"}"#), None);
    assert_eq!(read_opcode(r#"{"d":4}"#), None);
    assert_eq!(read_opcode("not a document"), None);
    assert_eq!(read_opcode(""), None);
}

#[test]
fn sender_forwards_payloads() {
    let known = context(None, None);
    let message = r#"{"op":1,"d":null}"#;
    let (state, action) = outbound(message, &known);
    assert!(matches!(state, SenderState::Forwarding));
    assert!(matches!(action, SenderAction::Forward(m) if m == message));
    let (state, action) = sender_step(state, SenderEvent::Forwarded(true), &known);
    assert!(matches!(state, SenderState::Listening));
    assert!(matches!(action, SenderAction::Wait));
}

#[test]
fn sender_drops_what_is_no_payload() {
    let known = context(None, None);
    for message in ["", "{}", "[]", r#"{"op":-1}"#, "junk"] {
        let (state, action) = outbound(message, &known);
        assert!(matches!(state, SenderState::Listening));
        assert!(matches!(action, SenderAction::DropInvalid));
    }
}

#[test]
fn sender_resumes_on_request() {
    let known = context(Some("sess"), Some("wss://resume"));
    let (state, action) = outbound(r#"{"op":6}"#, &known);
    assert!(matches!(action, SenderAction::Connect(url) if url == "wss://resume"));
    let (state, action) = sender_step(state, SenderEvent::Connected(true), &known);
    let expected = resume_text("tok", "sess", Some(5));
    assert!(matches!(action, SenderAction::SendResume(payload) if payload == expected));
    let (state, action) = sender_step(state, SenderEvent::ResumeSent(true), &known);
    assert!(matches!(action, SenderAction::HandWrite));
    let (state, action) = sender_step(state, SenderEvent::WriteHanded(true), &known);
    assert!(matches!(action, SenderAction::HandRead));
    let (state, action) = sender_step(state, SenderEvent::ReadHanded(true), &known);
    assert!(matches!(action, SenderAction::Wait));
    let (state, action) = sender_step(state, SenderEvent::WriteReplaced, &known);
    assert!(matches!(action, SenderAction::UseNewWrite));
    assert!(matches!(state, SenderState::Listening));
}

#[test]
fn sender_needs_a_session_to_resume() {
    for known in [
        context(None, None),
        context(Some("sess"), None),
        context(None, Some("wss://resume")),
    ] {
        let (state, action) =
            sender_on_message(String::from(r#"{"op":6}"#), Some(6), &known);
        assert!(matches!(state, SenderState::Listening));
        assert!(matches!(action, SenderAction::DropWithoutSession));
    }
}

#[test]
fn failed_resumption_does_not_stop_the_sender() {
    let known = context(Some("sess"), Some("wss://resume"));
    let (state, _) = outbound(r#"{"op":6}"#, &known);
    let (state, action) = sender_step(state, SenderEvent::Connected(false), &known);
    assert!(matches!(state, SenderState::Listening));
    assert!(matches!(action, SenderAction::Wait));
    let (state, action) =
        sender_step(SenderState::Resuming, SenderEvent::ResumeSent(false), &known);
    assert!(matches!(state, SenderState::Listening));
    assert!(matches!(action, SenderAction::Wait));
}

#[test]
fn sender_stops_where_nothing_can_be_sent() {
    let known = context(None, None);
    let ends = [
        (SenderState::Listening, SenderEvent::OutboundClosed),
        (SenderState::Listening, SenderEvent::WriteUpdatesClosed),
        (SenderState::Forwarding, SenderEvent::Forwarded(false)),
        (SenderState::HandingWrite, SenderEvent::WriteHanded(false)),
        (SenderState::HandingRead, SenderEvent::ReadHanded(false)),
        (SenderState::Stopped, SenderEvent::WriteReplaced),
    ];
    for (state, event) in ends {
        let (state, action) = sender_step(state, event, &known);
        assert!(matches!(state, SenderState::Stopped));
        assert!(matches!(action, SenderAction::Stop));
    }
}

#[test]
fn frames_are_told_apart_by_opcode() {
    let hello = parsed(r#"{"op":10,"d":{"heartbeat_interval":41250}}"#);
    assert!(matches!(classify_frame(&hello), Frame::Hello(h) if h.heartbeat_interval == 41250));
    let vague = parsed(r#"{"op":10,"d":{"heartbeat_interval":"soon"}}"#);
    assert!(matches!(
        classify_frame(&vague),
        Frame::Hello(h) if h.heartbeat_interval == DEFAULT_HEARTBEAT_INTERVAL
    ));
    assert!(matches!(classify_frame(&parsed(r#"{"op":11}"#)), Frame::HeartbeatAck));
    assert!(matches!(classify_frame(&parsed(r#"{"op":1}"#)), Frame::HeartbeatRequest));
    assert!(matches!(classify_frame(&parsed(r#"{"op":0,"s":3}"#)), Frame::Dispatch(Some(3))));
    assert!(matches!(classify_frame(&parsed(r#"{"op":0,"s":null}"#)), Frame::Dispatch(None)));
    assert!(matches!(classify_frame(&parsed(r#"{"op":7}"#)), Frame::Reconnect));
    assert!(matches!(classify_frame(&parsed(r#"{"op":9}"#)), Frame::Unhandled(9)));
    assert!(matches!(classify_frame(&parsed("{}")), Frame::Unmarked));
}

#[test]
fn reader_greets_back() {
    let mut reader = GatewayReader::new();
    let action = reader.step(text(r#"{"op":10,"d":{"heartbeat_interval":7}}"#), "tok");
    match action {
        ReaderAction::Greet { identify, heartbeat_interval } => {
            assert_eq!(identify, identify_text(&bot_properties("tok"), 33281));
            assert_eq!(heartbeat_interval, 7);
        }
        _ => panic!("no greeting"),
    }
    assert!(matches!(reader.phase, ReaderPhase::Reading));
}

#[test]
fn reader_answers_heartbeat_requests_with_the_last_number() {
    let mut reader = GatewayReader::new();
    assert!(matches!(
        reader.step(text(r#"{"op":1}"#), "tok"),
        ReaderAction::QueueHeartbeat(t) if t == heartbeat_text(None)
    ));
    assert!(matches!(reader.step(ReaderEvent::HeartbeatQueued(true), "tok"), ReaderAction::Wait));
    reader.step(text(r#"{"op":0,"s":41,"t":"X"}"#), "tok");
    reader.step(ReaderEvent::EventPassed(true), "tok");
    reader.step(text(r#"{"op":0,"s":42,"t":"X"}"#), "tok");
    reader.step(ReaderEvent::EventPassed(true), "tok");
    reader.step(text(r#"{"op":0,"t":"X"}"#), "tok");
    reader.step(ReaderEvent::EventPassed(true), "tok");
    reader.step(text(r#"{"op":11}"#), "tok");
    assert_eq!(reader.seq, Some(42));
    assert!(matches!(
        reader.step(text(r#"{"op":1}"#), "tok"),
        ReaderAction::QueueHeartbeat(t) if t == r#"{"d":42,"op":1}"#
    ));
}

#[test]
fn reader_passes_events_on() {
    let mut reader = GatewayReader::new();
    match reader.step(text(r#"{"op":0,"s":1,"t":"READY"}"#), "tok") {
        ReaderAction::PassEvent(event) => assert_eq!(event.get("t").as_str(), Some("READY")),
        _ => panic!("no event"),
    }
    assert!(matches!(reader.phase, ReaderPhase::PassingEvent));
    assert!(matches!(reader.step(ReaderEvent::EventPassed(false), "tok"), ReaderAction::Stop));
}

#[test]
fn reader_overlooks_what_it_cannot_read() {
    let mut reader = GatewayReader::new();
    assert!(matches!(reader.step(ReaderEvent::NonText, "tok"), ReaderAction::Wait));
    assert!(matches!(reader.step(text("junk"), "tok"), ReaderAction::Wait));
    assert!(matches!(reader.step(text(r#"{"op":7}"#), "tok"), ReaderAction::Wait));
    assert!(matches!(reader.step(ReaderEvent::ReadReplaced, "tok"), ReaderAction::UseNewRead));
    assert!(matches!(reader.phase, ReaderPhase::Reading));
}

#[test]
fn reader_stops_at_the_end() {
    for event in [
        ReaderEvent::ReadFailed,
        ReaderEvent::StreamEnded,
        ReaderEvent::ReadUpdatesClosed,
    ] {
        let mut reader = GatewayReader::new();
        assert!(matches!(reader.step(event, "tok"), ReaderAction::Stop));
        assert!(matches!(reader.step(text(r#"{"op":1}"#), "tok"), ReaderAction::Stop));
    }
    let mut reader = GatewayReader::new();
    reader.step(text(r#"{"op":1}"#), "tok");
    assert!(matches!(reader.step(ReaderEvent::HeartbeatQueued(false), "tok"), ReaderAction::Stop));
}

#[test]
fn queued_payloads_reach_the_gateway() {
    let known = context(Some("sess"), Some("wss://resume"));
    let mut reader = GatewayReader::new();
    for frame in [r#"{"op":10}"#, r#"{"op":1}"#] {
        let message = match reader.step(text(frame), "tok") {
            ReaderAction::Greet { identify, .. } => identify,
            ReaderAction::QueueHeartbeat(heartbeat) => heartbeat,
            _ => panic!("nothing to send"),
        };
        let (_, action) = outbound(&message, &known);
        assert!(matches!(action, SenderAction::Forward(m) if m == message));
    }
}
