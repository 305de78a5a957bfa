use leo_bot::gateway::payloads::{
    select_protocol_text, speaking_text, voice_identify_text, Identify,
};
use leo_bot::gateway::voice::{
    after_discovery, after_failure, audio_step, audio_target, choose_url, current_millis,
    discovered, discovery_packet, discovery_step, dotted_address, heartbeat_at, is_sendable,
    on_voice_frame, on_voice_text, plan_connection, reading_millis, socket_address, span_millis,
    speaking_sign,
    AfterFailure, Attempt, AudioEvent, AudioInfo, AudioMove, AudioStage, DiscoveryStep,
    MissingAudio, VoiceAction, VoiceError, AUDIO_DELAY, SERVER_DELAY, SPEAKING_INTERVAL,
};
use leo_bot::json::Json;

fn identify() -> Identify {
    Identify {
        server_id: String::from("g"),
        user_id: String::from("u"),
        session_id: String::from("s"),
        token: String::from("t"),
    }
}

fn actions(text: &str) -> Vec<VoiceAction> {
    on_voice_text(text, &identify())
}

fn session(key: &str) -> String {
    format!("{{\"op\":4,\"d\":{{\"data\":{{\"secret_key\":[{key}]}}}}}}")
}

fn info(ssrc: Option<u64>, address: Option<&str>, port: Option<u16>) -> AudioInfo {
    AudioInfo { ssrc, address: address.map(String::from), port }
}

#[test]
fn clock_counts_milliseconds_since_the_epoch() {
    let first = current_millis().expect("a clock");
    let second = current_millis().expect("a clock");
    assert!(first > 1_600_000_000_000);
    assert!(second >= first);
    let now = std::time::SystemTime::now()
        .duration_since(std::time::UNIX_EPOCH)
        .expect("a clock")
        .as_millis();
    assert!(now >= first && now - first < 60_000);
}

#[test]
fn spans_are_cut_to_milliseconds() {
    assert_eq!(span_millis(0, 999_999), 0);
    assert_eq!(span_millis(1, 999_999_999), 1999);
    assert_eq!(span_millis(u64::MAX, 0), u64::MAX as u128 * 1000);
}

#[test]
fn readings_are_counted_from_the_epoch() {
    assert_eq!(reading_millis(None), None);
    assert_eq!(reading_millis(Some((0, 0))), Some(0));
    assert_eq!(reading_millis(Some((1_700_000_000, 123_999_999))), Some(1_700_000_000_123));
}

#[test]
fn voice_server_is_reached_without_port_first() {
    let plan = plan_connection("us-west12.discord.media:443").expect("a plan");
    assert_eq!(plan.url, "wss://us-west12.discord.media/?v=4");
    assert_eq!(
        plan.fallback,
        Some(String::from("wss://us-west12.discord.media:443?v=4"))
    );
}

#[test]
fn voice_server_without_port_has_no_fallback() {
    let plan = plan_connection("US-West.discord.media").expect("a plan");
    assert_eq!(plan.url, "wss://us-west.discord.media/?v=4");
    assert_eq!(plan.fallback, None);
}

#[test]
fn endpoint_that_is_no_address_is_pieced_together() {
    let plan = plan_connection("no host").expect("a plan");
    assert_eq!(plan.url, "wss://no host?v=4");
    let plan = plan_connection(":443").expect("a plan");
    assert_eq!(plan.url, "wss://?v=4");
    assert_eq!(plan.fallback, Some(String::from("wss://:443?v=4")));
}

#[test]
fn built_address_is_preferred() {
    assert_eq!(choose_url(Some(String::from("wss://a/?v=4")), "a"), "wss://a/?v=4");
    assert_eq!(choose_url(None, "a"), "wss://a?v=4");
}

#[test]
fn empty_endpoint_is_refused() {
    assert_eq!(plan_connection("").err(), Some(VoiceError::EmptyEndpoint));
    assert_eq!(VoiceError::EmptyEndpoint.message(), "Voice server endpoint is empty");
}

#[test]
fn fallback_is_tried_once() {
    let plan = plan_connection("host.example:1").expect("a plan");
    assert!(matches!(
        after_failure(&plan, Attempt::First, "boom"),
        AfterFailure::Retry(url) if url == "wss://host.example:1?v=4"
    ));
    assert!(matches!(
        after_failure(&plan, Attempt::Fallback, "boom"),
        AfterFailure::GiveUp(message) if message
            == "Failed to connect to voice WebSocket (tried both with and without port): boom"
    ));
    let plan = plan_connection("host.example").expect("a plan");
    assert!(matches!(
        after_failure(&plan, Attempt::First, "boom"),
        AfterFailure::GiveUp(message) if message
            == "Failed to connect to voice WebSocket wss://host.example/?v=4: boom"
    ));
}

#[test]
fn every_payload_goes_to_the_voice_server() {
    assert!(is_sendable(r#"{"op":0}"#));
    assert!(is_sendable(&voice_identify_text(&identify())));
    assert!(!is_sendable("{}"));
    assert!(!is_sendable("junk"));
}

#[test]
fn ready_server_is_published_and_asked() {
    let list =
        actions(r#"{"op":2,"d":{"data":{"ssrc":9,"address":"1.2.3.4","port":50001}}}"#);
    assert_eq!(list.len(), 4);
    assert!(matches!(&list[0], VoiceAction::PublishSsrc(9)));
    assert!(matches!(&list[1], VoiceAction::PublishAddress(a) if a == "1.2.3.4"));
    assert!(matches!(&list[2], VoiceAction::PublishPort(50001)));
    assert!(matches!(
        &list[3],
        VoiceAction::Discover { address, port: 50001 } if address == "1.2.3.4"
    ));
}

#[test]
fn vague_server_is_still_asked() {
    let list = actions(r#"{"op":2,"d":{"ssrc":9}}"#);
    assert_eq!(list.len(), 1);
    assert!(matches!(
        &list[0],
        VoiceAction::Discover { address, port: 0 } if address.is_empty()
    ));
    let list = actions(r#"{"op":2,"d":{"data":{"port":65537}}}"#);
    assert!(matches!(&list[0], VoiceAction::PublishPort(1)));
    assert!(matches!(&list[1], VoiceAction::Discover { port: 1, .. }));
}

#[test]
fn session_starts_the_audio() {
    let numbers: Vec<String> = (1..=32).map(|n: u32| n.to_string()).collect();
    let list = actions(&session(&numbers.join(",")));
    assert_eq!(list.len(), 1);
    match &list[0] {
        VoiceAction::StartAudio(key) => {
            for i in 0..32 {
                assert_eq!(key[i] as usize, i + 1);
            }
        }
        _ => panic!("no key"),
    }
}

#[test]
fn odd_key_items_are_cut_or_zero() {
    let mut numbers = vec![String::from("5"); 32];
    numbers[0] = String::from("257");
    numbers[1] = String::from("-1");
    numbers[2] = String::from("\"7\"");
    match &actions(&session(&numbers.join(",")))[0] {
        VoiceAction::StartAudio(key) => assert_eq!(key[..4], [1, 0, 0, 5]),
        _ => panic!("no key"),
    }
}

#[test]
fn keys_of_another_length_are_overlooked() {
    assert!(actions(&session("1,2,3")).is_empty());
    assert!(actions(&session(&vec!["1"; 33].join(","))).is_empty());
    assert!(actions(r#"{"op":4,"d":{"data":{}}}"#).is_empty());
}

#[test]
fn voice_greeting_is_answered() {
    let list = actions(r#"{"op":8,"d":{"heartbeat_interval":13750}}"#);
    assert!(matches!(
        &list[0],
        VoiceAction::Greet { identify: text, heartbeat_interval: 13750 }
            if *text == voice_identify_text(&identify())
    ));
    let list = actions(r#"{"op":8,"d":{"heartbeat_interval":13.75}}"#);
    assert!(matches!(&list[0], VoiceAction::Greet { heartbeat_interval: 45000, .. }));
}

#[test]
fn other_voice_frames_do_nothing() {
    for text in [r#"{"op":6,"d":1}"#, r#"{"op":3}"#, "{}", "junk", ""] {
        assert!(actions(text).is_empty());
    }
    assert!(on_voice_frame(&Json::Null, &identify()).is_empty());
}

#[test]
fn discovery_packet_has_seventy_bytes() {
    let packet = discovery_packet(0x01020304);
    assert_eq!(packet.len(), 70);
    assert_eq!(packet[..4], [1, 2, 3, 4]);
    assert!(packet[4..].iter().all(|byte| *byte == 0));
}

#[test]
fn discovery_waits_once_for_the_source() {
    assert!(matches!(discovery_step(false, None, "a", 1), DiscoveryStep::WaitForSsrc));
    assert!(matches!(discovery_step(true, None, "a", 1), DiscoveryStep::GiveUp));
    for waited in [false, true] {
        match discovery_step(waited, Some(0x1_0000_0002), "1.2.3.4", 50) {
            DiscoveryStep::Ask { packet, target } => {
                assert_eq!(packet[..4], [0, 0, 0, 2]);
                assert_eq!(target, "1.2.3.4:50");
            }
            _ => panic!("nothing to ask"),
        }
    }
}

#[test]
fn answer_tells_address_and_port() {
    let mut answer = [0u8; 70];
    answer[..6].copy_from_slice(&[192, 168, 0, 255, 0x12, 0x34]);
    assert_eq!(discovered(&answer, 70), Some((String::from("192.168.0.255"), 0x1234)));
    assert_eq!(discovered(&answer, 4), Some((String::from("192.168.0.255"), 0x1234)));
    assert_eq!(discovered(&answer, 3), None);
    assert_eq!(dotted_address(0, 10, 100, 7), "0.10.100.7");
    assert_eq!(socket_address("h", 0), "h:0");
}

#[test]
fn answer_leads_to_a_protocol() {
    let mut answer = [0u8; 70];
    answer[..6].copy_from_slice(&[10, 0, 0, 1, 0, 80]);
    assert_eq!(after_discovery(Some(70), &answer), Some(select_protocol_text("10.0.0.1", 80)));
    assert_eq!(after_discovery(Some(3), &answer), None);
    assert_eq!(after_discovery(None, &answer), Some(select_protocol_text("0.0.0.0", 0)));
}

#[test]
fn speaking_is_shown_where_the_source_is_known() {
    assert_eq!(speaking_sign(Some(3)), Some(speaking_text(3)));
    assert_eq!(speaking_sign(None), None);
}

#[test]
fn heartbeat_carries_the_clock() {
    assert_eq!(heartbeat_at(Some(12)), Some(String::from(r#"{"d":12,"op":3}"#)));
    assert_eq!(heartbeat_at(Some(u64::MAX as u128 + 1)), None);
    assert_eq!(heartbeat_at(None), None);
    assert!(heartbeat_at(current_millis()).is_some());
}

#[test]
fn audio_waits_for_what_is_missing() {
    let (stage, next) = audio_step(AudioStage::Starting, AudioEvent::Started, &info(None, None, None));
    assert!(next == AudioMove::WaitForSsrc);
    let (stage, next) = audio_step(stage, AudioEvent::SsrcChanged, &info(Some(1), None, None));
    assert!(next == AudioMove::WaitForAddress);
    let (stage, next) =
        audio_step(stage, AudioEvent::AddressChanged, &info(Some(1), Some("a"), None));
    assert!(next == AudioMove::WaitForPort);
    let (stage, next) = audio_step(stage, AudioEvent::PortChanged, &info(Some(1), Some("a"), None));
    assert!(next == AudioMove::Start);
    assert!(stage == AudioStage::Done);
}

#[test]
fn audio_starts_at_once_where_everything_is_known() {
    let known = info(Some(1), Some("a"), Some(2));
    let (stage, next) = audio_step(AudioStage::Starting, AudioEvent::Started, &known);
    assert!(stage == AudioStage::Done && next == AudioMove::Start);
    let (stage, next) = audio_step(AudioStage::AwaitingPort, AudioEvent::SsrcChanged, &known);
    assert!(stage == AudioStage::AwaitingPort && next == AudioMove::Wait);
}

#[test]
fn audio_target_is_made_of_what_is_known() {
    match audio_target(&info(Some(0x2_0000_0003), Some("1.2.3.4"), Some(5))) {
        Ok(target) => {
            assert_eq!(target.ssrc, 3);
            assert_eq!(target.target, "1.2.3.4:5");
            assert_eq!(target.speaking, speaking_text(3));
        }
        Err(_) => panic!("no target"),
    }
}

#[test]
fn missing_audio_parts_are_named_in_turn() {
    assert_eq!(audio_target(&info(None, None, None)).err(), Some(MissingAudio::Ssrc));
    assert_eq!(audio_target(&info(Some(1), None, None)).err(), Some(MissingAudio::Address));
    assert_eq!(audio_target(&info(Some(1), Some("a"), None)).err(), Some(MissingAudio::Port));
}

#[test]
fn voice_delays() {
    assert_eq!(SERVER_DELAY, 2000);
    assert_eq!(AUDIO_DELAY, 100);
    assert_eq!(SPEAKING_INTERVAL, 5000);
}
