use leo_bot::gateway::payloads::{
    bot_properties, content_text, heartbeat_text, identify_text, resume_text,
    select_protocol_text, speaking_text, voice_heartbeat_text, voice_identify_text,
    voice_state_text, Hello, Identify, Payload,
};
use leo_bot::json::Json;

#[test]
fn heartbeat_carries_the_sequence_number() {
    assert_eq!(heartbeat_text(Some(7)), r#"{"d":7,"op":1}"#);
    assert_eq!(heartbeat_text(None), r#"{"d":null,"op":1}"#);
}

#[test]
fn identify_names_the_bot() {
    let text = identify_text(&bot_properties("tok"), 33281);
    assert_eq!(
        text,
        concat_lines(&[
            r#"{"d":{"intents":33281,"#,
            r#""properties":{"$browser":"rust-bot","$device":"rust-bot","$os":"linux"},"#,
            r#""token":"tok"},"op":2}"#,
        ])
    );
}

fn concat_lines(lines: &[&str]) -> String {
    lines.concat()
}

#[test]
fn resume_names_session_and_sequence_number() {
    assert_eq!(
        resume_text("tok", "sess", Some(9)),
        r#"{"d":{"seq":9,"session_id":"sess","token":"tok"},"op":6}"#
    );
    assert_eq!(
        resume_text("tok", "sess", None),
        r#"{"d":{"seq":null,"session_id":"sess","token":"tok"},"op":6}"#
    );
}

#[test]
fn voice_state_joins_and_leaves() {
    assert_eq!(
        voice_state_text("g", Some("c")),
        r#"{"d":{"channel_id":"c","guild_id":"g","self_deaf":false,"self_mute":false},"op":4}"#
    );
    assert_eq!(
        voice_state_text("g", None),
        r#"{"d":{"channel_id":null,"guild_id":"g","self_deaf":false,"self_mute":false},"op":4}"#
    );
}

#[test]
fn voice_identify_names_the_session() {
    let identify = Identify {
        server_id: String::from("g"),
        user_id: String::from("u"),
        session_id: String::from("s"),
        token: String::from("t"),
    };
    assert_eq!(
        voice_identify_text(&identify),
        r#"{"d":{"server_id":"g","session_id":"s","token":"t","user_id":"u"},"op":0}"#
    );
}

#[test]
fn protocol_is_selected() {
    assert_eq!(
        select_protocol_text("1.2.3.4", 65535),
        concat_lines(&[
            r#"{"d":{"data":{"address":"1.2.3.4","mode":"xsalsa20_poly1305","port":65535},"#,
            r#""protocol":"udp"},"op":1}"#,
        ])
    );
}

#[test]
fn speaking_names_the_source() {
    assert_eq!(
        speaking_text(12),
        r#"{"d":{"delay":0,"speaking":1,"ssrc":12},"op":5}"#
    );
}

#[test]
fn voice_heartbeat_carries_the_nonce() {
    assert_eq!(
        voice_heartbeat_text(1_700_000_000_123),
        r#"{"d":1700000000123,"op":3}"#
    );
    assert_eq!(
        voice_heartbeat_text(u64::MAX as u128),
        r#"{"d":18446744073709551615,"op":3}"#
    );
}

#[test]
fn content_is_escaped_and_reads_back() {
    let said = "\"quoted\"\n\\ ü \u{1}";
    let text = content_text(said);
    assert_eq!(text, "{\"content\":\"\\\"quoted\\\"\\n\\\\ ü \\u0001\"}");
    let json = Json::parse(&text).expect("a document");
    assert_eq!(json.get("content").as_str(), Some(said));
}

#[test]
fn opcode_and_data_are_found_under_their_keys() {
    let json = Json::parse(&heartbeat_text(Some(3))).expect("a document");
    assert_eq!(json.get("op").as_u64(), Some(1));
    assert_eq!(json.get("d").as_u64(), Some(3));
}

#[test]
fn payloads_hold_their_content() {
    let payload = Payload::Hello(Hello { heartbeat_interval: 41250 });
    assert!(matches!(
        payload,
        Payload::Hello(Hello { heartbeat_interval: 41250 })
    ));
}
