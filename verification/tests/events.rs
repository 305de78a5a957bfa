use leo_bot::gateway::events::{
    needs_app_id, numbered_image, on_command, own_id, random_image, BotAction, VoiceDirectory,
    HELP_TEXT, IMAGE_TEXT, INVALID_LINK_TEXT, SLANDER_IMAGE,
};
use leo_bot::gateway::payloads::voice_state_text;
use leo_bot::json::Json;

fn event(name: &str, data: &str) -> Json {
    let text = format!("{{\"op\":0,\"t\":\"{name}\",\"d\":{data}}}");
    Json::parse(&text).expect("a document")
}

fn message(author: &str, content: &str) -> Json {
    event(
        "MESSAGE_CREATE",
        &format!(
            "{{\"author\":{{\"id\":\"{author}\"}},\"content\":\"{content}\",\
             \"channel_id\":\"chat\",\"guild_id\":\"guild\"}}"
        ),
    )
}

fn answers(content: &str) -> Vec<BotAction> {
    VoiceDirectory::new().handle_event(&message("1", content), Some("2"))
}

#[test]
fn greeting_publishes_the_session() {
    let ready = event(
        "READY",
        r#"{"session_id":"s","resume_gateway_url":"wss://r","user":{"id":"u"}}"#,
    );
    let actions = VoiceDirectory::new().handle_event(&ready, None);
    assert_eq!(actions.len(), 3);
    assert!(matches!(&actions[0], BotAction::PublishSession(s) if s == "s"));
    assert!(matches!(&actions[1], BotAction::PublishUser(u) if u == "u"));
    assert!(matches!(
        &actions[2],
        BotAction::PublishResume(Some(s), Some(r)) if s == "s" && r == "wss://r"
    ));
}

#[test]
fn empty_greeting_withdraws_the_resumption() {
    let actions = VoiceDirectory::new().handle_event(&event("READY", "{}"), None);
    assert_eq!(actions.len(), 1);
    assert!(matches!(&actions[0], BotAction::PublishResume(None, None)));
}

#[test]
fn guild_fills_the_directory() {
    let mut directory = VoiceDirectory::new();
    let guild = event(
        "GUILD_CREATE",
        r#"{"voice_states":[{"user_id":"a","channel_id":"x"},{"user_id":"b","channel_id":null},
            {"user_id":"a","channel_id":"y"},{"channel_id":"z"}]}"#,
    );
    assert!(directory.handle_event(&guild, None).is_empty());
    assert_eq!(directory.channel_of("a"), Some(String::from("y")));
    assert_eq!(directory.channel_of("b"), None);
    assert_eq!(directory.channel_of(""), Some(String::from("z")));
    assert_eq!(directory.channel_of("c"), None);
}

#[test]
fn voice_state_moves_a_user() {
    let mut directory = VoiceDirectory::new();
    let joined = event(
        "VOICE_STATE_UPDATE",
        r#"{"user_id":"a","channel_id":"x","guild_id":"g"}"#,
    );
    assert!(directory.handle_event(&joined, Some("bot")).is_empty());
    assert_eq!(directory.channel_of("a"), Some(String::from("x")));
    let left = event("VOICE_STATE_UPDATE", r#"{"user_id":"a","guild_id":"g"}"#);
    assert!(directory.handle_event(&left, Some("bot")).is_empty());
    assert_eq!(directory.channel_of("a"), None);
}

#[test]
fn own_voice_state_is_published() {
    let mut directory = VoiceDirectory::new();
    let own = event(
        "VOICE_STATE_UPDATE",
        r#"{"user_id":"bot","channel_id":"x","guild_id":"g"}"#,
    );
    let actions = directory.handle_event(&own, Some("bot"));
    assert_eq!(actions.len(), 1);
    assert!(matches!(
        &actions[0],
        BotAction::PublishBotVoice(g, Some(c)) if g == "g" && c == "x"
    ));
    assert!(directory.handle_event(&own, None).is_empty());
    let nameless = event("VOICE_STATE_UPDATE", r#"{"guild_id":"g"}"#);
    let actions = directory.handle_event(&nameless, None);
    assert!(matches!(&actions[0], BotAction::PublishBotVoice(g, None) if g == "g"));
}

#[test]
fn usable_voice_servers_are_published() {
    let mut directory = VoiceDirectory::new();
    let named = event(
        "VOICE_SERVER_UPDATE",
        r#"{"endpoint":"e:443","token":"t","guild_id":"g"}"#,
    );
    let actions = directory.handle_event(&named, None);
    assert!(matches!(
        &actions[0],
        BotAction::PublishVoiceServer(s)
            if s.endpoint == "e:443" && s.token == "t" && s.guild_id == "g"
    ));
    for data in [
        r#"{"endpoint":null,"token":"t","guild_id":"g"}"#,
        r#"{"endpoint":"","token":"t","guild_id":"g"}"#,
        r#"{"endpoint":5,"token":"t","guild_id":"g"}"#,
        r#"{"endpoint":"e","guild_id":"g"}"#,
        r#"{"token":"t","guild_id":"g"}"#,
    ] {
        assert!(directory.handle_event(&event("VOICE_SERVER_UPDATE", data), None).is_empty());
    }
}

#[test]
fn help_is_sent() {
    let actions = answers("!askleo help me");
    assert_eq!(actions.len(), 1);
    assert!(matches!(
        &actions[0],
        BotAction::SendText { channel_id, text, in_background: true }
            if channel_id == "chat" && text == HELP_TEXT
    ));
    assert!(HELP_TEXT.starts_with("**Leo Cap-lan Bot Commands:**\n\n`!askleo play <youtube_url>` - "));
    assert!(HELP_TEXT.ends_with("image of Leo\n\nUse `!askleo help` to see this message again."));
}

#[test]
fn play_joins_the_channel_of_the_author() {
    let mut directory = VoiceDirectory::new();
    let joined = event("VOICE_STATE_UPDATE", r#"{"user_id":"1","channel_id":"x"}"#);
    directory.handle_event(&joined, Some("2"));
    let other = event("VOICE_STATE_UPDATE", r#"{"user_id":"3","channel_id":"y"}"#);
    directory.handle_event(&other, Some("2"));
    let actions = directory.handle_event(&message("1", "!askleo play https://youtu.be/q"), Some("2"));
    assert_eq!(actions.len(), 1);
    assert!(matches!(
        &actions[0],
        BotAction::Play { guild_id, voice_channel: Some(channel), link }
            if guild_id == "guild" && channel == "x" && link == "https://youtu.be/q"
    ));
}

#[test]
fn play_without_a_known_channel_still_plays() {
    let actions = answers("!askleo play ");
    assert!(matches!(
        &actions[0],
        BotAction::Play { voice_channel: None, link, .. } if link.is_empty()
    ));
}

#[test]
fn play_without_a_link_is_refused() {
    for content in ["!askleo play", "!askleo playhttps://youtu.be/q"] {
        let actions = answers(content);
        assert_eq!(actions.len(), 1);
        assert!(matches!(
            &actions[0],
            BotAction::SendText { text, in_background: false, .. } if text == INVALID_LINK_TEXT
        ));
    }
    assert_eq!(INVALID_LINK_TEXT, "Invalid link was sent");
}

#[test]
fn images_are_sent() {
    let actions = answers("!askleo slanderleo");
    assert!(matches!(
        &actions[0],
        BotAction::SendImage { channel_id, text, path }
            if channel_id == "chat" && text == "Here is an image of Leo"
                && path == "images/leo_slander.jpg"
    ));
    let actions = answers("!askleo randomleo");
    assert!(matches!(
        &actions[0],
        BotAction::SendRandomImage { channel_id, text } if channel_id == "chat" && text == IMAGE_TEXT
    ));
    assert_eq!(SLANDER_IMAGE, "images/leo_slander.jpg");
}

#[test]
fn leave_leaves_the_guild() {
    let actions = answers("!askleo leave now");
    assert_eq!(actions.len(), 1);
    assert!(matches!(&actions[0], BotAction::Leave { guild_id } if guild_id == "guild"));
}

#[test]
fn other_messages_get_no_answer() {
    for content in ["", "hello", "askleo help", " !askleo help", "!askleo", "!askleo Help"] {
        assert!(answers(content).is_empty(), "{content}");
    }
}

#[test]
fn answers_of_the_bot_get_no_answer() {
    for content in [HELP_TEXT, INVALID_LINK_TEXT, IMAGE_TEXT] {
        assert!(on_command(content, "chat", "guild", None).is_empty());
    }
}

#[test]
fn own_messages_get_no_answer() {
    let mut directory = VoiceDirectory::new();
    for id in ["77", "123456789012345678", "not a number"] {
        assert!(directory.handle_event(&message(id, "!askleo leave"), Some(id)).is_empty());
        assert_eq!(directory.handle_event(&message("78", "!askleo leave"), Some(id)).len(), 1);
    }
    let zero = directory.handle_event(&message("0", "!askleo help"), Some("123456789012345678"));
    assert_eq!(zero.len(), 1);
}

#[test]
fn own_id_may_be_written_in_any_notation() {
    assert_eq!(own_id("77"), "77");
    assert_eq!(own_id("007"), "7");
    assert_eq!(own_id("+5"), "5");
    assert_eq!(own_id("-05"), "-5");
    assert_eq!(own_id("-0"), "0");
    assert_eq!(own_id("000"), "0");
    assert_eq!(own_id("00123456789012345678"), "123456789012345678");
    assert_eq!(own_id(""), "0");
    assert_eq!(own_id("leo"), "leo");
    assert_eq!(own_id("+"), "+");
    assert_eq!(own_id("7a"), "7a");
    let mut directory = VoiceDirectory::new();
    assert!(directory.handle_event(&message("7", "!askleo help"), Some("007")).is_empty());
    let nameless = event("MESSAGE_CREATE", r#"{"content":"!askleo help"}"#);
    assert_eq!(directory.handle_event(&nameless, Some("")).len(), 1);
}

#[test]
fn own_id_agrees_with_numbers_of_32_bits() {
    for id in ["0", "7", "007", "+7", "-7", "2147483647", "-2147483648"] {
        let number: i32 = id.parse().expect("a number");
        assert_eq!(own_id(id), number.to_string());
    }
}

#[test]
fn latest_entry_of_the_author_counts() {
    let mut directory = VoiceDirectory::new();
    let play = message("1", "!askleo play l");
    let asked = |directory: &mut VoiceDirectory| {
        directory.handle_event(&play, Some("2"))[0].voice_request_text()
    };
    assert_eq!(asked(&mut directory), Some(voice_state_text("guild", None)));
    let update = event("VOICE_STATE_UPDATE", r#"{"user_id":"1","channel_id":"x"}"#);
    directory.handle_event(&update, Some("2"));
    let guild = event(
        "GUILD_CREATE",
        r#"{"voice_states":[{"user_id":"1","channel_id":"y"},{"user_id":"3","channel_id":"z"}]}"#,
    );
    directory.handle_event(&guild, Some("2"));
    assert_eq!(asked(&mut directory), Some(voice_state_text("guild", Some("y"))));
    let left = event("GUILD_CREATE", r#"{"voice_states":[{"user_id":"1","channel_id":null}]}"#);
    directory.handle_event(&left, Some("2"));
    assert_eq!(asked(&mut directory), Some(voice_state_text("guild", None)));
}

#[test]
fn only_playing_and_leaving_ask_for_a_voice_channel() {
    let leave = answers("!askleo leave");
    assert_eq!(leave[0].voice_request_text(), Some(voice_state_text("guild", None)));
    assert_eq!(answers("!askleo help")[0].voice_request_text(), None);
    assert_eq!(answers("!askleo randomleo")[0].voice_request_text(), None);
}

#[test]
fn only_messages_need_the_application_id() {
    assert!(needs_app_id(&message("1", "x")));
    assert!(!needs_app_id(&event("READY", "{}")));
    let wrong = Json::parse(r#"{"op":1,"t":"MESSAGE_CREATE"}"#).expect("a document");
    assert!(!needs_app_id(&wrong));
}

#[test]
fn other_events_do_nothing() {
    let mut directory = VoiceDirectory::new();
    assert!(directory.handle_event(&event("TYPING_START", "{}"), None).is_empty());
    for text in ["{}", r#"{"op":0}"#, r#"{"op":3,"t":"READY","d":{"session_id":"s"}}"#, "[]"] {
        let json = Json::parse(text).expect("a document");
        assert!(directory.handle_event(&json, None).is_empty());
    }
}

#[test]
fn images_are_numbered() {
    assert_eq!(numbered_image(7), "images/leo_7.jpg");
    assert_eq!(numbered_image(21), "images/leo_21.jpg");
    let paths: Vec<String> = (1..=21).map(numbered_image).collect();
    for _ in 0..200 {
        assert!(paths.contains(&random_image()));
    }
    for i in 0..21 {
        for j in 0..i {
            assert_ne!(paths[i], paths[j]);
        }
    }
}
