use leo_bot::gateway::events::VoiceServer;
use leo_bot::gateway::playback::{
    play_step, MissingInfo, PlayEvent, PlayMove, PlayRequest, PlayStage, VoiceInfo, JOIN_TIMEOUT,
    SETTLE_DELAY,
};

fn nothing_known() -> VoiceInfo {
    VoiceInfo { session_id: None, user_id: None, bot_voice: None, voice_server: None }
}

fn everything_known() -> VoiceInfo {
    VoiceInfo {
        session_id: Some(String::from("s")),
        user_id: Some(String::from("u")),
        bot_voice: Some((String::from("g"), Some(String::from("c")))),
        voice_server: Some(server("g")),
    }
}

fn server(guild: &str) -> VoiceServer {
    VoiceServer {
        endpoint: String::from("e"),
        token: String::from("t"),
        guild_id: String::from(guild),
    }
}

fn step(stage: PlayStage, event: PlayEvent, info: &VoiceInfo) -> (PlayStage, PlayMove) {
    play_step(stage, event, info, "g")
}

#[test]
fn everything_is_waited_for_in_turn() {
    let mut info = nothing_known();
    let (stage, next) = step(PlayStage::Starting, PlayEvent::Started, &info);
    assert!(next == PlayMove::WaitForSession);
    info.session_id = Some(String::from("s"));
    let (stage, next) = step(stage, PlayEvent::SessionChanged, &info);
    assert!(next == PlayMove::WaitForUser);
    info.user_id = Some(String::from("u"));
    let (stage, next) = step(stage, PlayEvent::UserChanged, &info);
    assert!(next == PlayMove::WaitForJoin);
    info.bot_voice = Some((String::from("g"), Some(String::from("c"))));
    let (stage, next) = step(stage, PlayEvent::BotVoiceChanged, &info);
    assert!(next == PlayMove::WaitForServer);
    info.voice_server = Some(server("g"));
    let (stage, next) = step(stage, PlayEvent::VoiceServerChanged, &info);
    assert!(next == PlayMove::Settle);
    let (stage, next) = step(stage, PlayEvent::Settled, &info);
    assert!(next == PlayMove::Connect);
    assert!(stage == PlayStage::Done);
}

#[test]
fn nothing_is_waited_for_where_everything_is_known() {
    let (stage, next) = step(PlayStage::Starting, PlayEvent::Started, &everything_known());
    assert!(stage == PlayStage::Settling);
    assert!(next == PlayMove::Settle);
    assert_eq!(SETTLE_DELAY, 2000);
}

#[test]
fn joining_is_waited_for_no_longer_than_the_timeout() {
    let mut info = everything_known();
    info.bot_voice = Some((String::from("g"), None));
    let (stage, next) = step(PlayStage::Starting, PlayEvent::Started, &info);
    assert!(next == PlayMove::WaitForJoin);
    let (stage, next) = step(stage, PlayEvent::BotVoiceChanged, &info);
    assert!(stage == PlayStage::AwaitingJoin && next == PlayMove::Wait);
    info.bot_voice = Some((String::from("other"), Some(String::from("c"))));
    let (stage, next) = step(stage, PlayEvent::BotVoiceChanged, &info);
    assert!(stage == PlayStage::AwaitingJoin && next == PlayMove::Wait);
    let (_, next) = step(stage, PlayEvent::JoinTimedOut, &info);
    assert!(next == PlayMove::Settle);
    assert_eq!(JOIN_TIMEOUT, 5000);
}

#[test]
fn server_must_be_one_of_the_guild() {
    let mut info = everything_known();
    info.voice_server = Some(server("other"));
    let (stage, next) = step(PlayStage::Starting, PlayEvent::Started, &info);
    assert!(next == PlayMove::WaitForServer);
    let (stage, next) = step(stage, PlayEvent::VoiceServerChanged, &info);
    assert!(stage == PlayStage::AwaitingServer && next == PlayMove::WaitForServer);
}

#[test]
fn news_of_the_session_are_waited_for_once() {
    let info = nothing_known();
    let (stage, _) = step(PlayStage::Starting, PlayEvent::Started, &info);
    let (stage, next) = step(stage, PlayEvent::SessionChanged, &info);
    assert!(stage == PlayStage::AwaitingUser && next == PlayMove::WaitForUser);
    let (stage, next) = step(stage, PlayEvent::UserChanged, &info);
    assert!(stage == PlayStage::AwaitingJoin && next == PlayMove::WaitForJoin);
}

#[test]
fn other_events_change_no_stage() {
    let info = everything_known();
    let (stage, next) = step(PlayStage::Done, PlayEvent::Started, &info);
    assert!(stage == PlayStage::Done && next == PlayMove::Wait);
    let (stage, next) = step(PlayStage::AwaitingServer, PlayEvent::JoinTimedOut, &info);
    assert!(stage == PlayStage::AwaitingServer && next == PlayMove::Wait);
}

#[test]
fn target_is_made_of_what_is_known() {
    let info = everything_known();
    let mut request = PlayRequest::new("g", "link");
    assert!(request.step(PlayEvent::Started, &info) == PlayMove::Settle);
    assert!(request.step(PlayEvent::Settled, &info) == PlayMove::Connect);
    match request.voice_target(&info) {
        Ok(target) => {
            assert_eq!(target.guild_id, "g");
            assert_eq!(target.endpoint, "e");
            assert_eq!(target.token, "t");
            assert_eq!(target.session_id, "s");
            assert_eq!(target.user_id, "u");
            assert_eq!(target.youtube_url, "link");
        }
        Err(_) => panic!("no target"),
    }
    assert!(request.step(PlayEvent::Settled, &info) == PlayMove::Wait);
}

#[test]
fn servers_of_other_guilds_do_not_count() {
    let mut info = everything_known();
    let mut request = PlayRequest::new("g", "link");
    assert!(request.step(PlayEvent::Started, &info) == PlayMove::Settle);
    info.voice_server = Some(VoiceServer {
        endpoint: String::from("elsewhere"),
        token: String::from("other"),
        guild_id: String::from("h"),
    });
    assert!(request.step(PlayEvent::Settled, &info) == PlayMove::Connect);
    match request.voice_target(&info) {
        Ok(target) => {
            assert_eq!(target.guild_id, "g");
            assert_eq!(target.endpoint, "e");
            assert_eq!(target.token, "t");
        }
        Err(_) => panic!("no target"),
    }
}

#[test]
fn latest_server_of_the_guild_is_used() {
    let mut info = everything_known();
    let mut request = PlayRequest::new("g", "link");
    request.step(PlayEvent::Started, &info);
    info.voice_server = Some(VoiceServer {
        endpoint: String::from("newer"),
        token: String::from("fresh"),
        guild_id: String::from("g"),
    });
    request.step(PlayEvent::Settled, &info);
    match request.voice_target(&info) {
        Ok(target) => assert_eq!((target.endpoint, target.token), (String::from("newer"), String::from("fresh"))),
        Err(_) => panic!("no target"),
    }
}

#[test]
fn missing_parts_are_named_in_turn() {
    let mut info = everything_known();
    let request = PlayRequest::new("g", "l");
    assert_eq!(request.voice_target(&info).err(), Some(MissingInfo::VoiceServer));
    info.user_id = None;
    assert_eq!(request.voice_target(&info).err(), Some(MissingInfo::User));
    info.session_id = None;
    assert_eq!(request.voice_target(&info).err(), Some(MissingInfo::Session));
}
