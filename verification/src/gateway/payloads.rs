//! The payloads that the bot sends, and the fields of those that it exchanges.

use serde_json::Value;
use vstd::prelude::*;

use crate::json::{close_value, render_value, JsonTree, ValueParts};
#[allow(unused_imports)]
use crate::json::{json_parsed, json_rendered, part_trees, value_tree};
#[allow(unused_imports)]
use crate::text::opt_str_view;

verus! {

/// The payloads of the gateway, by their content.
#[derive(Debug)]
pub enum Payload {
    Ready(Ready),
    ImmediateHeartbeat(ImmediateHeartbeat),
    Identify(Ready),
    Hello(Hello),
    HeartbeatAck(HeartbeatAck),
}

/// How the bot introduces itself to a voice server.
#[derive(Debug)]
pub struct Identify {
    pub server_id: String,
    pub user_id: String,
    pub session_id: String,
    pub token: String,
}

/// A request for a heartbeat at once.
#[derive(Debug)]
pub struct ImmediateHeartbeat {}

/// How the bot introduces itself to the gateway.
#[derive(Debug)]
pub struct Ready {
    pub token: String,
    pub properties: ReadyProperties,
}

/// The connection properties that the bot reports.
#[derive(Debug)]
pub struct ReadyProperties {
    pub os: String,
    pub browser: String,
    pub device: String,
}

/// The greeting of a server.
#[derive(Debug)]
pub struct Hello {
    pub heartbeat_interval: u64,
}

/// The answer to a heartbeat.
#[derive(Debug)]
pub struct HeartbeatAck {
    pub heartbeat_interval: u64,
}

/// A payload: its opcode and its data.
pub open spec fn envelope(op: u64, data: JsonTree) -> JsonTree {
    JsonTree::Object(map!["op"@ => JsonTree::UInt(op), "d"@ => data])
}

/// A number, or null.
pub open spec fn opt_uint_tree(number: Option<u64>) -> JsonTree {
    match number {
        Some(n) => JsonTree::UInt(n),
        None => JsonTree::Null,
    }
}

/// A string, or null.
pub open spec fn opt_str_tree(text: Option<Seq<char>>) -> JsonTree {
    match text {
        Some(t) => JsonTree::Str(t),
        None => JsonTree::Null,
    }
}

/// The heartbeat of the gateway: it carries the last sequence number.
pub open spec fn heartbeat_tree(seq: Option<u64>) -> JsonTree {
    envelope(1, opt_uint_tree(seq))
}

/// How the bot introduces itself to the gateway, and which events it asks for.
pub open spec fn identify_tree(
    token: Seq<char>,
    os: Seq<char>,
    browser: Seq<char>,
    device: Seq<char>,
    intents: u64,
) -> JsonTree {
    envelope(
        2,
        JsonTree::Object(
            map![
                "token"@ => JsonTree::Str(token),
                "intents"@ => JsonTree::UInt(intents),
                "properties"@ => JsonTree::Object(
                    map![
                        "$os"@ => JsonTree::Str(os),
                        "$browser"@ => JsonTree::Str(browser),
                        "$device"@ => JsonTree::Str(device),
                    ],
                ),
            ],
        ),
    )
}

/// The introduction of this bot.
pub open spec fn bot_identify_tree(token: Seq<char>, intents: u64) -> JsonTree {
    identify_tree(token, "linux"@, "rust-bot"@, "rust-bot"@, intents)
}

/// The request to resume a session behind the last sequence number.
pub open spec fn resume_tree(
    token: Seq<char>,
    session_id: Seq<char>,
    seq: Option<u64>,
) -> JsonTree {
    envelope(
        6,
        JsonTree::Object(
            map![
                "token"@ => JsonTree::Str(token),
                "session_id"@ => JsonTree::Str(session_id),
                "seq"@ => opt_uint_tree(seq),
            ],
        ),
    )
}

/// The request to join a voice channel of a guild, or to leave where there is no channel.
pub open spec fn voice_state_tree(guild_id: Seq<char>, channel_id: Option<Seq<char>>) -> JsonTree {
    envelope(
        4,
        JsonTree::Object(
            map![
                "guild_id"@ => JsonTree::Str(guild_id),
                "channel_id"@ => opt_str_tree(channel_id),
                "self_mute"@ => JsonTree::Bool(false),
                "self_deaf"@ => JsonTree::Bool(false),
            ],
        ),
    )
}

/// How the bot introduces itself to a voice server.
pub open spec fn voice_identify_tree(identify: Identify) -> JsonTree {
    envelope(
        0,
        JsonTree::Object(
            map![
                "server_id"@ => JsonTree::Str(identify.server_id@),
                "user_id"@ => JsonTree::Str(identify.user_id@),
                "session_id"@ => JsonTree::Str(identify.session_id@),
                "token"@ => JsonTree::Str(identify.token@),
            ],
        ),
    )
}

/// The choice of a protocol: where the bot receives, and how packets are encrypted.
pub open spec fn select_protocol_tree(address: Seq<char>, port: u16) -> JsonTree {
    envelope(
        1,
        JsonTree::Object(
            map![
                "protocol"@ => JsonTree::Str("udp"@),
                "data"@ => JsonTree::Object(
                    map![
                        "address"@ => JsonTree::Str(address),
                        "port"@ => JsonTree::UInt(port as u64),
                        "mode"@ => JsonTree::Str("xsalsa20_poly1305"@),
                    ],
                ),
            ],
        ),
    )
}

/// The sign that the bot is speaking.
pub open spec fn speaking_tree(ssrc: u64) -> JsonTree {
    envelope(
        5,
        JsonTree::Object(
            map![
                "speaking"@ => JsonTree::UInt(1),
                "delay"@ => JsonTree::UInt(0),
                "ssrc"@ => JsonTree::UInt(ssrc),
            ],
        ),
    )
}

/// The heartbeat of a voice connection: it carries a nonce.
pub open spec fn voice_heartbeat_tree(nonce: u64) -> JsonTree {
    envelope(3, JsonTree::UInt(nonce))
}

/// The body of a text message.
pub open spec fn content_tree(content: Seq<char>) -> JsonTree {
    JsonTree::Object(map!["content"@ => JsonTree::Str(content)])
}

proof fn lemma_part_trees(members: Seq<(String, Value)>)
    ensures
        members.len() == 1 ==> part_trees(members) == Map::<Seq<char>, JsonTree>::empty().insert(
            members[0].0@,
            value_tree(members[0].1),
        ),
        members.len() == 2 ==> part_trees(members) == Map::<Seq<char>, JsonTree>::empty().insert(
            members[0].0@,
            value_tree(members[0].1),
        ).insert(members[1].0@, value_tree(members[1].1)),
        members.len() == 3 ==> part_trees(members) == Map::<Seq<char>, JsonTree>::empty().insert(
            members[0].0@,
            value_tree(members[0].1),
        ).insert(members[1].0@, value_tree(members[1].1)).insert(
            members[2].0@,
            value_tree(members[2].1),
        ),
        members.len() == 4 ==> part_trees(members) == Map::<Seq<char>, JsonTree>::empty().insert(
            members[0].0@,
            value_tree(members[0].1),
        ).insert(members[1].0@, value_tree(members[1].1)).insert(
            members[2].0@,
            value_tree(members[2].1),
        ).insert(members[3].0@, value_tree(members[3].1)),
{
    reveal_with_fuel(part_trees, 5);
}

/// A string value.
fn str_value(text: &str) -> (value: Value)
    ensures
        value_tree(value) == JsonTree::Str(text@),
{
    close_value(ValueParts::Str(text.to_owned()))
}

/// A number value.
fn uint_value(number: u64) -> (value: Value)
    ensures
        value_tree(value) == JsonTree::UInt(number),
{
    close_value(ValueParts::UInt(number))
}

/// A number value, or null.
fn opt_uint_value(number: Option<u64>) -> (value: Value)
    ensures
        value_tree(value) == opt_uint_tree(number),
{
    match number {
        Some(n) => uint_value(n),
        None => close_value(ValueParts::Null),
    }
}

/// The text of the payload with this opcode and data.
fn payload_text(op: u64, data: Value) -> (text: String)
    requires
        value_tree(data).plain_within(126),
    ensures
        text@ == json_rendered(envelope(op, value_tree(data))),
        json_parsed(text@) == Some(envelope(op, value_tree(data))),
{
    let mut members: Vec<(String, Value)> = Vec::new();
    members.push(("op".to_owned(), uint_value(op)));
    members.push(("d".to_owned(), data));
    proof {
        reveal_strlit("op");
        reveal_strlit("d");
        assert("op"@.len() == 2 && "d"@.len() == 1);
        lemma_part_trees(members@);
        reveal_with_fuel(JsonTree::plain_within, 2);
    }
    let value = close_value(ValueParts::Object(members));
    render_value(&value)
}

/// The opcode and the data of a payload are found under their keys, and nothing elsewhere.
pub proof fn envelope_members(op: u64, data: JsonTree)
    ensures
        envelope(op, data) is Object,
        envelope(op, data).get("op"@) == JsonTree::UInt(op),
        envelope(op, data).get("d"@) == data,
        forall|key: Seq<char>|
            key != "op"@ && key != "d"@ ==> #[trigger] envelope(op, data).get(key)
                == JsonTree::Null,
{
    reveal_strlit("op");
    reveal_strlit("d");
    assert("op"@.len() == 2 && "d"@.len() == 1);
}

/// The heartbeat with the sequence number `seq`.
pub fn heartbeat_text(seq: Option<u64>) -> (text: String)
    ensures
        text@ == json_rendered(heartbeat_tree(seq)),
        json_parsed(text@) == Some(heartbeat_tree(seq)),
{
    payload_text(1, opt_uint_value(seq))
}

/// What the bot tells the gateway of itself.
pub fn bot_properties(token: &str) -> (ready: Ready)
    ensures
        ready.token@ == token@,
        ready.properties.os@ == "linux"@,
        ready.properties.browser@ == "rust-bot"@,
        ready.properties.device@ == "rust-bot"@,
{
    Ready {
        token: token.to_owned(),
        properties: ReadyProperties {
            os: "linux".to_owned(),
            browser: "rust-bot".to_owned(),
            device: "rust-bot".to_owned(),
        },
    }
}

/// The introduction to the gateway.
pub fn identify_text(ready: &Ready, intents: u64) -> (text: String)
    ensures
        text@ == json_rendered(
            identify_tree(
                ready.token@,
                ready.properties.os@,
                ready.properties.browser@,
                ready.properties.device@,
                intents,
            ),
        ),
        json_parsed(text@) == Some(
            identify_tree(
                ready.token@,
                ready.properties.os@,
                ready.properties.browser@,
                ready.properties.device@,
                intents,
            ),
        ),
{
    let mut properties: Vec<(String, Value)> = Vec::new();
    properties.push(("$os".to_owned(), str_value(ready.properties.os.as_str())));
    properties.push(("$browser".to_owned(), str_value(ready.properties.browser.as_str())));
    properties.push(("$device".to_owned(), str_value(ready.properties.device.as_str())));
    proof {
        reveal_strlit("$os");
        reveal_strlit("$browser");
        reveal_strlit("$device");
        assert("$os"@.len() == 3 && "$browser"@.len() == 8 && "$device"@.len() == 7);
        lemma_part_trees(properties@);
    }
    let mut data: Vec<(String, Value)> = Vec::new();
    data.push(("token".to_owned(), str_value(ready.token.as_str())));
    data.push(("intents".to_owned(), uint_value(intents)));
    data.push(("properties".to_owned(), close_value(ValueParts::Object(properties))));
    proof {
        reveal_strlit("token");
        reveal_strlit("intents");
        reveal_strlit("properties");
        assert("token"@.len() == 5 && "intents"@.len() == 7 && "properties"@.len() == 10);
        lemma_part_trees(data@);
        reveal_with_fuel(JsonTree::plain_within, 3);
    }
    payload_text(2, close_value(ValueParts::Object(data)))
}

/// The request to resume a session.
pub fn resume_text(token: &str, session_id: &str, seq: Option<u64>) -> (text: String)
    ensures
        text@ == json_rendered(resume_tree(token@, session_id@, seq)),
        json_parsed(text@) == Some(resume_tree(token@, session_id@, seq)),
{
    let mut data: Vec<(String, Value)> = Vec::new();
    data.push(("token".to_owned(), str_value(token)));
    data.push(("session_id".to_owned(), str_value(session_id)));
    data.push(("seq".to_owned(), opt_uint_value(seq)));
    proof {
        reveal_strlit("token");
        reveal_strlit("session_id");
        reveal_strlit("seq");
        assert("token"@.len() == 5 && "session_id"@.len() == 10 && "seq"@.len() == 3);
        lemma_part_trees(data@);
        reveal_with_fuel(JsonTree::plain_within, 2);
    }
    payload_text(6, close_value(ValueParts::Object(data)))
}

/// The request to join a voice channel, or to leave the voice channels of the guild.
pub fn voice_state_text(guild_id: &str, channel_id: Option<&str>) -> (text: String)
    ensures
        text@ == json_rendered(voice_state_tree(guild_id@, opt_str_view(channel_id))),
        json_parsed(text@) == Some(voice_state_tree(guild_id@, opt_str_view(channel_id))),
{
    let channel = match channel_id {
        Some(id) => str_value(id),
        None => close_value(ValueParts::Null),
    };
    let mut data: Vec<(String, Value)> = Vec::new();
    data.push(("guild_id".to_owned(), str_value(guild_id)));
    data.push(("channel_id".to_owned(), channel));
    data.push(("self_mute".to_owned(), close_value(ValueParts::Bool(false))));
    data.push(("self_deaf".to_owned(), close_value(ValueParts::Bool(false))));
    proof {
        reveal_strlit("guild_id");
        reveal_strlit("channel_id");
        reveal_strlit("self_mute");
        reveal_strlit("self_deaf");
        assert("guild_id"@.len() == 8 && "channel_id"@.len() == 10);
        assert("self_mute"@.len() == 9 && "self_deaf"@.len() == 9);
        assert("self_mute"@[5] == 'm' && "self_deaf"@[5] == 'd');
        lemma_part_trees(data@);
        reveal_with_fuel(JsonTree::plain_within, 2);
    }
    payload_text(4, close_value(ValueParts::Object(data)))
}

/// The introduction to a voice server.
pub fn voice_identify_text(identify: &Identify) -> (text: String)
    ensures
        text@ == json_rendered(voice_identify_tree(*identify)),
        json_parsed(text@) == Some(voice_identify_tree(*identify)),
{
    let mut data: Vec<(String, Value)> = Vec::new();
    data.push(("server_id".to_owned(), str_value(identify.server_id.as_str())));
    data.push(("user_id".to_owned(), str_value(identify.user_id.as_str())));
    data.push(("session_id".to_owned(), str_value(identify.session_id.as_str())));
    data.push(("token".to_owned(), str_value(identify.token.as_str())));
    proof {
        reveal_strlit("server_id");
        reveal_strlit("user_id");
        reveal_strlit("session_id");
        reveal_strlit("token");
        assert("server_id"@.len() == 9 && "user_id"@.len() == 7);
        assert("session_id"@.len() == 10 && "token"@.len() == 5);
        lemma_part_trees(data@);
        reveal_with_fuel(JsonTree::plain_within, 2);
    }
    payload_text(0, close_value(ValueParts::Object(data)))
}

/// The choice of UDP, received at this address and port.
pub fn select_protocol_text(address: &str, port: u16) -> (text: String)
    ensures
        text@ == json_rendered(select_protocol_tree(address@, port)),
        json_parsed(text@) == Some(select_protocol_tree(address@, port)),
{
    let mut target: Vec<(String, Value)> = Vec::new();
    target.push(("address".to_owned(), str_value(address)));
    target.push(("port".to_owned(), uint_value(port as u64)));
    target.push(("mode".to_owned(), str_value("xsalsa20_poly1305")));
    proof {
        reveal_strlit("address");
        reveal_strlit("port");
        reveal_strlit("mode");
        assert("address"@.len() == 7 && "port"@.len() == 4 && "mode"@.len() == 4);
        assert("port"@[0] == 'p' && "mode"@[0] == 'm');
        lemma_part_trees(target@);
    }
    let mut data: Vec<(String, Value)> = Vec::new();
    data.push(("protocol".to_owned(), str_value("udp")));
    data.push(("data".to_owned(), close_value(ValueParts::Object(target))));
    proof {
        reveal_strlit("protocol");
        reveal_strlit("data");
        assert("protocol"@.len() == 8 && "data"@.len() == 4);
        lemma_part_trees(data@);
        reveal_with_fuel(JsonTree::plain_within, 3);
    }
    payload_text(1, close_value(ValueParts::Object(data)))
}

/// The sign that the bot is speaking as the source `ssrc`.
pub fn speaking_text(ssrc: u64) -> (text: String)
    ensures
        text@ == json_rendered(speaking_tree(ssrc)),
        json_parsed(text@) == Some(speaking_tree(ssrc)),
{
    let mut data: Vec<(String, Value)> = Vec::new();
    data.push(("speaking".to_owned(), uint_value(1)));
    data.push(("delay".to_owned(), uint_value(0)));
    data.push(("ssrc".to_owned(), uint_value(ssrc)));
    proof {
        reveal_strlit("speaking");
        reveal_strlit("delay");
        reveal_strlit("ssrc");
        assert("speaking"@.len() == 8 && "delay"@.len() == 5 && "ssrc"@.len() == 4);
        lemma_part_trees(data@);
        reveal_with_fuel(JsonTree::plain_within, 2);
    }
    payload_text(5, close_value(ValueParts::Object(data)))
}

/// The heartbeat of a voice connection. A nonce of more than 64 bits has no place in a payload.
pub fn voice_heartbeat_text(nonce: u128) -> (text: String)
    requires
        nonce <= u64::MAX,
    ensures
        text@ == json_rendered(voice_heartbeat_tree(nonce as u64)),
        json_parsed(text@) == Some(voice_heartbeat_tree(nonce as u64)),
{
    payload_text(3, uint_value(nonce as u64))
}

/// The body of a text message.
pub fn content_text(content: &str) -> (text: String)
    ensures
        text@ == json_rendered(content_tree(content@)),
        json_parsed(text@) == Some(content_tree(content@)),
{
    let mut members: Vec<(String, Value)> = Vec::new();
    members.push(("content".to_owned(), str_value(content)));
    proof {
        lemma_part_trees(members@);
        reveal_with_fuel(JsonTree::plain_within, 2);
    }
    let value = close_value(ValueParts::Object(members));
    render_value(&value)
}

/// A heartbeat has the opcode 1 and the number itself as its data, or null where there is none.
pub proof fn heartbeat_reads_as(seq: Option<u64>)
    ensures
        heartbeat_tree(seq).get("op"@) == JsonTree::UInt(1),
        heartbeat_tree(seq).get("d"@).as_u64() == seq,
        seq is None ==> heartbeat_tree(seq).get("d"@) == JsonTree::Null,
        forall|key: Seq<char>|
            key != "op"@ && key != "d"@ ==> #[trigger] heartbeat_tree(seq).get(key)
                == JsonTree::Null,
{
    envelope_members(1, opt_uint_tree(seq));
}

/// An introduction to the gateway has the opcode 2 and names the token, the events asked for and
/// what the bot runs on.
pub proof fn introduction_reads_as(
    token: Seq<char>,
    os: Seq<char>,
    browser: Seq<char>,
    device: Seq<char>,
    intents: u64,
)
    ensures
        ({
            let tree = identify_tree(token, os, browser, device, intents);
            let data = tree.get("d"@);
            let properties = data.get("properties"@);
            &&& tree.get("op"@) == JsonTree::UInt(2)
            &&& data.get("token"@) == JsonTree::Str(token)
            &&& data.get("intents"@) == JsonTree::UInt(intents)
            &&& properties.get("$os"@) == JsonTree::Str(os)
            &&& properties.get("$browser"@) == JsonTree::Str(browser)
            &&& properties.get("$device"@) == JsonTree::Str(device)
            &&& forall|key: Seq<char>|
                key != "token"@ && key != "intents"@ && key != "properties"@
                    ==> #[trigger] data.get(key) == JsonTree::Null
            &&& forall|key: Seq<char>|
                key != "$os"@ && key != "$browser"@ && key != "$device"@
                    ==> #[trigger] properties.get(key) == JsonTree::Null
        }),
        ({
            let data = bot_identify_tree(token, intents).get("d"@);
            &&& bot_identify_tree(token, intents).get("op"@) == JsonTree::UInt(2)
            &&& data.get("token"@) == JsonTree::Str(token)
            &&& data.get("intents"@) == JsonTree::UInt(intents)
            &&& data.get("properties"@).get("$os"@) == JsonTree::Str("linux"@)
            &&& data.get("properties"@).get("$browser"@) == JsonTree::Str("rust-bot"@)
            &&& data.get("properties"@).get("$device"@) == JsonTree::Str("rust-bot"@)
        }),
{
    reveal_strlit("token");
    reveal_strlit("intents");
    reveal_strlit("properties");
    reveal_strlit("$os");
    reveal_strlit("$browser");
    reveal_strlit("$device");
    assert("token"@.len() == 5 && "intents"@.len() == 7 && "properties"@.len() == 10);
    assert("$os"@.len() == 3 && "$browser"@.len() == 8 && "$device"@.len() == 7);
    let tree = identify_tree(token, os, browser, device, intents);
    assert(tree == envelope(2, tree.get("d"@))) by {
        envelope_members(2, tree->Object_0["d"@]);
    }
    envelope_members(2, tree.get("d"@));
    let bot = bot_identify_tree(token, intents);
    envelope_members(2, bot->Object_0["d"@]);
}

/// A request to resume has the opcode 6 and names the token, the session and the last number.
pub proof fn resumption_reads_as(token: Seq<char>, session_id: Seq<char>, seq: Option<u64>)
    ensures
        ({
            let tree = resume_tree(token, session_id, seq);
            let data = tree.get("d"@);
            &&& tree.get("op"@) == JsonTree::UInt(6)
            &&& data.get("token"@) == JsonTree::Str(token)
            &&& data.get("session_id"@) == JsonTree::Str(session_id)
            &&& data.get("seq"@).as_u64() == seq
            &&& seq is None ==> data.get("seq"@) == JsonTree::Null
            &&& forall|key: Seq<char>|
                key != "token"@ && key != "session_id"@ && key != "seq"@
                    ==> #[trigger] data.get(key) == JsonTree::Null
        }),
{
    reveal_strlit("token");
    reveal_strlit("session_id");
    reveal_strlit("seq");
    assert("token"@.len() == 5 && "session_id"@.len() == 10 && "seq"@.len() == 3);
    envelope_members(6, resume_tree(token, session_id, seq)->Object_0["d"@]);
}

/// A request for a voice channel has the opcode 4 and names the guild and the channel, null where
/// none is wanted; the bot is neither mute nor deaf.
pub proof fn voice_state_reads_as(guild_id: Seq<char>, channel_id: Option<Seq<char>>)
    ensures
        ({
            let tree = voice_state_tree(guild_id, channel_id);
            let data = tree.get("d"@);
            &&& tree.get("op"@) == JsonTree::UInt(4)
            &&& data.get("guild_id"@) == JsonTree::Str(guild_id)
            &&& data.get("channel_id"@).as_str() == channel_id
            &&& channel_id is None ==> data.get("channel_id"@) == JsonTree::Null
            &&& data.get("self_mute"@) == JsonTree::Bool(false)
            &&& data.get("self_deaf"@) == JsonTree::Bool(false)
            &&& forall|key: Seq<char>|
                key != "guild_id"@ && key != "channel_id"@ && key != "self_mute"@ && key
                    != "self_deaf"@ ==> #[trigger] data.get(key) == JsonTree::Null
        }),
{
    reveal_strlit("guild_id");
    reveal_strlit("channel_id");
    reveal_strlit("self_mute");
    reveal_strlit("self_deaf");
    assert("guild_id"@.len() == 8 && "channel_id"@.len() == 10);
    assert("self_mute"@.len() == 9 && "self_deaf"@.len() == 9);
    assert("self_mute"@[5] == 'm' && "self_deaf"@[5] == 'd');
    envelope_members(4, voice_state_tree(guild_id, channel_id)->Object_0["d"@]);
}

/// An introduction to a voice server has the opcode 0 and names the guild, the user, the session and
/// the token.
pub proof fn voice_introduction_reads_as(identify: Identify)
    ensures
        ({
            let tree = voice_identify_tree(identify);
            let data = tree.get("d"@);
            &&& tree.get("op"@) == JsonTree::UInt(0)
            &&& data.get("server_id"@) == JsonTree::Str(identify.server_id@)
            &&& data.get("user_id"@) == JsonTree::Str(identify.user_id@)
            &&& data.get("session_id"@) == JsonTree::Str(identify.session_id@)
            &&& data.get("token"@) == JsonTree::Str(identify.token@)
            &&& forall|key: Seq<char>|
                key != "server_id"@ && key != "user_id"@ && key != "session_id"@ && key != "token"@
                    ==> #[trigger] data.get(key) == JsonTree::Null
        }),
{
    reveal_strlit("server_id");
    reveal_strlit("user_id");
    reveal_strlit("session_id");
    reveal_strlit("token");
    assert("server_id"@.len() == 9 && "user_id"@.len() == 7);
    assert("session_id"@.len() == 10 && "token"@.len() == 5);
    envelope_members(0, voice_identify_tree(identify)->Object_0["d"@]);
}

/// The choice of a protocol has the opcode 1 and names UDP, the address, the port and how packets
/// are encrypted.
pub proof fn protocol_reads_as(address: Seq<char>, port: u16)
    ensures
        ({
            let tree = select_protocol_tree(address, port);
            let data = tree.get("d"@);
            let target = data.get("data"@);
            &&& tree.get("op"@) == JsonTree::UInt(1)
            &&& data.get("protocol"@) == JsonTree::Str("udp"@)
            &&& target.get("address"@) == JsonTree::Str(address)
            &&& target.get("port"@) is UInt
            &&& target.get("port"@)->UInt_0 == port
            &&& target.get("mode"@) == JsonTree::Str("xsalsa20_poly1305"@)
            &&& forall|key: Seq<char>|
                key != "protocol"@ && key != "data"@ ==> #[trigger] data.get(key) == JsonTree::Null
            &&& forall|key: Seq<char>|
                key != "address"@ && key != "port"@ && key != "mode"@ ==> #[trigger] target.get(
                    key,
                ) == JsonTree::Null
        }),
{
    reveal_strlit("protocol");
    reveal_strlit("data");
    reveal_strlit("address");
    reveal_strlit("port");
    reveal_strlit("mode");
    assert("protocol"@.len() == 8 && "data"@.len() == 4);
    assert("address"@.len() == 7 && "port"@.len() == 4 && "mode"@.len() == 4);
    assert("port"@[0] == 'p' && "mode"@[0] == 'm');
    envelope_members(1, select_protocol_tree(address, port)->Object_0["d"@]);
}

/// The sign that the bot is speaking has the opcode 5 and names the audio source; a voice heartbeat
/// has the opcode 3 and the nonce as its data; a message says its content and nothing else.
pub proof fn signs_read_as(ssrc: u64, nonce: u64, content: Seq<char>)
    ensures
        ({
            let tree = speaking_tree(ssrc);
            let data = tree.get("d"@);
            &&& tree.get("op"@) == JsonTree::UInt(5)
            &&& data.get("speaking"@) == JsonTree::UInt(1)
            &&& data.get("delay"@) == JsonTree::UInt(0)
            &&& data.get("ssrc"@) == JsonTree::UInt(ssrc)
            &&& forall|key: Seq<char>|
                key != "speaking"@ && key != "delay"@ && key != "ssrc"@ ==> #[trigger] data.get(key)
                    == JsonTree::Null
        }),
        voice_heartbeat_tree(nonce).get("op"@) == JsonTree::UInt(3),
        voice_heartbeat_tree(nonce).get("d"@) == JsonTree::UInt(nonce),
        content_tree(content).get("content"@) == JsonTree::Str(content),
        forall|key: Seq<char>|
            key != "content"@ ==> #[trigger] content_tree(content).get(key) == JsonTree::Null,
{
    reveal_strlit("speaking");
    reveal_strlit("delay");
    reveal_strlit("ssrc");
    assert("speaking"@.len() == 8 && "delay"@.len() == 5 && "ssrc"@.len() == 4);
    envelope_members(5, speaking_tree(ssrc)->Object_0["d"@]);
    envelope_members(3, JsonTree::UInt(nonce));
}

} // verus!
