//! Voice connections: where the server is, what it says, and how the bot finds its own address.

use url::Url;
use vstd::prelude::*;

#[allow(unused_imports)]
use crate::gateway::discord::message_opcode;
use crate::gateway::discord::{read_opcode, DEFAULT_HEARTBEAT_INTERVAL};
use crate::gateway::payloads::{
    select_protocol_text, speaking_text, voice_heartbeat_text, voice_identify_text, Identify,
};
#[allow(unused_imports)]
use crate::gateway::payloads::{
    select_protocol_tree, speaking_tree, voice_heartbeat_tree, voice_identify_tree,
    voice_introduction_reads_as,
};
#[allow(unused_imports)]
use crate::gateway::youtube::{be16, be32, bytes_read_as_number};
use crate::json::Json;
#[allow(unused_imports)]
use crate::json::{item_trees, json_parsed, json_rendered, lemma_item_trees, JsonTree};
use crate::text::{cut_before, push_decimal};
#[allow(unused_imports)]
use crate::text::{before_mark, decimal, decimal_value, notation_is_exact, opt_view};

verus! {

/// How long to wait before connecting to a voice server, in milliseconds.
pub const SERVER_DELAY: u64 = 2000;

/// How long to wait before the first audio packet, in milliseconds.
pub const AUDIO_DELAY: u64 = 100;

/// The time between two signs that the bot is speaking, in milliseconds.
pub const SPEAKING_INTERVAL: u64 = 5000;

/// The longest endpoint that is connected to, in characters. An address may grow a hundredfold
/// while it is read, and positions in it are kept in 32 bits.
pub const ENDPOINT_LIMIT: usize = 0x100_0000;

/// A moment of the system's clock.
#[verifier::external_type_specification]
#[verifier::external_body]
pub struct ExSystemTime(std::time::SystemTime);

/// `std::time::SystemTime::now` reads the clock; nothing is said of what it shows.
pub assume_specification[ std::time::SystemTime::now ]() -> std::time::SystemTime;

/// Calls `std::time::SystemTime::duration_since` for the Unix epoch: the whole seconds since then
/// and the nanoseconds beyond them, or nothing where the moment lies before the epoch. Which
/// moment gives which numbers is left open.
#[verifier::external_body]
fn since_epoch(moment: &std::time::SystemTime) -> (span: Option<(u64, u32)>)
    ensures
        span matches Some(s) ==> s.1 < 1_000_000_000,
{
    let span = moment.duration_since(std::time::UNIX_EPOCH).ok()?;
    Some((span.as_secs(), span.subsec_nanos()))
}

/// Whole milliseconds in a span of time.
pub open spec fn millis(seconds: u64, nanoseconds: u32) -> nat {
    (seconds * 1000 + nanoseconds / 1_000_000) as nat
}

/// Whole milliseconds in a span of time.
pub fn span_millis(seconds: u64, nanoseconds: u32) -> (count: u128)
    ensures
        count == millis(seconds, nanoseconds),
{
    seconds as u128 * 1000 + (nanoseconds / 1_000_000) as u128
}

/// The milliseconds that a reading of the clock counts since the Unix epoch; nothing where the
/// clock stood before it.
pub fn reading_millis(reading: Option<(u64, u32)>) -> (count: Option<u128>)
    ensures
        match reading {
            Some((seconds, nanoseconds)) => count is Some && count->0 == millis(
                seconds,
                nanoseconds,
            ),
            None => count is None,
        },
{
    match reading {
        Some((seconds, nanoseconds)) => Some(span_millis(seconds, nanoseconds)),
        None => None,
    }
}

/// Milliseconds since the Unix epoch; nothing where the clock stands before it. What the clock
/// shows is open.
pub fn current_millis() -> (count: Option<u128>)
    ensures
        count matches Some(ms) ==> exists|seconds: u64, nanoseconds: u32|
            nanoseconds < 1_000_000_000 && ms == #[trigger] millis(seconds, nanoseconds),
{
    reading_millis(since_epoch(&std::time::SystemTime::now()))
}

/// The address that the `url` crate makes of `address` by parsing it and setting its query; none
/// where it does not parse.
pub uninterp spec fn url_with_query(address: Seq<char>, query: Seq<char>) -> Option<Seq<char>>;

/// Parses with `url::Url::parse`, sets the query with `url::Url::set_query` and displays the
/// result; nothing where the address does not parse. `set_query` panics where the position of the
/// query does not fit in 32 bits, so the address is bounded.
#[verifier::external_body]
fn set_query(address: &str, query: &str) -> (result: Option<String>)
    requires
        address@.len() <= ENDPOINT_LIMIT + 16,
        query@.len() <= 16,
    ensures
        opt_view(result) == url_with_query(address@, query@),
{
    let mut url = Url::parse(address).ok()?;
    url.set_query(Some(query));
    Some(url.to_string())
}

/// An address with the version of the voice protocol behind it.
pub open spec fn versioned(host: Seq<char>) -> Seq<char> {
    "wss://"@ + host + "?v=4"@
}

/// The address of a voice server: the one that was built properly, or else one pieced together.
pub open spec fn server_url(built: Option<Seq<char>>, host: Seq<char>) -> Seq<char> {
    match built {
        Some(url) => url,
        None => versioned(host),
    }
}

/// An address with the version of the voice protocol behind it.
pub fn with_version(host: &str) -> (url: String)
    ensures
        url@ == versioned(host@),
{
    let mut url = "wss://".to_owned();
    url.append(host);
    url.append("?v=4");
    url
}

/// The address of a voice server.
pub fn choose_url(built: Option<String>, host: &str) -> (url: String)
    ensures
        url@ == server_url(opt_view(built), host@),
{
    match built {
        Some(url) => url,
        None => with_version(host),
    }
}

/// Why no connection to a voice server is tried.
#[derive(Debug, Clone, Copy, PartialEq, Eq, Structural)]
pub enum VoiceError {
    EmptyEndpoint,
}

impl VoiceError {
    /// What the error says.
    pub fn message(self) -> (text: &'static str)
        ensures
            text@ == "Voice server endpoint is empty"@,
    {
        match self {
            VoiceError::EmptyEndpoint => "Voice server endpoint is empty",
        }
    }
}

/// Where to connect to: first without the port, then with it, if there is one.
pub struct ConnectPlan {
    pub url: String,
    pub fallback: Option<String>,
}

/// Where to connect to for this endpoint. The port is for audio packets only, so it is left out
/// at first.
pub fn plan_connection(endpoint: &str) -> (plan: Result<ConnectPlan, VoiceError>)
    requires
        endpoint@.len() <= ENDPOINT_LIMIT,
    ensures
        endpoint@.len() == 0 ==> plan == Err::<ConnectPlan, VoiceError>(VoiceError::EmptyEndpoint),
        endpoint@.len() > 0 ==> (plan matches Ok(p) && p.url@ == server_url(
            url_with_query("wss://"@ + before_mark(endpoint@, ':'), "v=4"@),
            before_mark(endpoint@, ':'),
        ) && opt_view(p.fallback) == if endpoint@.contains(':') {
            Some(versioned(endpoint@))
        } else {
            None
        }),
{
    if endpoint.is_empty() {
        return Err(VoiceError::EmptyEndpoint);
    }
    let (host, has_port) = cut_before(endpoint, ':');
    let mut address = "wss://".to_owned();
    address.append(host);
    proof {
        reveal_strlit("wss://");
        reveal_strlit("v=4");
        lemma_before_mark_len(endpoint@, ':');
    }
    let built = set_query(address.as_str(), "v=4");
    let fallback = if has_port {
        Some(with_version(endpoint))
    } else {
        None
    };
    Ok(ConnectPlan { url: choose_url(built, host), fallback })
}

/// What stands before a mark is no longer than the whole.
proof fn lemma_before_mark_len(text: Seq<char>, mark: char)
    ensures
        before_mark(text, mark).len() <= text.len(),
    decreases text.len(),
{
    if text.len() > 0 && text[0] != mark {
        lemma_before_mark_len(text.skip(1), mark);
    }
}

/// One of the attempts to connect to a voice server.
#[derive(Debug, Clone, Copy, PartialEq, Eq, Structural)]
pub enum Attempt {
    First,
    Fallback,
}

/// What follows a failed attempt.
pub enum AfterFailure {
    /// Try this address.
    Retry(String),
    /// Give up and say this.
    GiveUp(String),
}

/// What follows a failed attempt, where the first attempt failed for `cause`: the fallback is tried
/// once, if there is one.
pub fn after_failure(plan: &ConnectPlan, attempt: Attempt, cause: &str) -> (next: AfterFailure)
    ensures
        attempt == Attempt::First && plan.fallback is Some ==> (next matches AfterFailure::Retry(
            url,
        ) && url@ == plan.fallback->0@),
        attempt == Attempt::First && plan.fallback is None ==> (next matches AfterFailure::GiveUp(
            message,
        ) && message@ == "Failed to connect to voice WebSocket "@ + plan.url@ + ": "@ + cause@),
        attempt == Attempt::Fallback ==> (next matches AfterFailure::GiveUp(message) && message@
            == "Failed to connect to voice WebSocket (tried both with and without port): "@
            + cause@),
{
    match (attempt, &plan.fallback) {
        (Attempt::First, Some(url)) => AfterFailure::Retry(url.clone()),
        (Attempt::First, None) => {
            let mut message = "Failed to connect to voice WebSocket ".to_owned();
            message.append(plan.url.as_str());
            message.append(": ");
            message.append(cause);
            AfterFailure::GiveUp(message)
        },
        (Attempt::Fallback, _) => {
            let mut message =
                "Failed to connect to voice WebSocket (tried both with and without port): "
                .to_owned();
            message.append(cause);
            AfterFailure::GiveUp(message)
        },
    }
}

/// Whether a message is sent to the voice server: every payload is.
pub fn is_sendable(message: &str) -> (sendable: bool)
    ensures
        sendable == message_opcode(message@) is Some,
{
    read_opcode(message).is_some()
}

/// What a frame of the voice server makes the bot do.
pub enum VoiceAction {
    /// Make the bot's audio source known.
    PublishSsrc(u64),
    /// Make known to which address audio packets go.
    PublishAddress(String),
    /// Make known to which port audio packets go.
    PublishPort(u16),
    /// Ask at this address under which address the bot is seen.
    Discover { address: String, port: u16 },
    /// Play, encrypting with this key.
    StartAudio([u8; 32]),
    /// Send this introduction, and a heartbeat after each interval of so many milliseconds.
    Greet { identify: String, heartbeat_interval: u64 },
}

/// What a frame of the voice server makes the bot do, as a mathematical value.
pub enum VoiceActionModel {
    PublishSsrc(u64),
    PublishAddress(Seq<char>),
    PublishPort(u16),
    Discover { address: Seq<char>, port: u16 },
    StartAudio(Seq<u8>),
    Greet { identify: Seq<char>, heartbeat_interval: u64 },
}

impl View for VoiceAction {
    type V = VoiceActionModel;

    open spec fn view(&self) -> VoiceActionModel {
        match *self {
            VoiceAction::PublishSsrc(ssrc) => VoiceActionModel::PublishSsrc(ssrc),
            VoiceAction::PublishAddress(address) => VoiceActionModel::PublishAddress(address@),
            VoiceAction::PublishPort(port) => VoiceActionModel::PublishPort(port),
            VoiceAction::Discover { address, port } => VoiceActionModel::Discover {
                address: address@,
                port,
            },
            VoiceAction::StartAudio(key) => VoiceActionModel::StartAudio(key@),
            VoiceAction::Greet { identify, heartbeat_interval } => VoiceActionModel::Greet {
                identify: identify@,
                heartbeat_interval,
            },
        }
    }
}

/// The actions of a list, as mathematical values.
pub open spec fn voice_models(actions: Seq<VoiceAction>) -> Seq<VoiceActionModel> {
    actions.map_values(|action: VoiceAction| action@)
}

/// The lowest sixteen bits of a number.
pub open spec fn low_u16(number: u64) -> u16 {
    (number % 0x1_0000) as u16
}

/// The byte of a key that an item stands for: its lowest eight bits, or zero where it is no number.
pub open spec fn key_byte(item: JsonTree) -> u8 {
    match item.as_u64() {
        Some(number) => (number % 0x100) as u8,
        None => 0,
    }
}

/// The key that the items stand for.
pub open spec fn key_bytes(items: Seq<JsonTree>) -> Seq<u8> {
    items.map_values(|item: JsonTree| key_byte(item))
}

/// What the news that a voice server is ready make the bot do.
pub open spec fn server_ready_actions(data: JsonTree) -> Seq<VoiceActionModel> {
    let ssrc_part = match data.get("ssrc"@).as_u64() {
        Some(ssrc) => seq![VoiceActionModel::PublishSsrc(ssrc)],
        None => seq![],
    };
    let address_part = match data.get("address"@).as_str() {
        Some(address) => seq![VoiceActionModel::PublishAddress(address)],
        None => seq![],
    };
    let port_part = match data.get("port"@).as_u64() {
        Some(port) => seq![VoiceActionModel::PublishPort(low_u16(port))],
        None => seq![],
    };
    let port = match data.get("port"@).as_u64() {
        Some(port) => low_u16(port),
        None => 0,
    };
    ssrc_part + address_part + port_part + seq![
        VoiceActionModel::Discover { address: data.get("address"@).str_or_empty(), port },
    ]
}

/// What the description of a voice session makes the bot do: play, if there is a key of 32 bytes.
pub open spec fn session_actions(data: JsonTree) -> Seq<VoiceActionModel> {
    match data.get("secret_key"@).as_array() {
        Some(items) => if items.len() == 32 {
            seq![VoiceActionModel::StartAudio(key_bytes(items))]
        } else {
            seq![]
        },
        None => seq![],
    }
}

/// What the frame `tree` of the voice server makes the bot do, which introduces itself by
/// `identify`.
pub open spec fn voice_actions(tree: JsonTree, identify: Identify) -> Seq<VoiceActionModel> {
    match tree.get("op"@).as_u64() {
        Some(2) => server_ready_actions(tree.get("d"@).get("data"@)),
        Some(4) => session_actions(tree.get("d"@).get("data"@)),
        Some(8) => seq![
            VoiceActionModel::Greet {
                identify: json_rendered(voice_identify_tree(identify)),
                heartbeat_interval: match tree.get("d"@).get("heartbeat_interval"@).as_u64() {
                    Some(interval) => interval,
                    None => DEFAULT_HEARTBEAT_INTERVAL,
                },
            },
        ],
        _ => seq![],
    }
}

/// Whether every introduction among the actions reads back as the introduction by `identify`.
pub open spec fn greetings_read_back(actions: Seq<VoiceAction>, identify: Identify) -> bool {
    forall|i: int|
        0 <= i < actions.len() ==> ((#[trigger] actions[i]) matches VoiceAction::Greet {
            identify: text,
            ..
        } ==> json_parsed(text@) == Some(voice_identify_tree(identify)))
}

/// The lowest sixteen bits of a number.
fn cut_u16(number: u64) -> (low: u16)
    ensures
        low == low_u16(number),
{
    assert(number as u16 == number % 0x1_0000) by (bit_vector);
    number as u16
}

/// The byte of a key that an item stands for.
fn read_key_byte(item: &Json) -> (byte: u8)
    ensures
        byte == key_byte(item@),
{
    match item.as_u64() {
        Some(number) => {
            assert(number as u8 == number % 0x100) by (bit_vector);
            number as u8
        },
        None => 0,
    }
}

/// The key that the items stand for.
fn read_key(items: &Vec<Json>) -> (key: [u8; 32])
    requires
        items@.len() == 32,
    ensures
        key@ == key_bytes(item_trees(items@)),
{
    let mut key: [u8; 32] = [0u8; 32];
    proof {
        lemma_item_trees(items@);
    }
    for i in 0..32usize
        invariant
            items@.len() == 32,
            item_trees(items@).len() == 32,
            forall|k: int|
                0 <= k < 32 ==> #[trigger] item_trees(items@)[k] == items@[k]@,
            forall|k: int| 0 <= k < i ==> #[trigger] key@[k] == key_byte(item_trees(items@)[k]),
    {
        key[i] = read_key_byte(&items[i]);
    }
    assert(key@ =~= key_bytes(item_trees(items@)));
    key
}

/// What the news that a voice server is ready make the bot do.
fn on_server_ready(data: &Json) -> (actions: Vec<VoiceAction>)
    ensures
        voice_models(actions@) == server_ready_actions(data@),
        forall|i: int| 0 <= i < actions@.len() ==> !((#[trigger] actions@[i]) is Greet),
{
    let mut actions: Vec<VoiceAction> = Vec::new();
    if let Some(ssrc) = data.get("ssrc").as_u64() {
        actions.push(VoiceAction::PublishSsrc(ssrc));
    }
    if let Some(address) = data.get("address").as_str() {
        actions.push(VoiceAction::PublishAddress(address.to_owned()));
    }
    let mut port: u16 = 0;
    if let Some(number) = data.get("port").as_u64() {
        port = cut_u16(number);
        actions.push(VoiceAction::PublishPort(port));
    }
    actions.push(VoiceAction::Discover { address: data.get("address").str_or_empty(), port });
    assert(voice_models(actions@) =~= server_ready_actions(data@));
    actions
}

/// What the description of a voice session makes the bot do.
fn on_session(data: &Json) -> (actions: Vec<VoiceAction>)
    ensures
        voice_models(actions@) == session_actions(data@),
        forall|i: int| 0 <= i < actions@.len() ==> !((#[trigger] actions@[i]) is Greet),
{
    let mut actions: Vec<VoiceAction> = Vec::new();
    if let Some(items) = data.get("secret_key").as_array() {
        proof {
            lemma_item_trees(items@);
        }
        if items.len() == 32 {
            actions.push(VoiceAction::StartAudio(read_key(items)));
        }
    }
    assert(voice_models(actions@) =~= session_actions(data@));
    actions
}

/// What the frame `json` of the voice server makes the bot do.
pub fn on_voice_frame(json: &Json, identify: &Identify) -> (actions: Vec<VoiceAction>)
    ensures
        voice_models(actions@) == voice_actions(json@, *identify),
        greetings_read_back(actions@, *identify),
{
    match json.get("op").as_u64() {
        Some(2) => on_server_ready(json.get("d").get("data")),
        Some(4) => on_session(json.get("d").get("data")),
        Some(8) => {
            let heartbeat_interval = match json.get("d").get("heartbeat_interval").as_u64() {
                Some(interval) => interval,
                None => DEFAULT_HEARTBEAT_INTERVAL,
            };
            let mut actions: Vec<VoiceAction> = Vec::new();
            actions.push(
                VoiceAction::Greet { identify: voice_identify_text(identify), heartbeat_interval },
            );
            assert(voice_models(actions@) =~= voice_actions(json@, *identify));
            actions
        },
        _ => {
            let actions: Vec<VoiceAction> = Vec::new();
            assert(voice_models(actions@) =~= Seq::<VoiceActionModel>::empty());
            actions
        },
    }
}

/// What a text from the voice server makes the bot do: nothing where it is no document.
pub fn on_voice_text(text: &str, identify: &Identify) -> (actions: Vec<VoiceAction>)
    ensures
        greetings_read_back(actions@, *identify),
        voice_models(actions@) == match json_parsed(text@) {
            Some(tree) => voice_actions(tree, *identify),
            None => seq![],
        },
{
    match Json::parse(text) {
        Some(json) => on_voice_frame(&json, identify),
        None => {
            let actions: Vec<VoiceAction> = Vec::new();
            assert(voice_models(actions@) =~= Seq::<VoiceActionModel>::empty());
            actions
        },
    }
}

/// The lowest 32 bits of a number.
pub open spec fn low_u32(number: u64) -> u32 {
    (number % 0x1_0000_0000) as u32
}

/// The lowest 32 bits of a number.
fn cut_u32(number: u64) -> (low: u32)
    ensures
        low == low_u32(number),
{
    assert(number as u32 == number % 0x1_0000_0000) by (bit_vector);
    number as u32
}

/// The packet that asks under which address the bot is seen: its audio source, and zeros up to 70
/// bytes.
pub open spec fn discovery_bytes(ssrc: u32) -> Seq<u8> {
    be32(ssrc) + Seq::new(66, |i: int| 0u8)
}

/// The packet that asks under which address the bot is seen.
pub fn discovery_packet(ssrc: u32) -> (packet: Vec<u8>)
    ensures
        packet@ == discovery_bytes(ssrc),
{
    let mut packet: Vec<u8> = Vec::with_capacity(70);
    packet.push((ssrc / 0x100_0000) as u8);
    packet.push(((ssrc / 0x1_0000) % 0x100) as u8);
    packet.push(((ssrc / 0x100) % 0x100) as u8);
    packet.push((ssrc % 0x100) as u8);
    assert(packet@ =~= be32(ssrc) + Seq::new(0, |i: int| 0u8));
    for i in 0..66usize
        invariant
            packet@ == be32(ssrc) + Seq::new(i as nat, |k: int| 0u8),
    {
        packet.push(0);
        assert(packet@ =~= be32(ssrc) + Seq::new((i + 1) as nat, |k: int| 0u8));
    }
    packet
}

/// An address and a port.
pub open spec fn socket_text(address: Seq<char>, port: u16) -> Seq<char> {
    address + ":"@ + decimal(port as nat)
}

/// An address and a port.
pub fn socket_address(address: &str, port: u16) -> (text: String)
    ensures
        text@ == socket_text(address@, port),
{
    let mut text = address.to_owned();
    text.append(":");
    push_decimal(&mut text, port as u64);
    text
}

/// What the search for the bot's own address does next.
pub enum DiscoveryStep {
    /// Wait for news of the audio source.
    WaitForSsrc,
    /// Send this packet to this address and port, and wait for the answer.
    Ask { packet: Vec<u8>, target: String },
    /// Give up: the audio source is not known.
    GiveUp,
}

/// How the search for the bot's own address begins. News of the audio source are waited for once.
pub fn discovery_step(waited: bool, ssrc: Option<u64>, address: &str, port: u16) -> (step:
    DiscoveryStep)
    ensures
        match ssrc {
            Some(source) => step matches DiscoveryStep::Ask { packet, target } && packet@
                == discovery_bytes(low_u32(source)) && target@ == socket_text(address@, port),
            None => if waited {
                step is GiveUp
            } else {
                step is WaitForSsrc
            },
        },
{
    match ssrc {
        Some(source) => DiscoveryStep::Ask {
            packet: discovery_packet(cut_u32(source)),
            target: socket_address(address, port),
        },
        None => if waited {
            DiscoveryStep::GiveUp
        } else {
            DiscoveryStep::WaitForSsrc
        },
    }
}

/// Four bytes as an internet address.
pub open spec fn dotted(a: u8, b: u8, c: u8, d: u8) -> Seq<char> {
    decimal(a as nat) + "."@ + decimal(b as nat) + "."@ + decimal(c as nat) + "."@ + decimal(
        d as nat,
    )
}

/// Four bytes as an internet address.
pub fn dotted_address(a: u8, b: u8, c: u8, d: u8) -> (text: String)
    ensures
        text@ == dotted(a, b, c, d),
{
    let mut text = String::new();
    push_decimal(&mut text, a as u64);
    text.append(".");
    push_decimal(&mut text, b as u64);
    text.append(".");
    push_decimal(&mut text, c as u64);
    text.append(".");
    push_decimal(&mut text, d as u64);
    assert(text@ =~= dotted(a, b, c, d));
    text
}

/// The address that an answer tells: its first four bytes.
pub open spec fn answered_address(answer: Seq<u8>) -> Seq<char> {
    dotted(answer[0], answer[1], answer[2], answer[3])
}

/// The port that an answer tells: the two bytes behind the address.
pub open spec fn answered_port(answer: Seq<u8>) -> u16 {
    (256 * answer[4] + answer[5]) as u16
}

/// The address and the port that an answer of so many bytes tells. An answer shorter than an
/// address tells nothing.
pub fn discovered(answer: &[u8; 70], size: usize) -> (found: Option<(String, u16)>)
    ensures
        found is Some == (size >= 4),
        found matches Some(f) ==> f.0@ == answered_address(answer@) && f.1 == answered_port(
            answer@,
        ),
{
    if size < 4 {
        return None;
    }
    let address = dotted_address(answer[0], answer[1], answer[2], answer[3]);
    let port: u16 = 256 * (answer[4] as u16) + answer[5] as u16;
    Some((address, port))
}

/// The choice of a protocol that an answer of so many bytes leads to. Without an answer the choice
/// leaves the address to the server.
pub fn after_discovery(size: Option<usize>, answer: &[u8; 70]) -> (reply: Option<String>)
    ensures
        reply is None == (size is Some && size->0 < 4),
        size is Some && size->0 >= 4 ==> reply->0@ == json_rendered(
            select_protocol_tree(answered_address(answer@), answered_port(answer@)),
        ) && json_parsed(reply->0@) == Some(
            select_protocol_tree(answered_address(answer@), answered_port(answer@)),
        ),
        size is None ==> reply->0@ == json_rendered(select_protocol_tree("0.0.0.0"@, 0))
            && json_parsed(reply->0@) == Some(select_protocol_tree("0.0.0.0"@, 0)),
{
    match size {
        Some(n) => match discovered(answer, n) {
            Some((address, port)) => Some(select_protocol_text(address.as_str(), port)),
            None => None,
        },
        None => Some(select_protocol_text("0.0.0.0", 0)),
    }
}

/// The sign that the bot is speaking, where its audio source is known.
pub fn speaking_sign(ssrc: Option<u64>) -> (text: Option<String>)
    ensures
        text is Some == ssrc is Some,
        text matches Some(t) ==> t@ == json_rendered(speaking_tree(ssrc->0)) && json_parsed(t@)
            == Some(speaking_tree(ssrc->0)),
{
    match ssrc {
        Some(source) => Some(speaking_text(source)),
        None => None,
    }
}

/// The heartbeat at a reading of the clock, in milliseconds. There is none where the clock cannot
/// be read or its reading has no place in a payload.
pub fn heartbeat_at(millis: Option<u128>) -> (text: Option<String>)
    ensures
        text is Some == (millis is Some && millis->0 <= u64::MAX),
        text matches Some(t) ==> t@ == json_rendered(voice_heartbeat_tree(millis->0 as u64))
            && json_parsed(t@) == Some(voice_heartbeat_tree(millis->0 as u64)),
{
    match millis {
        Some(nonce) => if nonce <= u64::MAX as u128 {
            Some(voice_heartbeat_text(nonce))
        } else {
            None
        },
        None => None,
    }
}

/// What is known of where audio packets go.
pub struct AudioInfo {
    pub ssrc: Option<u64>,
    pub address: Option<String>,
    pub port: Option<u16>,
}

/// How far the start of the audio has come.
#[derive(Clone, Copy, PartialEq, Eq, Structural)]
pub enum AudioStage {
    Starting,
    AwaitingSsrc,
    AwaitingAddress,
    AwaitingPort,
    Done,
}

/// What happened to the start of the audio.
#[derive(Clone, Copy, PartialEq, Eq, Structural)]
pub enum AudioEvent {
    Started,
    SsrcChanged,
    AddressChanged,
    PortChanged,
}

/// What is done next to start the audio.
#[derive(Clone, Copy, PartialEq, Eq, Structural)]
pub enum AudioMove {
    /// Go on waiting.
    Wait,
    /// Wait for news of the audio source.
    WaitForSsrc,
    /// Wait for news of the address.
    WaitForAddress,
    /// Wait for news of the port.
    WaitForPort,
    /// Start with what is known now.
    Start,
}

/// The stage and the move where only the port may be missing.
pub open spec fn seek_port(info: AudioInfo) -> (AudioStage, AudioMove) {
    if info.port is Some {
        (AudioStage::Done, AudioMove::Start)
    } else {
        (AudioStage::AwaitingPort, AudioMove::WaitForPort)
    }
}

/// The stage and the move where the address may be missing.
pub open spec fn seek_address(info: AudioInfo) -> (AudioStage, AudioMove) {
    if info.address is Some {
        seek_port(info)
    } else {
        (AudioStage::AwaitingAddress, AudioMove::WaitForAddress)
    }
}

/// The stage and the move behind `event`. News are waited for once: whatever they are, the start
/// goes on.
pub open spec fn audio_next(stage: AudioStage, event: AudioEvent, info: AudioInfo) -> (
    AudioStage,
    AudioMove,
) {
    match (stage, event) {
        (AudioStage::Starting, AudioEvent::Started) => if info.ssrc is Some {
            seek_address(info)
        } else {
            (AudioStage::AwaitingSsrc, AudioMove::WaitForSsrc)
        },
        (AudioStage::AwaitingSsrc, AudioEvent::SsrcChanged) => seek_address(info),
        (AudioStage::AwaitingAddress, AudioEvent::AddressChanged) => seek_port(info),
        (AudioStage::AwaitingPort, AudioEvent::PortChanged) => (AudioStage::Done, AudioMove::Start),
        _ => (stage, AudioMove::Wait),
    }
}

fn find_port(info: &AudioInfo) -> (next: (AudioStage, AudioMove))
    ensures
        next == seek_port(*info),
{
    if info.port.is_some() {
        (AudioStage::Done, AudioMove::Start)
    } else {
        (AudioStage::AwaitingPort, AudioMove::WaitForPort)
    }
}

fn find_address(info: &AudioInfo) -> (next: (AudioStage, AudioMove))
    ensures
        next == seek_address(*info),
{
    if info.address.is_some() {
        find_port(info)
    } else {
        (AudioStage::AwaitingAddress, AudioMove::WaitForAddress)
    }
}

/// What is done next to start the audio, and the stage behind it.
pub fn audio_step(stage: AudioStage, event: AudioEvent, info: &AudioInfo) -> (next: (
    AudioStage,
    AudioMove,
))
    ensures
        next == audio_next(stage, event, *info),
{
    match (stage, event) {
        (AudioStage::Starting, AudioEvent::Started) => if info.ssrc.is_some() {
            find_address(info)
        } else {
            (AudioStage::AwaitingSsrc, AudioMove::WaitForSsrc)
        },
        (AudioStage::AwaitingSsrc, AudioEvent::SsrcChanged) => find_address(info),
        (AudioStage::AwaitingAddress, AudioEvent::AddressChanged) => find_port(info),
        (AudioStage::AwaitingPort, AudioEvent::PortChanged) => (AudioStage::Done, AudioMove::Start),
        _ => (stage, AudioMove::Wait),
    }
}

/// The source of the audio packets, where they go, and the sign to send before the first of them.
pub struct AudioTarget {
    pub ssrc: u32,
    pub target: String,
    pub speaking: String,
}

/// What is missing to send audio packets.
#[derive(Debug, Clone, Copy, PartialEq, Eq, Structural)]
pub enum MissingAudio {
    Ssrc,
    Address,
    Port,
}

/// What it takes to send audio packets, as far as it is known. The source is missed first, then
/// the address, then the port.
pub fn audio_target(info: &AudioInfo) -> (target: Result<AudioTarget, MissingAudio>)
    ensures
        info.ssrc is None ==> target == Err::<AudioTarget, MissingAudio>(MissingAudio::Ssrc),
        info.ssrc is Some && info.address is None ==> target == Err::<AudioTarget, MissingAudio>(
            MissingAudio::Address,
        ),
        info.ssrc is Some && info.address is Some && info.port is None ==> target == Err::<
            AudioTarget,
            MissingAudio,
        >(MissingAudio::Port),
        info.ssrc is Some && info.address is Some && info.port is Some ==> (target matches Ok(t)
            && t.ssrc == low_u32(info.ssrc->0) && t.target@ == socket_text(
            info.address->0@,
            info.port->0,
        ) && t.speaking@ == json_rendered(speaking_tree(t.ssrc as u64)) && json_parsed(t.speaking@)
            == Some(speaking_tree(t.ssrc as u64))),
{
    let ssrc: u32 = match info.ssrc {
        Some(source) => cut_u32(source),
        None => {
            return Err(MissingAudio::Ssrc);
        },
    };
    let address = match &info.address {
        Some(address) => address,
        None => {
            return Err(MissingAudio::Address);
        },
    };
    match info.port {
        Some(port) => Ok(
            AudioTarget {
                ssrc,
                target: socket_address(address.as_str(), port),
                speaking: speaking_text(ssrc as u64),
            },
        ),
        None => Err(MissingAudio::Port),
    }
}

/// The host that is connected to first carries no port.
pub proof fn host_has_no_port(endpoint: Seq<char>)
    ensures
        !before_mark(endpoint, ':').contains(':'),
    decreases endpoint.len(),
{
    if endpoint.len() > 0 && endpoint[0] != ':' {
        let rest = before_mark(endpoint.skip(1), ':');
        host_has_no_port(endpoint.skip(1));
        let host = before_mark(endpoint, ':');
        assert forall|i: int| 0 <= i < host.len() implies host[i] != ':' by {
            if i > 0 {
                assert(host[i] == rest[i - 1]);
            }
        }
    }
}

/// The key that a voice server describes, one number for each byte, is the key that is used.
pub proof fn session_key_is_read_back(tree: JsonTree, key: Seq<u8>, identify: Identify)
    requires
        key.len() == 32,
        tree.get("op"@) == JsonTree::UInt(4),
        tree.get("d"@).get("data"@).get("secret_key"@) == JsonTree::Array(
            key.map_values(|byte: u8| JsonTree::UInt(byte as u64)),
        ),
    ensures
        voice_actions(tree, identify) == seq![VoiceActionModel::StartAudio(key)],
{
    let items = key.map_values(|byte: u8| JsonTree::UInt(byte as u64));
    assert(key_bytes(items) =~= key);
}

/// The port that an answer carries, higher byte first, is the port that is reported.
pub proof fn answered_port_is_read_back(answer: Seq<u8>, port: u16)
    requires
        answer.len() == 70,
        answer.subrange(4, 6) == be16(port),
    ensures
        answered_port(answer) == port,
{
    assert(answer[4] == answer.subrange(4, 6)[0]);
    assert(answer[5] == answer.subrange(4, 6)[1]);
}

/// Once a voice server has named the audio source, the address and the port, nothing is waited
/// for any more.
pub proof fn audio_starts_at_once_when_ready(info: AudioInfo)
    requires
        info.ssrc is Some,
        info.address is Some,
        info.port is Some,
    ensures
        audio_next(AudioStage::Starting, AudioEvent::Started, info) == (
            AudioStage::Done,
            AudioMove::Start,
        ),
{
}

/// How many stages lie behind.
pub open spec fn audio_rank(stage: AudioStage) -> nat {
    match stage {
        AudioStage::Starting => 0,
        AudioStage::AwaitingSsrc => 1,
        AudioStage::AwaitingAddress => 2,
        AudioStage::AwaitingPort => 3,
        AudioStage::Done => 4,
    }
}

/// The start of the audio never goes back a stage, and it is over exactly when it starts.
pub proof fn audio_start_never_goes_back(stage: AudioStage, event: AudioEvent, info: AudioInfo)
    ensures
        audio_rank(stage) <= audio_rank(audio_next(stage, event, info).0),
        stage != AudioStage::Done ==> (audio_next(stage, event, info).1 == AudioMove::Start
            <==> audio_next(stage, event, info).0 == AudioStage::Done),
{
}

/// What a voice server names in one message is where the search for the bot's own address asks,
/// and where audio packets go.
pub proof fn ready_server_is_asked(
    tree: JsonTree,
    identify: Identify,
    ssrc: u64,
    address: Seq<char>,
    port: u16,
)
    requires
        tree.get("op"@) == JsonTree::UInt(2),
        tree.get("d"@).get("data"@).get("ssrc"@) == JsonTree::UInt(ssrc),
        tree.get("d"@).get("data"@).get("address"@) == JsonTree::Str(address),
        tree.get("d"@).get("data"@).get("port"@) == JsonTree::UInt(port as u64),
    ensures
        voice_actions(tree, identify) == seq![
            VoiceActionModel::PublishSsrc(ssrc),
            VoiceActionModel::PublishAddress(address),
            VoiceActionModel::PublishPort(port),
            VoiceActionModel::Discover { address, port },
        ],
{
    assert(low_u16(port as u64) == port);
    assert(voice_actions(tree, identify) =~= seq![
        VoiceActionModel::PublishSsrc(ssrc),
        VoiceActionModel::PublishAddress(address),
        VoiceActionModel::PublishPort(port),
        VoiceActionModel::Discover { address, port },
    ]);
}

/// A target reads back as its parts: the address, a colon, and digits that denote the port. So
/// targets with one address and two ports differ.
pub proof fn target_reads_back(address: Seq<char>, port: u16, other: u16)
    ensures
        ({
            let target = socket_text(address, port);
            let digits = target.skip(address.len() as int + 1);
            &&& target.len() > address.len() + 1
            &&& target.take(address.len() as int) == address
            &&& target[address.len() as int] == ':'
            &&& decimal_value(digits) == port
            &&& forall|i: int| 0 <= i < digits.len() ==> 48 <= #[trigger] digits[i] as int <= 57
            &&& port > 0 ==> digits[0] != '0'
        }),
        port != other ==> socket_text(address, port) != socket_text(address, other),
{
    reveal_strlit(":");
    notation_is_exact(port as nat);
    notation_is_exact(other as nat);
    let target = socket_text(address, port);
    assert(target.take(address.len() as int) =~= address);
    assert(target.skip(address.len() as int + 1) =~= decimal(port as nat));
    assert(socket_text(address, other).skip(address.len() as int + 1) =~= decimal(other as nat));
}

/// An internet address is four numbers with dots between them, and each of them is its byte.
pub proof fn address_reads_back(a: u8, b: u8, c: u8, d: u8)
    ensures
        exists|x: Seq<char>, y: Seq<char>, z: Seq<char>, w: Seq<char>|
            dotted(a, b, c, d) == #[trigger] (x + seq!['.'] + y + seq!['.'] + z + seq!['.'] + w)
                && decimal_value(x) == a && decimal_value(y) == b && decimal_value(z) == c
                && decimal_value(w) == d && !x.contains('.') && !y.contains('.') && !z.contains('.')
                && !w.contains('.') && (a > 0 ==> x[0] != '0') && (b > 0 ==> y[0] != '0') && (c > 0
                ==> z[0] != '0') && (d > 0 ==> w[0] != '0') && x.len() > 0 && y.len() > 0 && z.len()
                > 0 && w.len() > 0,
{
    reveal_strlit(".");
    notation_is_exact(a as nat);
    notation_is_exact(b as nat);
    notation_is_exact(c as nat);
    notation_is_exact(d as nat);
    let x = decimal(a as nat);
    let y = decimal(b as nat);
    let z = decimal(c as nat);
    let w = decimal(d as nat);
    assert("."@ =~= seq!['.']);
    assert(dotted(a, b, c, d) =~= x + seq!['.'] + y + seq!['.'] + z + seq!['.'] + w);
}

/// An answer tells its first four bytes as the address and the two behind them, the higher one
/// first, as the port.
pub proof fn answer_tells_its_bytes(answer: Seq<u8>)
    requires
        answer.len() == 70,
    ensures
        answered_address(answer) == dotted(answer[0], answer[1], answer[2], answer[3]),
        answered_port(answer) == 256 * answer[4] + answer[5],
{
}

/// The question for the bot's own address is the audio source in four bytes, the highest one first,
/// and 66 zeros.
pub proof fn question_names_the_source(ssrc: u32)
    ensures
        discovery_bytes(ssrc).len() == 70,
        0x100_0000 * discovery_bytes(ssrc)[0] + 0x1_0000 * discovery_bytes(ssrc)[1] + 0x100
            * discovery_bytes(ssrc)[2] + discovery_bytes(ssrc)[3] == ssrc,
        forall|i: int| 4 <= i < 70 ==> #[trigger] discovery_bytes(ssrc)[i] == 0,
{
    bytes_read_as_number(0, ssrc);
    assert(discovery_bytes(ssrc)[0] == be32(ssrc)[0] && discovery_bytes(ssrc)[1] == be32(ssrc)[1]);
    assert(discovery_bytes(ssrc)[2] == be32(ssrc)[2] && discovery_bytes(ssrc)[3] == be32(ssrc)[3]);
}

/// Numbers that fit are kept as they are, and larger ones lose whole multiples of what fits.
pub proof fn numbers_that_fit_are_kept(number: u64)
    ensures
        number < 0x1_0000 ==> low_u16(number) == number,
        number < 0x1_0000_0000 ==> low_u32(number) == number,
        (number - low_u16(number)) % 0x1_0000 == 0,
        (number - low_u32(number)) % 0x1_0000_0000 == 0,
{
}

/// The address of a voice server is the one that was built or, failing that, the scheme, the host
/// and the version.
pub proof fn server_address_is_built_or_pieced(built: Seq<char>, host: Seq<char>)
    ensures
        server_url(Some(built), host) == built,
        server_url(None, host) == "wss://"@ + host + "?v=4"@,
        versioned(host) == "wss://"@ + host + "?v=4"@,
{
}

/// Milliseconds are whole: the span holds so many of them, and not one more.
pub proof fn milliseconds_are_whole(seconds: u64, nanoseconds: u32)
    ensures
        1_000_000 * millis(seconds, nanoseconds) <= 1_000_000_000 * seconds + nanoseconds,
        1_000_000_000 * seconds + nanoseconds < 1_000_000 * (millis(seconds, nanoseconds) + 1),
{
}

/// A key has a byte for each item: the number where it is one of a byte, less whole multiples of 256
/// where it is larger, and zero where the item is no number.
pub proof fn key_has_a_byte_for_each_item(items: Seq<JsonTree>, i: int, number: u64)
    requires
        0 <= i < items.len(),
    ensures
        key_bytes(items).len() == items.len(),
        items[i] == JsonTree::UInt(number) && number < 256 ==> key_bytes(items)[i] == number,
        items[i] == JsonTree::UInt(number) ==> (number - key_bytes(items)[i]) % 256 == 0,
        !(items[i] is UInt) ==> key_bytes(items)[i] == 0,
{
}

/// What a voice server that is ready makes known: each of the audio source, the address and the port
/// that it names, and then where the bot asks for its own address.
pub proof fn ready_server_is_published_whole(
    tree: JsonTree,
    identify: Identify,
    ssrc: Option<u64>,
    address: Option<Seq<char>>,
    port: Option<u64>,
)
    requires
        tree.get("op"@) == JsonTree::UInt(2),
        tree.get("d"@).get("data"@).get("ssrc"@).as_u64() == ssrc,
        tree.get("d"@).get("data"@).get("address"@).as_str() == address,
        tree.get("d"@).get("data"@).get("port"@).as_u64() == port,
    ensures
        ({
            let actions = voice_actions(tree, identify);
            let a = if ssrc is Some { 1int } else { 0int };
            let b = if address is Some { a + 1 } else { a };
            let c = if port is Some { b + 1 } else { b };
            &&& actions.len() == c + 1
            &&& ssrc is Some ==> actions[0] == VoiceActionModel::PublishSsrc(ssrc->0)
            &&& address is Some ==> actions[a] == VoiceActionModel::PublishAddress(address->0)
            &&& port is Some ==> (actions[b] matches VoiceActionModel::PublishPort(p) && (port->0
                - p) % 0x1_0000 == 0)
            &&& actions[c] matches VoiceActionModel::Discover { address: asked, port: at } && (
            address is Some ==> asked == address->0) && (address is None ==> asked.len() == 0) && (
            port is Some ==> (port->0 - at) % 0x1_0000 == 0) && (port is None ==> at == 0)
        }),
{
}

/// A description of a session starts the audio with its key, one byte for each of 32 items; keys of
/// another length, or none, start nothing.
pub proof fn session_starts_audio_with_its_key(tree: JsonTree, identify: Identify)
    requires
        tree.get("op"@) == JsonTree::UInt(4),
    ensures
        ({
            let key = tree.get("d"@).get("data"@).get("secret_key"@);
            let actions = voice_actions(tree, identify);
            &&& !(key is Array) ==> actions.len() == 0
            &&& key matches JsonTree::Array(items) ==> {
                &&& items.len() != 32 ==> actions.len() == 0
                &&& items.len() == 32 ==> actions.len() == 1 && (
                actions[0] matches VoiceActionModel::StartAudio(bytes) && bytes.len() == 32
                    && forall|i: int|
                    0 <= i < 32 ==> (items[i] is UInt ==> (items[i]->UInt_0
                        - #[trigger] bytes[i]) % 256 == 0) && (!(items[i] is UInt) ==> bytes[i]
                        == 0))
            }
        }),
{
    let key = tree.get("d"@).get("data"@).get("secret_key"@);
    if let JsonTree::Array(items) = key {
        assert forall|i: int| 0 <= i < items.len() implies (items[i] is UInt ==> (items[i]->UInt_0
            - #[trigger] key_bytes(items)[i]) % 256 == 0) && (!(items[i] is UInt) ==> key_bytes(
            items,
        )[i] == 0) by {
            key_has_a_byte_for_each_item(items, i, items[i]->UInt_0);
        }
    }
}

/// A greeting of a voice server is answered by an introduction with the bot's own data, and heartbeats
/// follow at the interval that it names, or at 45 seconds. Other frames lead to nothing.
pub proof fn voice_greeting_is_answered(tree: JsonTree, identify: Identify)
    ensures
        ({
            let actions = voice_actions(tree, identify);
            let interval = tree.get("d"@).get("heartbeat_interval"@);
            let said = voice_identify_tree(identify);
            &&& tree.get("op"@) == JsonTree::UInt(8) ==> actions.len() == 1 && (
            actions[0] matches VoiceActionModel::Greet { identify: text, heartbeat_interval }
                && text == json_rendered(said) && (interval is UInt ==> heartbeat_interval
                == interval->UInt_0) && (!(interval is UInt) ==> heartbeat_interval == 45000))
            &&& said.get("d"@).get("server_id"@) == JsonTree::Str(identify.server_id@)
            &&& said.get("d"@).get("session_id"@) == JsonTree::Str(identify.session_id@)
            &&& said.get("d"@).get("user_id"@) == JsonTree::Str(identify.user_id@)
            &&& said.get("d"@).get("token"@) == JsonTree::Str(identify.token@)
            &&& tree.get("op"@) != JsonTree::UInt(8) && tree.get("op"@) != JsonTree::UInt(4)
                && tree.get("op"@) != JsonTree::UInt(2) ==> actions.len() == 0
        }),
{
    voice_introduction_reads_as(identify);
}

/// The actions are seen as they are, and a list of them one by one.
pub proof fn voice_actions_are_seen_whole(
    ssrc: u64,
    port: u16,
    text: String,
    key: [u8; 32],
    actions: Seq<VoiceAction>,
)
    ensures
        VoiceAction::PublishSsrc(ssrc)@ == VoiceActionModel::PublishSsrc(ssrc),
        VoiceAction::PublishAddress(text)@ == VoiceActionModel::PublishAddress(text@),
        VoiceAction::PublishPort(port)@ == VoiceActionModel::PublishPort(port),
        (VoiceAction::Discover { address: text, port })@ == (VoiceActionModel::Discover {
            address: text@,
            port,
        }),
        VoiceAction::StartAudio(key)@ == VoiceActionModel::StartAudio(key@),
        (VoiceAction::Greet { identify: text, heartbeat_interval: ssrc })@ == (
        VoiceActionModel::Greet { identify: text@, heartbeat_interval: ssrc }),
        voice_models(actions).len() == actions.len(),
        forall|i: int| 0 <= i < actions.len() ==> #[trigger] voice_models(actions)[i]
            == actions[i]@,
{
}

/// The audio waits for the first thing that is missing: the source, the address, the port. What was
/// waited for once is not waited for again.
pub proof fn audio_waits_for_what_is_missing(info: AudioInfo)
    ensures
        info.ssrc is None ==> audio_next(AudioStage::Starting, AudioEvent::Started, info) == (
            AudioStage::AwaitingSsrc,
            AudioMove::WaitForSsrc,
        ),
        info.ssrc is Some && info.address is None ==> audio_next(
            AudioStage::Starting,
            AudioEvent::Started,
            info,
        ) == (AudioStage::AwaitingAddress, AudioMove::WaitForAddress),
        info.ssrc is Some && info.address is Some && info.port is None ==> audio_next(
            AudioStage::Starting,
            AudioEvent::Started,
            info,
        ) == (AudioStage::AwaitingPort, AudioMove::WaitForPort),
        info.address is None ==> audio_next(AudioStage::AwaitingSsrc, AudioEvent::SsrcChanged, info)
            == (AudioStage::AwaitingAddress, AudioMove::WaitForAddress),
        info.address is Some && info.port is None ==> audio_next(
            AudioStage::AwaitingSsrc,
            AudioEvent::SsrcChanged,
            info,
        ) == (AudioStage::AwaitingPort, AudioMove::WaitForPort),
        info.address is Some && info.port is Some ==> audio_next(
            AudioStage::AwaitingSsrc,
            AudioEvent::SsrcChanged,
            info,
        ) == (AudioStage::Done, AudioMove::Start),
        info.port is None ==> audio_next(
            AudioStage::AwaitingAddress,
            AudioEvent::AddressChanged,
            info,
        ) == (AudioStage::AwaitingPort, AudioMove::WaitForPort),
        info.port is Some ==> audio_next(
            AudioStage::AwaitingAddress,
            AudioEvent::AddressChanged,
            info,
        ) == (AudioStage::Done, AudioMove::Start),
        audio_next(AudioStage::AwaitingPort, AudioEvent::PortChanged, info) == (
            AudioStage::Done,
            AudioMove::Start,
        ),
{
}

} // verus!
