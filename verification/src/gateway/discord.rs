//! The connection to the gateway: what is sent, what is read, and when either ends.

use rand::Rng;
use vstd::prelude::*;

use crate::gateway::payloads::{
    bot_properties, heartbeat_text, identify_text, resume_text, Hello,
};
#[allow(unused_imports)]
use crate::gateway::payloads::{
    bot_identify_tree, envelope, envelope_members, heartbeat_reads_as, heartbeat_tree,
    introduction_reads_as, opt_uint_tree, resume_tree, resumption_reads_as,
};
use crate::json::Json;
#[allow(unused_imports)]
use crate::json::{json_parsed, json_rendered, JsonTree};

verus! {

/// How many messages may wait to be sent to the gateway.
pub const OUTBOUND_QUEUE: usize = 256;

/// Where the gateway is reached.
pub const GATEWAY_URL: &'static str = "wss://gateway.discord.gg/?v=10&encoding=json";

/// The events that the bot asks for: guilds, their messages, and what the messages say.
pub const INTENTS: u64 = 33281;

/// The time between two heartbeats, in milliseconds, where the greeting names none.
pub const DEFAULT_HEARTBEAT_INTERVAL: u64 = 45000;

/// Draws with `rand::Rng::random_range` from the thread's generator: any number of the range may
/// come, and no other. The range must not be empty.
#[verifier::external_body]
fn draw(start: u64, end: u64) -> (number: u64)
    requires
        start <= end,
    ensures
        start <= number <= end,
{
    rand::rng().random_range(start..=end)
}

/// A random number from `start` to `end`, both included.
pub fn get_random_number(start: u64, end: u64) -> (number: u64)
    requires
        start <= end,
    ensures
        start <= number <= end,
{
    draw(start, end)
}

/// What the sender knows of the session when a message comes up.
pub struct SenderContext {
    pub token: String,
    pub session_id: Option<String>,
    pub resume_gateway_url: Option<String>,
    pub seq: Option<u64>,
}

/// The opcode of an outbound message, where it has one.
pub open spec fn message_opcode(message: Seq<char>) -> Option<u64> {
    match json_parsed(message) {
        Some(tree) => tree.get("op"@).as_u64(),
        None => None,
    }
}

/// The opcode of an outbound message, where it has one.
pub fn read_opcode(message: &str) -> (opcode: Option<u64>)
    ensures
        opcode == message_opcode(message@),
{
    match Json::parse(message) {
        Some(json) => json.get("op").as_u64(),
        None => None,
    }
}

/// What the sender is waiting for.
pub enum SenderState {
    /// A message to send, or a new connection to send on.
    Listening,
    /// The end of forwarding a message.
    Forwarding,
    /// A connection at which to resume with this payload.
    Connecting(String),
    /// The end of sending the payload.
    Resuming,
    /// The sending half of the new connection being taken.
    HandingWrite,
    /// The receiving half of the new connection being taken.
    HandingRead,
    /// Nothing any more.
    Stopped,
}

/// What happened to the sender.
pub enum SenderEvent {
    /// This message is to be sent.
    Outbound(String),
    /// No message will come any more.
    OutboundClosed,
    /// There is a new connection to send on.
    WriteReplaced,
    /// No new connection will come any more.
    WriteUpdatesClosed,
    /// The message was forwarded, or not.
    Forwarded(bool),
    /// The connection to resume on was made, or not.
    Connected(bool),
    /// The payload was sent on it, or not.
    ResumeSent(bool),
    /// Its sending half was taken, or not.
    WriteHanded(bool),
    /// Its receiving half was taken, or not.
    ReadHanded(bool),
}

/// What the sender does next.
pub enum SenderAction {
    /// Wait for the next event.
    Wait,
    /// Drop the message, as it is no payload, and wait for the next event.
    DropInvalid,
    /// Drop the message, as there is no session to resume, and wait for the next event.
    DropWithoutSession,
    /// Send this message.
    Forward(String),
    /// Connect to this address.
    Connect(String),
    /// Send this payload on the new connection.
    SendResume(String),
    /// Pass the sending half of the new connection on.
    HandWrite,
    /// Pass the receiving half of the new connection on.
    HandRead,
    /// Send on the new connection from now on.
    UseNewWrite,
    /// End.
    Stop,
}

/// Whether the sender, on a message with this opcode, goes over to `next` and does `action`:
/// a message to resume stands for the resumption of the session, every other payload is sent.
pub open spec fn message_moves(
    message: Seq<char>,
    opcode: Option<u64>,
    context: SenderContext,
    next: SenderState,
    action: SenderAction,
) -> bool {
    match opcode {
        Some(6) => match (context.session_id, context.resume_gateway_url) {
            (Some(session_id), Some(resume_url)) => (next matches SenderState::Connecting(payload)
                && payload@ == json_rendered(
                resume_tree(context.token@, session_id@, context.seq),
            ) && json_parsed(payload@) == Some(
                resume_tree(context.token@, session_id@, context.seq),
            )) && (action matches SenderAction::Connect(url) && url@ == resume_url@),
            _ => next is Listening && action is DropWithoutSession,
        },
        Some(_) => next is Forwarding && (action matches SenderAction::Forward(m) && m@ == message),
        None => next is Listening && action is DropInvalid,
    }
}

/// Whether the sender, on `event` in `state`, goes over to `next` and does `action`.
pub open spec fn sender_moves(
    state: SenderState,
    event: SenderEvent,
    context: SenderContext,
    next: SenderState,
    action: SenderAction,
) -> bool {
    match (state, event) {
        (SenderState::Listening, SenderEvent::Outbound(message)) => message_moves(
            message@,
            message_opcode(message@),
            context,
            next,
            action,
        ),
        (SenderState::Listening, SenderEvent::OutboundClosed) => next is Stopped && action is Stop,
        (SenderState::Listening, SenderEvent::WriteReplaced) => next is Listening
            && action is UseNewWrite,
        (SenderState::Listening, SenderEvent::WriteUpdatesClosed) => next is Stopped
            && action is Stop,
        (SenderState::Forwarding, SenderEvent::Forwarded(done)) => if done {
            next is Listening && action is Wait
        } else {
            next is Stopped && action is Stop
        },
        (SenderState::Connecting(payload), SenderEvent::Connected(done)) => if done {
            next is Resuming && (action matches SenderAction::SendResume(p) && p@ == payload@)
        } else {
            next is Listening && action is Wait
        },
        (SenderState::Resuming, SenderEvent::ResumeSent(done)) => if done {
            next is HandingWrite && action is HandWrite
        } else {
            next is Listening && action is Wait
        },
        (SenderState::HandingWrite, SenderEvent::WriteHanded(done)) => if done {
            next is HandingRead && action is HandRead
        } else {
            next is Stopped && action is Stop
        },
        (SenderState::HandingRead, SenderEvent::ReadHanded(done)) => if done {
            next is Listening && action is Wait
        } else {
            next is Stopped && action is Stop
        },
        (SenderState::Stopped, _) => next is Stopped && action is Stop,
        _ => next == state && action is Wait,
    }
}

/// What a listening sender does with a message that has this opcode, and the state behind it.
pub fn sender_on_message(message: String, opcode: Option<u64>, context: &SenderContext) -> (step: (
    SenderState,
    SenderAction,
))
    ensures
        message_moves(message@, opcode, *context, step.0, step.1),
{
    match opcode {
        Some(6) => match (&context.session_id, &context.resume_gateway_url) {
            (Some(session_id), Some(url)) => {
                let payload = resume_text(
                    context.token.as_str(),
                    session_id.as_str(),
                    context.seq,
                );
                (SenderState::Connecting(payload), SenderAction::Connect(url.clone()))
            },
            _ => (SenderState::Listening, SenderAction::DropWithoutSession),
        },
        Some(_) => (SenderState::Forwarding, SenderAction::Forward(message)),
        None => (SenderState::Listening, SenderAction::DropInvalid),
    }
}

/// What the sender does on `event` in `state`, and the state behind it.
pub fn sender_step(state: SenderState, event: SenderEvent, context: &SenderContext) -> (step: (
    SenderState,
    SenderAction,
))
    ensures
        sender_moves(state, event, *context, step.0, step.1),
{
    match (state, event) {
        (SenderState::Listening, SenderEvent::Outbound(message)) => {
            let opcode = read_opcode(message.as_str());
            sender_on_message(message, opcode, context)
        },
        (SenderState::Listening, SenderEvent::OutboundClosed) => (
            SenderState::Stopped,
            SenderAction::Stop,
        ),
        (SenderState::Listening, SenderEvent::WriteReplaced) => (
            SenderState::Listening,
            SenderAction::UseNewWrite,
        ),
        (SenderState::Listening, SenderEvent::WriteUpdatesClosed) => (
            SenderState::Stopped,
            SenderAction::Stop,
        ),
        (SenderState::Forwarding, SenderEvent::Forwarded(done)) => if done {
            (SenderState::Listening, SenderAction::Wait)
        } else {
            (SenderState::Stopped, SenderAction::Stop)
        },
        (SenderState::Connecting(payload), SenderEvent::Connected(done)) => if done {
            (SenderState::Resuming, SenderAction::SendResume(payload))
        } else {
            (SenderState::Listening, SenderAction::Wait)
        },
        (SenderState::Resuming, SenderEvent::ResumeSent(done)) => if done {
            (SenderState::HandingWrite, SenderAction::HandWrite)
        } else {
            (SenderState::Listening, SenderAction::Wait)
        },
        (SenderState::HandingWrite, SenderEvent::WriteHanded(done)) => if done {
            (SenderState::HandingRead, SenderAction::HandRead)
        } else {
            (SenderState::Stopped, SenderAction::Stop)
        },
        (SenderState::HandingRead, SenderEvent::ReadHanded(done)) => if done {
            (SenderState::Listening, SenderAction::Wait)
        } else {
            (SenderState::Stopped, SenderAction::Stop)
        },
        (SenderState::Stopped, _) => (SenderState::Stopped, SenderAction::Stop),
        (state, _) => (state, SenderAction::Wait),
    }
}

/// What a payload that the library writes comes to at the sender: its opcode is read back, so it
/// is sent as it is unless it asks for a resumption.
pub proof fn written_payload_is_routed_by_opcode(message: Seq<char>, op: u64, data: JsonTree)
    requires
        json_parsed(message) == Some(envelope(op, data)),
    ensures
        message_opcode(message) == Some(op),
{
    envelope_members(op, data);
}

/// A stopped sender stays stopped, and a resumption that fails does not stop a sender.
pub proof fn sender_survives_failed_resumption(
    state: SenderState,
    event: SenderEvent,
    context: SenderContext,
    next: SenderState,
    action: SenderAction,
)
    requires
        sender_moves(state, event, context, next, action),
    ensures
        state is Stopped ==> next is Stopped,
        next is Stopped <==> action is Stop,
        (state is Connecting && event == SenderEvent::Connected(false)) ==> next is Listening,
        (state is Resuming && event == SenderEvent::ResumeSent(false)) ==> next is Listening,
        (next is Stopped && !(state is Stopped)) ==> {
            ||| state is Listening && event is OutboundClosed
            ||| state is Listening && event is WriteUpdatesClosed
            ||| state is Forwarding && event == SenderEvent::Forwarded(false)
            ||| state is HandingWrite && event == SenderEvent::WriteHanded(false)
            ||| state is HandingRead && event == SenderEvent::ReadHanded(false)
        },
{
}

/// What a frame from the gateway says.
pub enum Frame {
    /// The gateway greets, and names the time between heartbeats.
    Hello(Hello),
    /// The gateway has seen a heartbeat.
    HeartbeatAck,
    /// The gateway wants a heartbeat at once.
    HeartbeatRequest,
    /// Something happened; the event may have a sequence number.
    Dispatch(Option<u64>),
    /// The gateway asks to reconnect.
    Reconnect,
    /// A frame with an opcode that means nothing here.
    Unhandled(u64),
    /// A frame without an opcode.
    Unmarked,
}

/// What the frame `tree` says.
pub open spec fn frame_of(tree: JsonTree) -> Frame {
    match tree.get("op"@).as_u64() {
        Some(10) => Frame::Hello(
            Hello {
                heartbeat_interval: match tree.get("d"@).get("heartbeat_interval"@).as_u64() {
                    Some(interval) => interval,
                    None => DEFAULT_HEARTBEAT_INTERVAL,
                },
            },
        ),
        Some(11) => Frame::HeartbeatAck,
        Some(1) => Frame::HeartbeatRequest,
        Some(0) => Frame::Dispatch(tree.get("s"@).as_u64()),
        Some(7) => Frame::Reconnect,
        Some(op) => Frame::Unhandled(op),
        None => Frame::Unmarked,
    }
}

/// What the frame `json` says.
pub fn classify_frame(json: &Json) -> (frame: Frame)
    ensures
        frame == frame_of(json@),
{
    match json.get("op").as_u64() {
        Some(10) => {
            let heartbeat_interval = match json.get("d").get("heartbeat_interval").as_u64() {
                Some(interval) => interval,
                None => DEFAULT_HEARTBEAT_INTERVAL,
            };
            Frame::Hello(Hello { heartbeat_interval })
        },
        Some(11) => Frame::HeartbeatAck,
        Some(1) => Frame::HeartbeatRequest,
        Some(0) => Frame::Dispatch(json.get("s").as_u64()),
        Some(7) => Frame::Reconnect,
        Some(op) => Frame::Unhandled(op),
        None => Frame::Unmarked,
    }
}

/// What the reader is waiting for.
pub enum ReaderPhase {
    /// A frame, or a new connection to read from.
    Reading,
    /// A heartbeat being queued.
    QueueingHeartbeat,
    /// An event being passed on.
    PassingEvent,
    /// Nothing any more.
    Stopped,
}

/// What happened to the reader.
pub enum ReaderEvent {
    /// This text arrived.
    Text(String),
    /// Something else than text arrived.
    NonText,
    /// Reading failed.
    ReadFailed,
    /// The connection ended.
    StreamEnded,
    /// There is a new connection to read from.
    ReadReplaced,
    /// No new connection will come any more.
    ReadUpdatesClosed,
    /// The heartbeat was queued, or not.
    HeartbeatQueued(bool),
    /// The event was passed on, or not.
    EventPassed(bool),
}

/// What the reader does next.
pub enum ReaderAction {
    /// Wait for the next event.
    Wait,
    /// Send this introduction, and a heartbeat after each interval of so many milliseconds.
    Greet { identify: String, heartbeat_interval: u64 },
    /// Queue this heartbeat.
    QueueHeartbeat(String),
    /// Pass this event on.
    PassEvent(Json),
    /// Read from the new connection from now on.
    UseNewRead,
    /// End.
    Stop,
}

/// The reader of the gateway: the last sequence number that it saw, and what it waits for.
pub struct GatewayReader {
    pub seq: Option<u64>,
    pub phase: ReaderPhase,
}

/// The last sequence number behind the frame `tree`.
pub open spec fn seq_behind(seq: Option<u64>, tree: JsonTree) -> Option<u64> {
    match frame_of(tree) {
        Frame::Dispatch(Some(number)) => Some(number),
        _ => seq,
    }
}

/// Whether `before`, on the frame `tree`, becomes `reader` and does `action`.
pub open spec fn frame_moves(
    before: GatewayReader,
    tree: JsonTree,
    token: Seq<char>,
    reader: GatewayReader,
    action: ReaderAction,
) -> bool {
    &&& reader.seq == seq_behind(before.seq, tree)
    &&& match frame_of(tree) {
        Frame::Hello(hello) => reader.phase is Reading && (action matches ReaderAction::Greet {
            identify,
            heartbeat_interval,
        } && identify@ == json_rendered(bot_identify_tree(token, INTENTS)) && json_parsed(identify@)
            == Some(bot_identify_tree(token, INTENTS)) && heartbeat_interval
            == hello.heartbeat_interval),
        Frame::HeartbeatRequest => reader.phase is QueueingHeartbeat && (
        action matches ReaderAction::QueueHeartbeat(text) && text@ == json_rendered(
            heartbeat_tree(before.seq),
        ) && json_parsed(text@) == Some(heartbeat_tree(before.seq))),
        Frame::Dispatch(_) => reader.phase is PassingEvent && (
        action matches ReaderAction::PassEvent(event) && event@ == tree),
        _ => reader.phase is Reading && action is Wait,
    }
}

/// Whether `before`, on `event`, becomes `reader` and does `action`.
pub open spec fn reader_moves(
    before: GatewayReader,
    event: ReaderEvent,
    token: Seq<char>,
    reader: GatewayReader,
    action: ReaderAction,
) -> bool {
    match (before.phase, event) {
        (ReaderPhase::Reading, ReaderEvent::Text(text)) => match json_parsed(text@) {
            Some(tree) => frame_moves(before, tree, token, reader, action),
            None => reader == before && action is Wait,
        },
        (ReaderPhase::Reading, ReaderEvent::ReadFailed) => reader.seq == before.seq
            && reader.phase is Stopped && action is Stop,
        (ReaderPhase::Reading, ReaderEvent::StreamEnded) => reader.seq == before.seq
            && reader.phase is Stopped && action is Stop,
        (ReaderPhase::Reading, ReaderEvent::ReadReplaced) => reader == before
            && action is UseNewRead,
        (ReaderPhase::Reading, ReaderEvent::ReadUpdatesClosed) => reader.seq == before.seq
            && reader.phase is Stopped && action is Stop,
        (ReaderPhase::QueueingHeartbeat, ReaderEvent::HeartbeatQueued(done)) => reader.seq
            == before.seq && if done {
            reader.phase is Reading && action is Wait
        } else {
            reader.phase is Stopped && action is Stop
        },
        (ReaderPhase::PassingEvent, ReaderEvent::EventPassed(done)) => reader.seq == before.seq
            && if done {
            reader.phase is Reading && action is Wait
        } else {
            reader.phase is Stopped && action is Stop
        },
        (ReaderPhase::Stopped, _) => reader == before && action is Stop,
        _ => reader == before && action is Wait,
    }
}

impl GatewayReader {
    /// A reader that has seen nothing yet.
    pub fn new() -> (reader: GatewayReader)
        ensures
            reader.seq is None,
            reader.phase is Reading,
    {
        GatewayReader { seq: None, phase: ReaderPhase::Reading }
    }

    /// What a waiting reader does on the frame `json`.
    pub fn on_frame(&mut self, json: Json, token: &str) -> (action: ReaderAction)
        requires
            old(self).phase is Reading,
        ensures
            frame_moves(*old(self), json@, token@, *final(self), action),
    {
        match classify_frame(&json) {
            Frame::Hello(hello) => {
                let ready = bot_properties(token);
                ReaderAction::Greet {
                    identify: identify_text(&ready, INTENTS),
                    heartbeat_interval: hello.heartbeat_interval,
                }
            },
            Frame::HeartbeatRequest => {
                self.phase = ReaderPhase::QueueingHeartbeat;
                ReaderAction::QueueHeartbeat(heartbeat_text(self.seq))
            },
            Frame::Dispatch(number) => {
                if let Some(n) = number {
                    self.seq = Some(n);
                }
                self.phase = ReaderPhase::PassingEvent;
                ReaderAction::PassEvent(json)
            },
            _ => ReaderAction::Wait,
        }
    }

    /// What the reader does on `event`.
    pub fn step(&mut self, event: ReaderEvent, token: &str) -> (action: ReaderAction)
        ensures
            reader_moves(*old(self), event, token@, *final(self), action),
    {
        match (&self.phase, event) {
            (ReaderPhase::Reading, ReaderEvent::Text(text)) => match Json::parse(text.as_str()) {
                Some(json) => self.on_frame(json, token),
                None => ReaderAction::Wait,
            },
            (ReaderPhase::Reading, ReaderEvent::ReadFailed) => {
                self.phase = ReaderPhase::Stopped;
                ReaderAction::Stop
            },
            (ReaderPhase::Reading, ReaderEvent::StreamEnded) => {
                self.phase = ReaderPhase::Stopped;
                ReaderAction::Stop
            },
            (ReaderPhase::Reading, ReaderEvent::ReadReplaced) => ReaderAction::UseNewRead,
            (ReaderPhase::Reading, ReaderEvent::ReadUpdatesClosed) => {
                self.phase = ReaderPhase::Stopped;
                ReaderAction::Stop
            },
            (ReaderPhase::QueueingHeartbeat, ReaderEvent::HeartbeatQueued(done)) => if done {
                self.phase = ReaderPhase::Reading;
                ReaderAction::Wait
            } else {
                self.phase = ReaderPhase::Stopped;
                ReaderAction::Stop
            },
            (ReaderPhase::PassingEvent, ReaderEvent::EventPassed(done)) => if done {
                self.phase = ReaderPhase::Reading;
                ReaderAction::Wait
            } else {
                self.phase = ReaderPhase::Stopped;
                ReaderAction::Stop
            },
            (ReaderPhase::Stopped, _) => ReaderAction::Stop,
            _ => ReaderAction::Wait,
        }
    }
}

/// A reader that stopped stays stopped, it stops exactly when it says so, and only a frame that it
/// reads changes the last sequence number.
pub proof fn reader_ends_once(
    before: GatewayReader,
    event: ReaderEvent,
    token: Seq<char>,
    reader: GatewayReader,
    action: ReaderAction,
)
    requires
        reader_moves(before, event, token, reader, action),
    ensures
        before.phase is Stopped ==> reader == before,
        reader.phase is Stopped <==> action is Stop,
        reader.seq != before.seq ==> before.phase is Reading && event is Text
            && action is PassEvent,
{
}

/// What the reader has sent is forwarded by a listening sender as it is: neither introductions nor
/// heartbeats are dropped or taken for a request to resume.
pub proof fn queued_payloads_are_forwarded(
    before: GatewayReader,
    tree: JsonTree,
    token: Seq<char>,
    reader: GatewayReader,
    action: ReaderAction,
    message: String,
    context: SenderContext,
    next: SenderState,
    sent: SenderAction,
)
    requires
        frame_moves(before, tree, token, reader, action),
        action == ReaderAction::QueueHeartbeat(message) || (action matches ReaderAction::Greet {
            identify,
            ..
        } && identify == message),
        sender_moves(
            SenderState::Listening,
            SenderEvent::Outbound(message),
            context,
            next,
            sent,
        ),
    ensures
        next is Forwarding,
        sent matches SenderAction::Forward(text) && text@ == message@,
{
    envelope_members(1, opt_uint_tree(before.seq));
    envelope_members(2, bot_identify_tree(token, INTENTS).get("d"@));
}

/// The last sequence number behind all of `frames`.
pub open spec fn seq_behind_all(seq: Option<u64>, frames: Seq<JsonTree>) -> Option<u64>
    decreases frames.len(),
{
    if frames.len() == 0 {
        seq
    } else {
        seq_behind(seq_behind_all(seq, frames.drop_last()), frames.last())
    }
}

/// Heartbeats carry the number of the last numbered event, however many frames came since.
pub proof fn last_event_number_is_kept(seq: Option<u64>, frames: Seq<JsonTree>, i: int)
    requires
        0 <= i < frames.len(),
        frame_of(frames[i]) is Dispatch,
        frame_of(frames[i])->Dispatch_0 is Some,
        forall|k: int|
            i < k < frames.len() ==> !(frame_of(#[trigger] frames[k]) matches Frame::Dispatch(
                Some(_),
            )),
    ensures
        seq_behind_all(seq, frames) == frame_of(frames[i])->Dispatch_0,
    decreases frames.len(),
{
    let shorter = frames.drop_last();
    if i < shorter.len() {
        assert(frames.last() == frames[frames.len() - 1]);
        assert forall|k: int| i < k < shorter.len() implies !(frame_of(
            #[trigger] shorter[k],
        ) matches Frame::Dispatch(Some(_))) by {
            assert(shorter[k] == frames[k]);
        }
        last_event_number_is_kept(seq, shorter, i);
    }
}

/// What is sent to the gateway on account of a frame.
pub enum GatewaySend {
    /// One heartbeat with this number.
    Heartbeat(Option<u64>),
    /// One introduction, and heartbeats after each interval of so many milliseconds.
    Greeting(u64),
}

/// One step of the reader.
pub struct ReaderStep {
    pub before: GatewayReader,
    pub event: ReaderEvent,
    pub after: GatewayReader,
    pub action: ReaderAction,
}

impl ReaderStep {
    /// The frame that is read in this step, where one is.
    pub open spec fn frame(self) -> Option<JsonTree> {
        match (self.before.phase, self.event) {
            (ReaderPhase::Reading, ReaderEvent::Text(text)) => json_parsed(text@),
            _ => None,
        }
    }

    /// What the frame asks to be sent: a request for a heartbeat asks for one with the last number,
    /// a greeting for one introduction, and nothing else asks for anything.
    pub open spec fn asked(self) -> Seq<GatewaySend> {
        match self.frame() {
            Some(tree) => match frame_of(tree) {
                Frame::HeartbeatRequest => seq![GatewaySend::Heartbeat(self.before.seq)],
                Frame::Hello(hello) => seq![GatewaySend::Greeting(hello.heartbeat_interval)],
                _ => seq![],
            },
            None => seq![],
        }
    }

    /// What the action sends, as it reads.
    pub open spec fn sent(self) -> Seq<GatewaySend> {
        match self.action {
            ReaderAction::QueueHeartbeat(text) => seq![
                GatewaySend::Heartbeat(json_parsed(text@)->0.get("d"@).as_u64()),
            ],
            ReaderAction::Greet { heartbeat_interval, .. } => seq![
                GatewaySend::Greeting(heartbeat_interval),
            ],
            _ => seq![],
        }
    }
}

/// Whether these are steps of a reader, one behind the other.
pub open spec fn is_reader_run(steps: Seq<ReaderStep>, token: Seq<char>) -> bool {
    &&& forall|i: int|
        0 <= i < steps.len() ==> reader_moves(
            (#[trigger] steps[i]).before,
            steps[i].event,
            token,
            steps[i].after,
            steps[i].action,
        )
    &&& forall|i: int, j: int|
        0 <= i && j == i + 1 && j < steps.len() ==> (#[trigger] steps[i]).after == (
        #[trigger] steps[j]).before
}

/// All that the frames of a run ask to be sent.
pub open spec fn reader_asked(steps: Seq<ReaderStep>) -> Seq<GatewaySend>
    decreases steps.len(),
{
    if steps.len() == 0 {
        seq![]
    } else {
        reader_asked(steps.drop_last()) + steps.last().asked()
    }
}

/// All that the actions of a run send.
pub open spec fn reader_sent(steps: Seq<ReaderStep>) -> Seq<GatewaySend>
    decreases steps.len(),
{
    if steps.len() == 0 {
        seq![]
    } else {
        reader_sent(steps.drop_last()) + steps.last().sent()
    }
}

/// The frames that are read in a run.
pub open spec fn frames_read(steps: Seq<ReaderStep>) -> Seq<JsonTree>
    decreases steps.len(),
{
    if steps.len() == 0 {
        seq![]
    } else {
        match steps.last().frame() {
            Some(tree) => frames_read(steps.drop_last()).push(tree),
            None => frames_read(steps.drop_last()),
        }
    }
}

/// All but the last step of a run are a run.
proof fn lemma_shorter_run(steps: Seq<ReaderStep>, token: Seq<char>)
    requires
        is_reader_run(steps, token),
        steps.len() > 0,
    ensures
        is_reader_run(steps.drop_last(), token),
{
    let shorter = steps.drop_last();
    assert forall|i: int| 0 <= i < shorter.len() implies reader_moves(
        (#[trigger] shorter[i]).before,
        shorter[i].event,
        token,
        shorter[i].after,
        shorter[i].action,
    ) by {
        assert(shorter[i] == steps[i]);
    }
    assert forall|i: int, j: int| 0 <= i && j == i + 1 && j < shorter.len() implies (
    #[trigger] shorter[i]).after == (#[trigger] shorter[j]).before by {
        assert(shorter[i] == steps[i] && shorter[j] == steps[j]);
    }
}

/// Over any run, the reader has sent what it is asked for, in order: one heartbeat with the last
/// number for each request, one introduction for each greeting, and nothing for any other frame.
pub proof fn reader_sends_what_is_asked(steps: Seq<ReaderStep>, token: Seq<char>)
    requires
        is_reader_run(steps, token),
    ensures
        reader_sent(steps) == reader_asked(steps),
        forall|i: int|
            0 <= i < steps.len() ==> ((#[trigger] steps[i]).action matches ReaderAction::Greet {
                identify,
                ..
            } ==> json_parsed(identify@) == Some(bot_identify_tree(token, INTENTS))),
        forall|i: int|
            0 <= i < steps.len() ==> ((#[trigger] steps[i]).action matches
                ReaderAction::QueueHeartbeat(text) ==> json_parsed(text@) == Some(
                heartbeat_tree(steps[i].before.seq),
            )),
    decreases steps.len(),
{
    if steps.len() > 0 {
        lemma_shorter_run(steps, token);
        reader_sends_what_is_asked(steps.drop_last(), token);
        assert(steps.last() == steps[steps.len() - 1]);
        envelope_members(1, opt_uint_tree(steps.last().before.seq));
        assert forall|i: int| 0 <= i < steps.len() - 1 implies #[trigger] steps[i]
            == steps.drop_last()[i] by {}
    }
}

/// Over any run, the last number of the reader is that of the last numbered event among the frames
/// that it read.
pub proof fn reader_keeps_number_of_frames(steps: Seq<ReaderStep>, token: Seq<char>)
    requires
        is_reader_run(steps, token),
        steps.len() > 0,
    ensures
        steps.last().after.seq == seq_behind_all(steps[0].before.seq, frames_read(steps)),
    decreases steps.len(),
{
    let shorter = steps.drop_last();
    let read = frames_read(shorter);
    let last = steps.last();
    assert(last == steps[steps.len() - 1]);
    if shorter.len() > 0 {
        lemma_shorter_run(steps, token);
        reader_keeps_number_of_frames(shorter, token);
        assert(shorter[0] == steps[0]);
        assert(shorter.last() == steps[steps.len() - 2]);
    } else {
        assert(read =~= Seq::<JsonTree>::empty());
    }
    if let Some(tree) = last.frame() {
        assert(read.push(tree).drop_last() =~= read);
        assert(read.push(tree).last() == tree);
    }
}

/// The opcode of a message is the number under "op", where it is a document with one.
pub proof fn opcode_is_read_from_document(message: Seq<char>, tree: JsonTree, op: u64)
    ensures
        json_parsed(message) == Some(tree) && tree.get("op"@) == JsonTree::UInt(op)
            ==> message_opcode(message) == Some(op),
        json_parsed(message) == Some(tree) && !(tree.get("op"@) is UInt) ==> message_opcode(message)
            is None,
        json_parsed(message) is None ==> message_opcode(message) is None,
{
}

/// A listening sender forwards every payload as it is, whatever its opcode, but for a request to
/// resume.
pub proof fn payloads_are_forwarded_unchanged(
    message: String,
    tree: JsonTree,
    op: u64,
    context: SenderContext,
    next: SenderState,
    sent: SenderAction,
)
    requires
        json_parsed(message@) == Some(tree),
        tree.get("op"@) == JsonTree::UInt(op),
        op != 6,
        sender_moves(SenderState::Listening, SenderEvent::Outbound(message), context, next, sent),
    ensures
        next is Forwarding,
        sent matches SenderAction::Forward(text) && text@ == message@,
{
}

/// What is no payload is dropped, and so is a request to resume where the session or the address is
/// not known.
pub proof fn other_messages_are_dropped(
    message: String,
    context: SenderContext,
    next: SenderState,
    sent: SenderAction,
)
    requires
        sender_moves(SenderState::Listening, SenderEvent::Outbound(message), context, next, sent),
    ensures
        json_parsed(message@) is None ==> next is Listening && sent is DropInvalid,
        json_parsed(message@) is Some && !(json_parsed(message@)->0.get("op"@) is UInt)
            ==> next is Listening && sent is DropInvalid,
        json_parsed(message@) is Some && json_parsed(message@)->0.get("op"@) == JsonTree::UInt(6)
            && (context.session_id is None || context.resume_gateway_url is None)
            ==> next is Listening && sent is DropWithoutSession,
{
}

/// A request to resume leads to the address that is known, and on the connection made there to a
/// payload that names the token, the session and the last number. Then both halves of the
/// connection are passed on, the sending half first, and the sender listens again.
pub proof fn resumption_runs_to_its_end(
    message: String,
    context: SenderContext,
    session_id: String,
    url: String,
    other: SenderContext,
    states: Seq<SenderState>,
    actions: Seq<SenderAction>,
)
    requires
        states.len() == 5,
        actions.len() == 5,
        json_parsed(message@) is Some,
        json_parsed(message@)->0.get("op"@) == JsonTree::UInt(6),
        context.session_id == Some(session_id),
        context.resume_gateway_url == Some(url),
        sender_moves(
            SenderState::Listening,
            SenderEvent::Outbound(message),
            context,
            states[0],
            actions[0],
        ),
        sender_moves(states[0], SenderEvent::Connected(true), other, states[1], actions[1]),
        sender_moves(states[1], SenderEvent::ResumeSent(true), other, states[2], actions[2]),
        sender_moves(states[2], SenderEvent::WriteHanded(true), other, states[3], actions[3]),
        sender_moves(states[3], SenderEvent::ReadHanded(true), other, states[4], actions[4]),
    ensures
        actions[0] matches SenderAction::Connect(address) && address@ == url@,
        actions[1] matches SenderAction::SendResume(payload) && json_parsed(payload@) is Some && ({
            let tree = json_parsed(payload@)->0;
            &&& tree.get("op"@) == JsonTree::UInt(6)
            &&& tree.get("d"@).get("token"@) == JsonTree::Str(context.token@)
            &&& tree.get("d"@).get("session_id"@) == JsonTree::Str(session_id@)
            &&& tree.get("d"@).get("seq"@).as_u64() == context.seq
        }),
        actions[2] is HandWrite,
        actions[3] is HandRead,
        actions[4] is Wait,
        states[4] is Listening,
{
    resumption_reads_as(context.token@, session_id@, context.seq);
}

/// What a sender does on the outcome of its work, and on news of its channels.
pub proof fn sender_follows_outcomes(
    state: SenderState,
    event: SenderEvent,
    context: SenderContext,
    next: SenderState,
    action: SenderAction,
)
    requires
        sender_moves(state, event, context, next, action),
    ensures
        state is Forwarding && event == SenderEvent::Forwarded(true) ==> next is Listening
            && action is Wait,
        state is Forwarding && event == SenderEvent::Forwarded(false) ==> next is Stopped
            && action is Stop,
        state is Connecting && event == SenderEvent::Connected(false) ==> next is Listening
            && action is Wait,
        state is Resuming && event == SenderEvent::ResumeSent(false) ==> next is Listening
            && action is Wait,
        state is HandingWrite && event == SenderEvent::WriteHanded(false) ==> next is Stopped
            && action is Stop,
        state is HandingRead && event == SenderEvent::ReadHanded(false) ==> next is Stopped
            && action is Stop,
        state is Listening && event is WriteReplaced ==> next is Listening && action is UseNewWrite,
        state is Listening && event is OutboundClosed ==> next is Stopped && action is Stop,
        state is Listening && event is WriteUpdatesClosed ==> next is Stopped && action is Stop,
{
}

/// What a frame says is told by the number under "op" and the fields that belong to it.
pub proof fn frames_are_told_by_opcode(tree: JsonTree, op: u64, number: u64)
    requires
        tree.get("op"@) is UInt ==> tree.get("op"@) == JsonTree::UInt(op),
    ensures
        !(tree.get("op"@) is UInt) ==> frame_of(tree) == Frame::Unmarked,
        tree.get("op"@) is UInt ==> {
            &&& op == 10 && tree.get("d"@).get("heartbeat_interval"@) == JsonTree::UInt(number)
                ==> frame_of(tree) == Frame::Hello(Hello { heartbeat_interval: number })
            &&& op == 10 && !(tree.get("d"@).get("heartbeat_interval"@) is UInt) ==> frame_of(tree)
                == Frame::Hello(Hello { heartbeat_interval: 45000 })
            &&& op == 11 ==> frame_of(tree) == Frame::HeartbeatAck
            &&& op == 1 ==> frame_of(tree) == Frame::HeartbeatRequest
            &&& op == 0 && tree.get("s"@) == JsonTree::UInt(number) ==> frame_of(tree)
                == Frame::Dispatch(Some(number))
            &&& op == 0 && !(tree.get("s"@) is UInt) ==> frame_of(tree) == Frame::Dispatch(None)
            &&& op == 7 ==> frame_of(tree) == Frame::Reconnect
            &&& op != 0 && op != 1 && op != 7 && op != 10 && op != 11 ==> frame_of(tree)
                == Frame::Unhandled(op)
        },
{
}

/// What a waiting reader does with the frame in a text: it introduces itself on a greeting, answers
/// a request with the last number, passes an event on whole and notes its number, and does nothing
/// on anything else.
pub proof fn reader_answers_frames(
    before: GatewayReader,
    text: String,
    token: Seq<char>,
    after: GatewayReader,
    action: ReaderAction,
)
    requires
        before.phase is Reading,
        reader_moves(before, ReaderEvent::Text(text), token, after, action),
    ensures
        json_parsed(text@) is None ==> after == before && action is Wait,
        json_parsed(text@) matches Some(tree) ==> {
            let op = tree.get("op"@);
            let interval = tree.get("d"@).get("heartbeat_interval"@);
            &&& op == JsonTree::UInt(10) ==> after.phase is Reading && after.seq == before.seq && (
            action matches ReaderAction::Greet { identify, heartbeat_interval } && (
            interval is UInt ==> heartbeat_interval == interval->UInt_0) && (!(interval is UInt)
                ==> heartbeat_interval == 45000) && (json_parsed(identify@) matches Some(said)
                && said.get("op"@) == JsonTree::UInt(2) && said.get("d"@).get("token"@)
                == JsonTree::Str(token) && said.get("d"@).get("intents"@) == JsonTree::UInt(33281)))
            &&& op == JsonTree::UInt(1) ==> after.phase is QueueingHeartbeat && after.seq
                == before.seq && (action matches ReaderAction::QueueHeartbeat(heartbeat) && (
            json_parsed(heartbeat@) matches Some(said) && said.get("op"@) == JsonTree::UInt(1)
                && said.get("d"@).as_u64() == before.seq))
            &&& op == JsonTree::UInt(0) ==> after.phase is PassingEvent && (
            action matches ReaderAction::PassEvent(event) && event@ == tree) && (tree.get("s"@)
                is UInt ==> after.seq == Some(tree.get("s"@)->UInt_0)) && (!(tree.get("s"@) is UInt)
                ==> after.seq == before.seq)
            &&& op != JsonTree::UInt(10) && op != JsonTree::UInt(1) && op != JsonTree::UInt(0)
                ==> after.phase is Reading && after.seq == before.seq && action is Wait
        },
{
    introduction_reads_as(token, "linux"@, "rust-bot"@, "rust-bot"@, INTENTS);
    heartbeat_reads_as(before.seq);
}

/// What a reader does on the outcome of its work, and on news of its connection.
pub proof fn reader_follows_outcomes(
    before: GatewayReader,
    event: ReaderEvent,
    token: Seq<char>,
    after: GatewayReader,
    action: ReaderAction,
)
    requires
        reader_moves(before, event, token, after, action),
    ensures
        !(event is Text) ==> after.seq == before.seq,
        before.phase is Reading && event is NonText ==> after.phase is Reading && action is Wait,
        before.phase is Reading && event is ReadFailed ==> after.phase is Stopped && action is Stop,
        before.phase is Reading && event is StreamEnded ==> after.phase is Stopped
            && action is Stop,
        before.phase is Reading && event is ReadReplaced ==> after.phase is Reading
            && action is UseNewRead,
        before.phase is Reading && event is ReadUpdatesClosed ==> after.phase is Stopped
            && action is Stop,
        before.phase is QueueingHeartbeat && event == ReaderEvent::HeartbeatQueued(true)
            ==> after.phase is Reading && action is Wait,
        before.phase is QueueingHeartbeat && event == ReaderEvent::HeartbeatQueued(false)
            ==> after.phase is Stopped && action is Stop,
        before.phase is PassingEvent && event == ReaderEvent::EventPassed(true) ==> after.phase
            is Reading && action is Wait,
        before.phase is PassingEvent && event == ReaderEvent::EventPassed(false) ==> after.phase
            is Stopped && action is Stop,
{
}

} // verus!
