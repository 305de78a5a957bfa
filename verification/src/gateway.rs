//! The gateway protocol. The modules hold the bot; here stands a plain connection that only greets,
//! keeps alive and passes events on.

use vstd::prelude::*;

use crate::gateway::discord::{ReaderEvent, ReaderPhase};
#[allow(unused_imports)]
use crate::gateway::payloads::{
    bot_identify_tree, heartbeat_reads_as, heartbeat_tree, voice_state_tree,
};
use crate::gateway::payloads::{bot_properties, heartbeat_text, identify_text, voice_state_text};
use crate::json::Json;
#[allow(unused_imports)]
use crate::json::{json_parsed, json_rendered, JsonTree};

pub mod beat;
pub mod broadcast;
pub mod discord;
pub mod events;
pub mod https;
pub mod payloads;
pub mod playback;
pub mod voice;
pub mod youtube;

verus! {

/// The events that a plain connection asks for: guilds and their messages.
pub const PLAIN_INTENTS: u64 = 513;

/// The guild in which a plain connection answers voice states.
pub const PLAIN_GUILD: &'static str = "41771983423143937";

/// The introduction on a plain connection.
pub fn plain_identify(token: &str) -> (text: String)
    ensures
        text@ == json_rendered(bot_identify_tree(token@, PLAIN_INTENTS)),
        json_parsed(text@) == Some(bot_identify_tree(token@, PLAIN_INTENTS)),
{
    let ready = bot_properties(token);
    identify_text(&ready, PLAIN_INTENTS)
}

/// The heartbeat on a plain connection, which keeps no sequence number.
pub fn plain_heartbeat() -> (text: String)
    ensures
        text@ == json_rendered(heartbeat_tree(None)),
        json_parsed(text@) == Some(heartbeat_tree(None)),
{
    heartbeat_text(None)
}

/// What the reader of a plain connection does next.
pub enum PlainAction {
    /// Wait for the next event.
    Wait,
    /// Introduce the bot, and send a heartbeat after each interval of so many milliseconds.
    Greet { heartbeat_interval: u64 },
    /// Nothing can be done: the greeting names no interval.
    Unusable,
    /// Queue a heartbeat.
    QueueHeartbeat(String),
    /// Pass this event on.
    PassEvent(Json),
    /// End.
    Stop,
}

/// Whether the reader of a plain connection, on the frame `tree`, goes over to `phase` and does
/// `action`.
pub open spec fn plain_frame_moves(
    tree: JsonTree,
    phase: ReaderPhase,
    action: PlainAction,
) -> bool {
    match tree.get("op"@).as_u64() {
        Some(10) => match tree.get("d"@).get("heartbeat_interval"@).as_u64() {
            Some(interval) => phase is Reading && action == (PlainAction::Greet {
                heartbeat_interval: interval,
            }),
            None => phase is Stopped && action is Unusable,
        },
        Some(1) => phase is QueueingHeartbeat && (action matches PlainAction::QueueHeartbeat(text)
            && text@ == json_rendered(heartbeat_tree(None)) && json_parsed(text@) == Some(
            heartbeat_tree(None),
        )),
        Some(0) => phase is PassingEvent && (action matches PlainAction::PassEvent(event) && event@
            == tree),
        _ => phase is Reading && action is Wait,
    }
}

/// What a waiting reader does on the frame `json`, and the phase behind it.
pub fn on_plain_frame(json: Json) -> (step: (ReaderPhase, PlainAction))
    ensures
        plain_frame_moves(json@, step.0, step.1),
{
    match json.get("op").as_u64() {
        Some(10) => match json.get("d").get("heartbeat_interval").as_u64() {
            Some(interval) => (
                ReaderPhase::Reading,
                PlainAction::Greet { heartbeat_interval: interval },
            ),
            None => (ReaderPhase::Stopped, PlainAction::Unusable),
        },
        Some(1) => (
            ReaderPhase::QueueingHeartbeat,
            PlainAction::QueueHeartbeat(plain_heartbeat()),
        ),
        Some(0) => (ReaderPhase::PassingEvent, PlainAction::PassEvent(json)),
        _ => (ReaderPhase::Reading, PlainAction::Wait),
    }
}

/// Whether the reader of a plain connection, on `event` in `before`, goes over to `phase` and does
/// `action`.
pub open spec fn plain_reader_moves(
    before: ReaderPhase,
    event: ReaderEvent,
    phase: ReaderPhase,
    action: PlainAction,
) -> bool {
    match (before, event) {
        (ReaderPhase::Reading, ReaderEvent::Text(text)) => match json_parsed(text@) {
            Some(tree) => plain_frame_moves(tree, phase, action),
            None => phase is Reading && action is Wait,
        },
        (ReaderPhase::Reading, ReaderEvent::ReadFailed) => phase is Stopped && action is Stop,
        (ReaderPhase::Reading, ReaderEvent::StreamEnded) => phase is Stopped && action is Stop,
        (ReaderPhase::QueueingHeartbeat, ReaderEvent::HeartbeatQueued(done)) => if done {
            phase is Reading && action is Wait
        } else {
            phase is Stopped && action is Stop
        },
        (ReaderPhase::PassingEvent, ReaderEvent::EventPassed(done)) => if done {
            phase is Reading && action is Wait
        } else {
            phase is Stopped && action is Stop
        },
        (ReaderPhase::Stopped, _) => phase is Stopped && action is Stop,
        _ => phase == before && action is Wait,
    }
}

/// What the reader of a plain connection does on `event` in `phase`, and the phase behind it.
pub fn plain_reader_step(phase: ReaderPhase, event: ReaderEvent) -> (step: (
    ReaderPhase,
    PlainAction,
))
    ensures
        plain_reader_moves(phase, event, step.0, step.1),
{
    match (phase, event) {
        (ReaderPhase::Reading, ReaderEvent::Text(text)) => match Json::parse(text.as_str()) {
            Some(json) => on_plain_frame(json),
            None => (ReaderPhase::Reading, PlainAction::Wait),
        },
        (ReaderPhase::Reading, ReaderEvent::ReadFailed) => (
            ReaderPhase::Stopped,
            PlainAction::Stop,
        ),
        (ReaderPhase::Reading, ReaderEvent::StreamEnded) => (
            ReaderPhase::Stopped,
            PlainAction::Stop,
        ),
        (ReaderPhase::QueueingHeartbeat, ReaderEvent::HeartbeatQueued(done)) => if done {
            (ReaderPhase::Reading, PlainAction::Wait)
        } else {
            (ReaderPhase::Stopped, PlainAction::Stop)
        },
        (ReaderPhase::PassingEvent, ReaderEvent::EventPassed(done)) => if done {
            (ReaderPhase::Reading, PlainAction::Wait)
        } else {
            (ReaderPhase::Stopped, PlainAction::Stop)
        },
        (ReaderPhase::Stopped, _) => (ReaderPhase::Stopped, PlainAction::Stop),
        (phase, _) => (phase, PlainAction::Wait),
    }
}

/// The answer to the event `json` on a plain connection: a voice state is answered by one that
/// names no channel, everything else by nothing.
pub fn on_plain_event(json: &Json) -> (answer: Option<String>)
    ensures
        answer is Some == (json@.get("op"@).as_u64() == Some(4u64)),
        answer matches Some(text) ==> text@ == json_rendered(
            voice_state_tree(PLAIN_GUILD@, Some(""@)),
        ) && json_parsed(text@) == Some(voice_state_tree(PLAIN_GUILD@, Some(""@))),
{
    match json.get("op").as_u64() {
        Some(4) => Some(voice_state_text(PLAIN_GUILD, Some(""))),
        _ => None,
    }
}

/// The reader of a plain connection passes only events on that are then answered by nothing.
pub proof fn passed_events_are_not_answered(tree: JsonTree, phase: ReaderPhase, event: Json)
    requires
        plain_frame_moves(tree, phase, PlainAction::PassEvent(event)),
    ensures
        event@.get("op"@).as_u64() != Some(4u64),
{
}

/// What a plain connection sends on account of a frame.
pub enum PlainSend {
    /// One heartbeat.
    Heartbeat,
    /// One introduction, and heartbeats after each interval of so many milliseconds.
    Greeting(u64),
}

/// What an event asks to be sent, where the reader is in `phase`: a request for a heartbeat asks
/// for one heartbeat, a greeting with an interval for one introduction, and nothing else asks for
/// anything.
pub open spec fn plain_asked(phase: ReaderPhase, event: ReaderEvent) -> Seq<PlainSend> {
    match (phase, event) {
        (ReaderPhase::Reading, ReaderEvent::Text(text)) => match json_parsed(text@) {
            Some(tree) => match tree.get("op"@).as_u64() {
                Some(1) => seq![PlainSend::Heartbeat],
                Some(10) => match tree.get("d"@).get("heartbeat_interval"@).as_u64() {
                    Some(interval) => seq![PlainSend::Greeting(interval)],
                    None => seq![],
                },
                _ => seq![],
            },
            None => seq![],
        },
        _ => seq![],
    }
}

/// What an action sends.
pub open spec fn plain_sent(action: PlainAction) -> Seq<PlainSend> {
    match action {
        PlainAction::QueueHeartbeat(_) => seq![PlainSend::Heartbeat],
        PlainAction::Greet { heartbeat_interval } => seq![PlainSend::Greeting(heartbeat_interval)],
        _ => seq![],
    }
}

/// One step of the reader of a plain connection.
pub struct PlainStep {
    pub before: ReaderPhase,
    pub event: ReaderEvent,
    pub after: ReaderPhase,
    pub action: PlainAction,
}

/// Whether these are steps of a reader, one behind the other.
pub open spec fn is_plain_run(steps: Seq<PlainStep>) -> bool {
    &&& forall|i: int|
        0 <= i < steps.len() ==> plain_reader_moves(
            (#[trigger] steps[i]).before,
            steps[i].event,
            steps[i].after,
            steps[i].action,
        )
    &&& forall|i: int, j: int|
        0 <= i && j == i + 1 && j < steps.len() ==> (#[trigger] steps[i]).after == (
        #[trigger] steps[j]).before
}

/// All that the events of a run ask to be sent.
pub open spec fn all_asked(steps: Seq<PlainStep>) -> Seq<PlainSend>
    decreases steps.len(),
{
    if steps.len() == 0 {
        seq![]
    } else {
        all_asked(steps.drop_last()) + plain_asked(steps.last().before, steps.last().event)
    }
}

/// All that the actions of a run send.
pub open spec fn all_sent(steps: Seq<PlainStep>) -> Seq<PlainSend>
    decreases steps.len(),
{
    if steps.len() == 0 {
        seq![]
    } else {
        all_sent(steps.drop_last()) + plain_sent(steps.last().action)
    }
}

/// Over any run, a plain connection sends what it is asked for, in order: one heartbeat for each
/// request, one introduction for each greeting with an interval, and nothing for any other frame.
/// Its heartbeats carry no number.
pub proof fn plain_connection_sends_what_is_asked(steps: Seq<PlainStep>)
    requires
        is_plain_run(steps),
    ensures
        all_sent(steps) == all_asked(steps),
        forall|i: int|
            0 <= i < steps.len() ==> ((#[trigger] steps[i]).action matches
                PlainAction::QueueHeartbeat(text) ==> json_parsed(text@) == Some(
                heartbeat_tree(None),
            )),
    decreases steps.len(),
{
    if steps.len() > 0 {
        let earlier = steps.drop_last();
        assert forall|i: int| 0 <= i < earlier.len() implies plain_reader_moves(
            (#[trigger] earlier[i]).before,
            earlier[i].event,
            earlier[i].after,
            earlier[i].action,
        ) by {
            assert(earlier[i] == steps[i]);
        }
        assert forall|i: int, j: int| 0 <= i && j == i + 1 && j < earlier.len() implies (
        #[trigger] earlier[i]).after == (#[trigger] earlier[j]).before by {
            assert(earlier[i] == steps[i] && earlier[j] == steps[j]);
        }
        plain_connection_sends_what_is_asked(earlier);
        assert(steps.last() == steps[steps.len() - 1]);
    }
}

/// What the reader of a plain connection does with the frame in a text: it greets back at the
/// interval that is named, answers a request with an empty heartbeat, passes an event on whole, and
/// does nothing on anything else.
pub proof fn plain_reader_answers_frames(text: String, phase: ReaderPhase, action: PlainAction)
    requires
        plain_reader_moves(ReaderPhase::Reading, ReaderEvent::Text(text), phase, action),
    ensures
        json_parsed(text@) is None ==> phase is Reading && action is Wait,
        json_parsed(text@) matches Some(tree) ==> {
            let op = tree.get("op"@);
            let interval = tree.get("d"@).get("heartbeat_interval"@);
            &&& op == JsonTree::UInt(10) && interval is UInt ==> phase is Reading && action == (
            PlainAction::Greet { heartbeat_interval: interval->UInt_0 })
            &&& op == JsonTree::UInt(10) && !(interval is UInt) ==> phase is Stopped
                && action is Unusable
            &&& op == JsonTree::UInt(1) ==> phase is QueueingHeartbeat && (
            action matches PlainAction::QueueHeartbeat(heartbeat) && (
            json_parsed(heartbeat@) matches Some(said) && said.get("op"@) == JsonTree::UInt(1)
                && said.get("d"@) == JsonTree::Null))
            &&& op == JsonTree::UInt(0) ==> phase is PassingEvent && (
            action matches PlainAction::PassEvent(event) && event@ == tree)
            &&& op != JsonTree::UInt(10) && op != JsonTree::UInt(1) && op != JsonTree::UInt(0)
                ==> phase is Reading && action is Wait
        },
{
    heartbeat_reads_as(None);
}

/// What the reader of a plain connection does on the outcome of its work, and at the end of the
/// connection.
pub proof fn plain_reader_follows_outcomes(
    before: ReaderPhase,
    event: ReaderEvent,
    phase: ReaderPhase,
    action: PlainAction,
)
    requires
        plain_reader_moves(before, event, phase, action),
    ensures
        before is Reading && event is NonText ==> phase is Reading && action is Wait,
        before is Reading && event is ReadFailed ==> phase is Stopped && action is Stop,
        before is Reading && event is StreamEnded ==> phase is Stopped && action is Stop,
        before is QueueingHeartbeat && event == ReaderEvent::HeartbeatQueued(true) ==> phase
            is Reading && action is Wait,
        before is QueueingHeartbeat && event == ReaderEvent::HeartbeatQueued(false) ==> phase
            is Stopped && action is Stop,
        before is PassingEvent && event == ReaderEvent::EventPassed(true) ==> phase is Reading
            && action is Wait,
        before is PassingEvent && event == ReaderEvent::EventPassed(false) ==> phase is Stopped
            && action is Stop,
        before is Stopped ==> phase is Stopped && action is Stop,
{
}

} // verus!
