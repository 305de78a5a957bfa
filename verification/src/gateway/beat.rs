//! Beats: what is sent again and again, once for each interval.

use vstd::prelude::*;

use crate::gateway::payloads::heartbeat_text;
#[allow(unused_imports)]
use crate::gateway::payloads::{
    envelope_members, heartbeat_reads_as, heartbeat_tree, signs_read_as, speaking_tree,
    voice_heartbeat_tree,
};
use crate::gateway::voice::{heartbeat_at, speaking_sign, SPEAKING_INTERVAL};
#[allow(unused_imports)]
use crate::json::{json_parsed, json_rendered, JsonTree};

verus! {

/// A beat: the time between two of its messages, in milliseconds, and whether one that finds the
/// queue full is skipped.
#[derive(Clone, Copy, PartialEq, Eq, Structural)]
pub struct Beat {
    pub interval: u64,
    pub skips: bool,
}

/// What is known when an interval is over, by what the beat carries.
#[derive(Clone, Copy, PartialEq, Eq, Structural)]
pub enum Pulse {
    /// The last sequence number of the gateway.
    Gateway(Option<u64>),
    /// The clock of a voice connection, in milliseconds, where it can be read.
    Voice(Option<u128>),
    /// Nothing: a plain connection keeps no number.
    Plain,
    /// The audio source, where it is known.
    Speaking(Option<u64>),
}

/// What happened to a beat.
#[derive(Clone, Copy, PartialEq, Eq, Structural)]
pub enum BeatEvent {
    /// The beat begins.
    Started,
    /// An interval is over.
    Woken(Pulse),
    /// The message was queued, or not.
    Queued(bool),
}

/// What a beat does next.
pub enum BeatStep {
    /// Sleep for so many milliseconds.
    Sleep(u64),
    /// Queue this message, and wait until there is room.
    Queue(String),
    /// Queue this message if there is room, and do not wait.
    Offer(String),
    /// End.
    Stop,
}

/// The message that a step queues.
pub open spec fn beat_text(step: BeatStep) -> Option<Seq<char>> {
    match step {
        BeatStep::Queue(text) => Some(text@),
        BeatStep::Offer(text) => Some(text@),
        _ => None,
    }
}

/// The payload that is due when an interval is over.
pub open spec fn pulse_tree(pulse: Pulse) -> Option<JsonTree> {
    match pulse {
        Pulse::Gateway(seq) => Some(heartbeat_tree(seq)),
        Pulse::Voice(millis) => if millis is Some && millis->0 <= u64::MAX {
            Some(voice_heartbeat_tree(millis->0 as u64))
        } else {
            None
        },
        Pulse::Plain => Some(heartbeat_tree(None)),
        Pulse::Speaking(ssrc) => match ssrc {
            Some(source) => Some(speaking_tree(source)),
            None => None,
        },
    }
}

impl Beat {
    /// Whether the beat does `step` behind `event`. It begins by sleeping. A payload that is due is
    /// queued; without a source to speak for, the beat sleeps on, and without a clock it ends.
    /// Behind a message it sleeps again, unless the message was lost and is not to be skipped.
    pub open spec fn moves(self, event: BeatEvent, step: BeatStep) -> bool {
        match event {
            BeatEvent::Started => step == BeatStep::Sleep(self.interval),
            BeatEvent::Woken(pulse) => match pulse_tree(pulse) {
                Some(tree) => beat_text(step) == Some(json_rendered(tree)) && json_parsed(
                    json_rendered(tree),
                ) == Some(tree) && (step is Offer <==> self.skips),
                None => if pulse is Speaking {
                    step == BeatStep::Sleep(self.interval)
                } else {
                    step is Stop
                },
            },
            BeatEvent::Queued(done) => if done || self.skips {
                step == BeatStep::Sleep(self.interval)
            } else {
                step is Stop
            },
        }
    }

    /// What the beat does behind `event`.
    pub fn step(&self, event: BeatEvent) -> (step: BeatStep)
        ensures
            self.moves(event, step),
    {
        match event {
            BeatEvent::Started => BeatStep::Sleep(self.interval),
            BeatEvent::Woken(pulse) => {
                let due = match pulse {
                    Pulse::Gateway(seq) => Some(heartbeat_text(seq)),
                    Pulse::Voice(millis) => heartbeat_at(millis),
                    Pulse::Plain => Some(heartbeat_text(None)),
                    Pulse::Speaking(ssrc) => speaking_sign(ssrc),
                };
                match (due, pulse) {
                    (Some(text), _) => if self.skips {
                        BeatStep::Offer(text)
                    } else {
                        BeatStep::Queue(text)
                    },
                    (None, Pulse::Speaking(_)) => BeatStep::Sleep(self.interval),
                    (None, _) => BeatStep::Stop,
                }
            },
            BeatEvent::Queued(done) => if done || self.skips {
                BeatStep::Sleep(self.interval)
            } else {
                BeatStep::Stop
            },
        }
    }
}

/// The heartbeat of the gateway: one that finds the queue full is skipped.
pub fn gateway_beat(interval: u64) -> (beat: Beat)
    ensures
        beat == (Beat { interval, skips: true }),
{
    Beat { interval, skips: true }
}

/// The heartbeat of a voice connection or of a plain one: it ends with the queue.
pub fn connection_beat(interval: u64) -> (beat: Beat)
    ensures
        beat == (Beat { interval, skips: false }),
{
    Beat { interval, skips: false }
}

/// The sign that the bot is speaking: it ends with the queue.
pub fn speaking_beat() -> (beat: Beat)
    ensures
        beat == (Beat { interval: SPEAKING_INTERVAL, skips: false }),
{
    Beat { interval: SPEAKING_INTERVAL, skips: false }
}

/// Whether the event is one that a step leads to.
pub open spec fn beat_leads_to(step: BeatStep, event: BeatEvent) -> bool {
    match step {
        BeatStep::Sleep(_) => event is Woken,
        BeatStep::Queue(_) => event is Queued,
        BeatStep::Offer(_) => event is Queued,
        BeatStep::Stop => false,
    }
}

/// Whether these are the events and the steps of the beat, from its beginning on.
pub open spec fn is_beat_run(beat: Beat, events: Seq<BeatEvent>, steps: Seq<BeatStep>) -> bool {
    &&& events.len() == steps.len()
    &&& events.len() > 0 ==> events[0] == BeatEvent::Started
    &&& forall|i: int|
        0 <= i < steps.len() ==> #[trigger] beat.moves(events[i], steps[i])
    &&& forall|i: int, j: int|
        0 <= i && j == i + 1 && j < steps.len() ==> #[trigger] beat_leads_to(steps[i], events[j])
}

/// What stands before and behind each message of a beat, and what the message says.
pub open spec fn is_timely(beat: Beat, events: Seq<BeatEvent>, steps: Seq<BeatStep>, i: int) -> bool {
    &&& i > 0
    &&& steps[i - 1] == BeatStep::Sleep(beat.interval)
    &&& events[i] matches BeatEvent::Woken(pulse)
    &&& pulse_tree(pulse) is Some
    &&& json_parsed(beat_text(steps[i])->0) == pulse_tree(pulse)
    &&& i + 1 < steps.len() ==> {
        ||| steps[i + 1] == BeatStep::Sleep(beat.interval)
        ||| !beat.skips && steps[i + 1] is Stop && events[i + 1] == BeatEvent::Queued(false)
    }
}

/// A beat begins by sleeping for its interval, and so before each of its messages. The message
/// carries what was known when the interval was over. Behind it the beat sleeps again, but that a
/// lost message ends a beat that does not skip.
pub proof fn beats_follow_every_interval(
    beat: Beat,
    events: Seq<BeatEvent>,
    steps: Seq<BeatStep>,
    i: int,
)
    requires
        is_beat_run(beat, events, steps),
        0 <= i < steps.len(),
    ensures
        steps[0] == BeatStep::Sleep(beat.interval),
        steps[i] is Sleep ==> steps[i] == BeatStep::Sleep(beat.interval),
        beat_text(steps[i]) is Some ==> is_timely(beat, events, steps, i),
        beat_text(steps[i]) is None && i + 1 < steps.len() ==> steps[i] is Sleep,
{
    assert(beat.moves(events[0], steps[0]));
    assert(beat.moves(events[i], steps[i]));
    if i > 0 {
        assert(beat.moves(events[i - 1], steps[i - 1]));
        assert(beat_leads_to(steps[i - 1], events[i]));
    }
    if i + 1 < steps.len() {
        assert(beat.moves(events[i + 1], steps[i + 1]));
        assert(beat_leads_to(steps[i], events[i + 1]));
    }
}

/// Between two messages of a beat lies an interval.
pub proof fn interval_lies_between_beats(
    beat: Beat,
    events: Seq<BeatEvent>,
    steps: Seq<BeatStep>,
    i: int,
    j: int,
)
    requires
        is_beat_run(beat, events, steps),
        0 <= i < j < steps.len(),
        beat_text(steps[i]) is Some,
        beat_text(steps[j]) is Some,
    ensures
        i < j - 1,
        steps[j - 1] == BeatStep::Sleep(beat.interval),
{
    beats_follow_every_interval(beat, events, steps, j);
}

/// The heartbeat of the gateway never ends, however often the queue is full: behind each interval
/// there is a message, and behind each message an interval.
pub proof fn gateway_beat_goes_on(
    interval: u64,
    events: Seq<BeatEvent>,
    steps: Seq<BeatStep>,
    i: int,
)
    requires
        is_beat_run((Beat { interval, skips: true }), events, steps),
        forall|k: int|
            0 <= k < events.len() ==> ((#[trigger] events[k]) matches BeatEvent::Woken(pulse)
                ==> pulse is Gateway),
        0 <= i < steps.len(),
    ensures
        !(steps[i] is Stop),
        i % 2 == 0 ==> steps[i] == BeatStep::Sleep(interval),
        i % 2 == 1 ==> (events[i] matches BeatEvent::Woken(Pulse::Gateway(seq)) && (
        steps[i] matches BeatStep::Offer(text) && json_parsed(text@) == Some(heartbeat_tree(seq)))),
    decreases i,
{
    let beat = Beat { interval, skips: true };
    assert(beat.moves(events[i], steps[i]));
    if i > 0 {
        gateway_beat_goes_on(interval, events, steps, i - 1);
        assert(beat_leads_to(steps[i - 1], events[i]));
    }
}

/// The heartbeats of a voice connection carry the clock: while it does not go back, neither do
/// they.
pub proof fn voice_beats_follow_the_clock(
    beat: Beat,
    events: Seq<BeatEvent>,
    steps: Seq<BeatStep>,
    i: int,
    j: int,
    earlier: u64,
    later: u64,
)
    requires
        is_beat_run(beat, events, steps),
        0 <= i < j < steps.len(),
        events[i] == BeatEvent::Woken(Pulse::Voice(Some(earlier as u128))),
        events[j] == BeatEvent::Woken(Pulse::Voice(Some(later as u128))),
        earlier <= later,
    ensures
        beat_text(steps[i]) matches Some(a) && beat_text(steps[j]) matches Some(b) && json_parsed(
            a,
        ) == Some(voice_heartbeat_tree(earlier)) && json_parsed(b) == Some(
            voice_heartbeat_tree(later),
        ) && voice_heartbeat_tree(earlier).get("d"@).as_u64()->0 <= voice_heartbeat_tree(
            later,
        ).get("d"@).as_u64()->0,
{
    assert(beat.moves(events[i], steps[i]));
    assert(beat.moves(events[j], steps[j]));
    envelope_members(3, JsonTree::UInt(earlier));
    envelope_members(3, JsonTree::UInt(later));
}

/// What a beat does on each event: it sleeps for its interval first; when that is over it queues what
/// was known then; behind a message it sleeps again, or ends where the message was lost and is not
/// skipped.
pub proof fn beat_follows_its_events(
    beat: Beat,
    event: BeatEvent,
    step: BeatStep,
    number: Option<u64>,
    clock: u64,
    source: u64,
    done: bool,
)
    requires
        beat.moves(event, step),
    ensures
        event == BeatEvent::Started ==> step == BeatStep::Sleep(beat.interval),
        event == BeatEvent::Woken(Pulse::Gateway(number)) ==> (beat_text(step) matches Some(text)
            && json_parsed(text) matches Some(said) && said.get("op"@) == JsonTree::UInt(1)
            && said.get("d"@).as_u64() == number),
        event == BeatEvent::Woken(Pulse::Plain) ==> (beat_text(step) matches Some(text)
            && json_parsed(text) matches Some(said) && said.get("op"@) == JsonTree::UInt(1)
            && said.get("d"@) == JsonTree::Null),
        event == BeatEvent::Woken(Pulse::Voice(Some(clock as u128))) ==> (
        beat_text(step) matches Some(text) && json_parsed(text) matches Some(said) && said.get("op"@)
            == JsonTree::UInt(3) && said.get("d"@) == JsonTree::UInt(clock)),
        event == BeatEvent::Woken(Pulse::Speaking(Some(source))) ==> (
        beat_text(step) matches Some(text) && json_parsed(text) matches Some(said) && said.get("op"@)
            == JsonTree::UInt(5) && said.get("d"@).get("ssrc"@) == JsonTree::UInt(source)),
        event == BeatEvent::Woken(Pulse::Speaking(None)) ==> step == BeatStep::Sleep(beat.interval),
        event == BeatEvent::Woken(Pulse::Voice(None)) ==> step is Stop,
        event == BeatEvent::Queued(true) ==> step == BeatStep::Sleep(beat.interval),
        event == BeatEvent::Queued(false) && beat.skips ==> step == BeatStep::Sleep(beat.interval),
        event == BeatEvent::Queued(false) && !beat.skips ==> step is Stop,
        beat.skips ==> !(step is Queue),
        !beat.skips ==> !(step is Offer),
        beat_text(step) is Some ==> event is Woken,
{
    heartbeat_reads_as(number);
    heartbeat_reads_as(None);
    signs_read_as(source, clock, Seq::empty());
}

/// The message of a step is the one that is queued or offered, whole.
pub proof fn queued_message_is_seen_whole(text: String, interval: u64)
    ensures
        beat_text(BeatStep::Queue(text)) == Some(text@),
        beat_text(BeatStep::Offer(text)) == Some(text@),
        beat_text(BeatStep::Sleep(interval)) is None,
        beat_text(BeatStep::Stop) is None,
{
}

} // verus!
