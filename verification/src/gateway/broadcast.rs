//! Sending audio: the sign that the bot is speaking goes out first.

use vstd::prelude::*;

use crate::gateway::beat::{speaking_beat, Beat};
#[allow(unused_imports)]
use crate::gateway::payloads::speaking_tree;
#[allow(unused_imports)]
use crate::gateway::voice::SPEAKING_INTERVAL;
use crate::gateway::voice::{AudioTarget, AUDIO_DELAY};
#[allow(unused_imports)]
use crate::json::json_parsed;

verus! {

/// What happened to a broadcast.
pub enum BroadcastEvent {
    /// The packets are being made.
    Started,
    /// The sign was queued, or not.
    Announced(bool),
    /// The sign is being repeated.
    SpeakingKept,
    /// The pause is over.
    Paused,
    /// There is this packet, or no more.
    Packet(Option<Vec<u8>>),
    /// The packet was sent, or not.
    Sent(bool),
}

/// What a broadcast does next.
pub enum BroadcastStep {
    /// Queue this sign that the bot is speaking.
    Announce(String),
    /// Have the sign repeated by this beat, and go on at once.
    KeepSpeaking(Beat),
    /// Pause for so many milliseconds.
    Pause(u64),
    /// Take the next packet.
    Take,
    /// Send this packet.
    Send(Vec<u8>),
    /// End.
    Stop,
}

/// Whether a broadcast to `audio` does `step` behind `event`.
pub open spec fn broadcast_moves(
    audio: AudioTarget,
    event: BroadcastEvent,
    step: BroadcastStep,
) -> bool {
    match event {
        BroadcastEvent::Started => step matches BroadcastStep::Announce(sign) && sign@
            == audio.speaking@,
        BroadcastEvent::Announced(_) => step == BroadcastStep::KeepSpeaking(
            Beat { interval: SPEAKING_INTERVAL, skips: false },
        ),
        BroadcastEvent::SpeakingKept => step == BroadcastStep::Pause(AUDIO_DELAY),
        BroadcastEvent::Paused => step is Take,
        BroadcastEvent::Packet(packet) => match packet {
            Some(bytes) => step == BroadcastStep::Send(bytes),
            None => step is Stop,
        },
        BroadcastEvent::Sent(done) => if done {
            step is Take
        } else {
            step is Stop
        },
    }
}

/// What a broadcast to `audio` does behind `event`.
pub fn broadcast_step(audio: &AudioTarget, event: BroadcastEvent) -> (step: BroadcastStep)
    ensures
        broadcast_moves(*audio, event, step),
{
    match event {
        BroadcastEvent::Started => BroadcastStep::Announce(audio.speaking.clone()),
        BroadcastEvent::Announced(_) => BroadcastStep::KeepSpeaking(speaking_beat()),
        BroadcastEvent::SpeakingKept => BroadcastStep::Pause(AUDIO_DELAY),
        BroadcastEvent::Paused => BroadcastStep::Take,
        BroadcastEvent::Packet(packet) => match packet {
            Some(bytes) => BroadcastStep::Send(bytes),
            None => BroadcastStep::Stop,
        },
        BroadcastEvent::Sent(done) => if done {
            BroadcastStep::Take
        } else {
            BroadcastStep::Stop
        },
    }
}

/// Whether the event is one that a step leads to.
pub open spec fn broadcast_leads_to(step: BroadcastStep, event: BroadcastEvent) -> bool {
    match step {
        BroadcastStep::Announce(_) => event is Announced,
        BroadcastStep::KeepSpeaking(_) => event is SpeakingKept,
        BroadcastStep::Pause(_) => event is Paused,
        BroadcastStep::Take => event is Packet,
        BroadcastStep::Send(_) => event is Sent,
        BroadcastStep::Stop => false,
    }
}

/// Whether these are the events and the steps of a broadcast, from its beginning on.
pub open spec fn is_broadcast_run(
    audio: AudioTarget,
    events: Seq<BroadcastEvent>,
    steps: Seq<BroadcastStep>,
) -> bool {
    &&& events.len() == steps.len()
    &&& events.len() > 0 ==> events[0] is Started
    &&& forall|i: int|
        0 <= i < steps.len() ==> #[trigger] broadcast_moves(audio, events[i], steps[i])
    &&& forall|i: int, j: int|
        0 <= i && j == i + 1 && j < steps.len() ==> #[trigger] broadcast_leads_to(
            steps[i],
            events[j],
        )
}

/// What each step of a broadcast is.
proof fn lemma_broadcast_order(
    audio: AudioTarget,
    events: Seq<BroadcastEvent>,
    steps: Seq<BroadcastStep>,
    i: int,
)
    requires
        is_broadcast_run(audio, events, steps),
        0 <= i < steps.len(),
    ensures
        i == 0 ==> (steps[i] matches BroadcastStep::Announce(sign) && sign@ == audio.speaking@),
        i == 1 ==> steps[i] == BroadcastStep::KeepSpeaking(
            Beat { interval: SPEAKING_INTERVAL, skips: false },
        ),
        i == 2 ==> steps[i] == BroadcastStep::Pause(AUDIO_DELAY),
        i == 3 ==> steps[i] is Take,
        i > 3 ==> steps[i] is Take || steps[i] is Send || steps[i] is Stop,
    decreases i,
{
    assert(broadcast_moves(audio, events[i], steps[i]));
    if i > 0 {
        lemma_broadcast_order(audio, events, steps, i - 1);
        assert(broadcast_leads_to(steps[i - 1], events[i]));
    }
}

/// Before the first packet of a broadcast the sign that the bot is speaking is queued, its
/// repetition begins, and the pause is over. Each packet is sent as it was taken.
pub proof fn sign_precedes_audio(
    audio: AudioTarget,
    events: Seq<BroadcastEvent>,
    steps: Seq<BroadcastStep>,
    i: int,
)
    requires
        is_broadcast_run(audio, events, steps),
        json_parsed(audio.speaking@) == Some(speaking_tree(audio.ssrc as u64)),
        0 <= i < steps.len(),
        steps[i] is Send,
    ensures
        i > 3,
        steps[0] matches BroadcastStep::Announce(sign) && json_parsed(sign@) == Some(
            speaking_tree(audio.ssrc as u64),
        ),
        steps[1] == BroadcastStep::KeepSpeaking(
            Beat { interval: SPEAKING_INTERVAL, skips: false },
        ),
        steps[2] == BroadcastStep::Pause(AUDIO_DELAY),
        steps[i] matches BroadcastStep::Send(packet) && events[i] == BroadcastEvent::Packet(
            Some(packet),
        ),
{
    lemma_broadcast_order(audio, events, steps, i);
    lemma_broadcast_order(audio, events, steps, 0);
    lemma_broadcast_order(audio, events, steps, 1);
    lemma_broadcast_order(audio, events, steps, 2);
    assert(broadcast_moves(audio, events[i], steps[i]));
}

/// What a broadcast does on each event: the sign of its target, the repetition every five seconds,
/// the pause of a tenth of a second, then packet after packet as they come, until there is none or
/// one is lost.
pub proof fn broadcast_follows_its_events(
    audio: AudioTarget,
    event: BroadcastEvent,
    step: BroadcastStep,
    packet: Vec<u8>,
    done: bool,
)
    requires
        broadcast_moves(audio, event, step),
    ensures
        event is Started ==> (step matches BroadcastStep::Announce(sign) && sign@
            == audio.speaking@),
        event == BroadcastEvent::Announced(done) ==> (step matches BroadcastStep::KeepSpeaking(beat)
            && beat.interval == 5000 && !beat.skips),
        event is SpeakingKept ==> step == BroadcastStep::Pause(100),
        event is Paused ==> step is Take,
        event == BroadcastEvent::Packet(Some(packet)) ==> step == BroadcastStep::Send(packet),
        event == BroadcastEvent::Packet(None) ==> step is Stop,
        event == BroadcastEvent::Sent(true) ==> step is Take,
        event == BroadcastEvent::Sent(false) ==> step is Stop,
{
}

} // verus!
