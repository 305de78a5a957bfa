use leo_bot::gateway::beat::{
    connection_beat, gateway_beat, speaking_beat, Beat, BeatEvent, BeatStep, Pulse,
};
use leo_bot::gateway::payloads::{heartbeat_text, speaking_text, voice_heartbeat_text};

fn slept(beat: Beat, event: BeatEvent) -> u64 {
    match beat.step(event) {
        BeatStep::Sleep(interval) => interval,
        _ => panic!("no sleep"),
    }
}

#[test]
fn beats_begin_by_sleeping() {
    assert_eq!(slept(gateway_beat(7), BeatEvent::Started), 7);
    assert_eq!(slept(connection_beat(8), BeatEvent::Started), 8);
    assert_eq!(slept(speaking_beat(), BeatEvent::Started), 5000);
}

#[test]
fn gateway_beat_skips_where_the_queue_is_full() {
    let beat = gateway_beat(41250);
    for seq in [None, Some(5)] {
        match beat.step(BeatEvent::Woken(Pulse::Gateway(seq))) {
            BeatStep::Offer(text) => assert_eq!(text, heartbeat_text(seq)),
            _ => panic!("no heartbeat"),
        }
    }
    assert_eq!(slept(beat, BeatEvent::Queued(true)), 41250);
    assert_eq!(slept(beat, BeatEvent::Queued(false)), 41250);
}

#[test]
fn voice_beat_carries_the_clock_and_ends_with_the_queue() {
    let beat = connection_beat(9);
    match beat.step(BeatEvent::Woken(Pulse::Voice(Some(77)))) {
        BeatStep::Queue(text) => assert_eq!(text, voice_heartbeat_text(77)),
        _ => panic!("no heartbeat"),
    }
    assert_eq!(slept(beat, BeatEvent::Queued(true)), 9);
    assert!(matches!(beat.step(BeatEvent::Queued(false)), BeatStep::Stop));
    assert!(matches!(beat.step(BeatEvent::Woken(Pulse::Voice(None))), BeatStep::Stop));
}

#[test]
fn plain_beat_carries_nothing() {
    match connection_beat(9).step(BeatEvent::Woken(Pulse::Plain)) {
        BeatStep::Queue(text) => assert_eq!(text, heartbeat_text(None)),
        _ => panic!("no heartbeat"),
    }
}

#[test]
fn speaking_beat_waits_for_a_source() {
    let beat = speaking_beat();
    assert_eq!(slept(beat, BeatEvent::Woken(Pulse::Speaking(None))), 5000);
    match beat.step(BeatEvent::Woken(Pulse::Speaking(Some(3)))) {
        BeatStep::Queue(text) => assert_eq!(text, speaking_text(3)),
        _ => panic!("no sign"),
    }
    assert!(matches!(beat.step(BeatEvent::Queued(false)), BeatStep::Stop));
}

#[test]
fn an_interval_lies_between_two_beats() {
    let beat = gateway_beat(3);
    let mut event = BeatEvent::Started;
    let mut log = String::new();
    for number in 0..6 {
        event = match beat.step(event) {
            BeatStep::Sleep(_) => {
                log.push('s');
                BeatEvent::Woken(Pulse::Gateway(Some(number)))
            }
            BeatStep::Offer(_) => {
                log.push('b');
                BeatEvent::Queued(number % 4 == 1)
            }
            _ => panic!("the beat ended"),
        };
    }
    assert_eq!(log, "sbsbsb");
}
