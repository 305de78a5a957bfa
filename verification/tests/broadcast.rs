use leo_bot::gateway::beat::speaking_beat;
use leo_bot::gateway::broadcast::{broadcast_step, BroadcastEvent, BroadcastStep};
use leo_bot::gateway::payloads::speaking_text;
use leo_bot::gateway::voice::{audio_target, AudioInfo, AudioTarget};

fn audio() -> AudioTarget {
    let info = AudioInfo {
        ssrc: Some(3),
        address: Some(String::from("1.2.3.4")),
        port: Some(5),
    };
    match audio_target(&info) {
        Ok(audio) => audio,
        Err(_) => panic!("no target"),
    }
}

#[test]
fn sign_and_pause_come_before_the_first_packet() {
    let audio = audio();
    assert!(matches!(
        broadcast_step(&audio, BroadcastEvent::Started),
        BroadcastStep::Announce(sign) if sign == speaking_text(3)
    ));
    for queued in [true, false] {
        assert!(matches!(
            broadcast_step(&audio, BroadcastEvent::Announced(queued)),
            BroadcastStep::KeepSpeaking(beat) if beat == speaking_beat()
        ));
    }
    assert!(matches!(
        broadcast_step(&audio, BroadcastEvent::SpeakingKept),
        BroadcastStep::Pause(100)
    ));
    assert!(matches!(broadcast_step(&audio, BroadcastEvent::Paused), BroadcastStep::Take));
}

#[test]
fn packets_are_sent_until_one_fails_or_none_is_left() {
    let audio = audio();
    assert!(matches!(
        broadcast_step(&audio, BroadcastEvent::Packet(Some(vec![1, 2]))),
        BroadcastStep::Send(packet) if packet == vec![1, 2]
    ));
    assert!(matches!(broadcast_step(&audio, BroadcastEvent::Sent(true)), BroadcastStep::Take));
    assert!(matches!(broadcast_step(&audio, BroadcastEvent::Sent(false)), BroadcastStep::Stop));
    assert!(matches!(broadcast_step(&audio, BroadcastEvent::Packet(None)), BroadcastStep::Stop));
}
