use leo_bot::gateway::youtube::{
    after_read, construct_encrypted_packet, ffmpeg_arguments, make_rtp_header, open_packet,
    pcm_samples, ytdlp_arguments, AudioStep, PacketStream, ENCODED_LIMIT, FRAME_BYTES,
    FRAME_SAMPLES,
};
use xsalsa20poly1305::aead::Aead;
use xsalsa20poly1305::{Key, KeyInit, Nonce, XSalsa20Poly1305};

fn opened(key: &[u8; 32], packet: &[u8]) -> Vec<u8> {
    let mut nonce = [0u8; 24];
    nonce[..12].copy_from_slice(&packet[..12]);
    XSalsa20Poly1305::new(Key::from_slice(key))
        .decrypt(Nonce::from_slice(&nonce), &packet[12..])
        .expect("a sealed message")
}

#[test]
fn header_bytes() {
    assert_eq!(
        make_rtp_header(0x0102, 0x03040506, 0x0708090a),
        [0x80, 0x78, 1, 2, 3, 4, 5, 6, 7, 8, 9, 10]
    );
    assert_eq!(
        make_rtp_header(u16::MAX, u32::MAX, 0),
        [0x80, 0x78, 255, 255, 255, 255, 255, 255, 0, 0, 0, 0]
    );
}

#[test]
fn samples_are_little_endian_and_signed() {
    assert_eq!(
        pcm_samples(&[0x34, 0x12, 0xff, 0xff, 0x00, 0x80, 0xff, 0x7f]),
        vec![0x1234, -1, i16::MIN, i16::MAX]
    );
    assert_eq!(pcm_samples(&[1, 0, 9]), vec![1]);
    assert_eq!(pcm_samples(&[]), Vec::<i16>::new());
}

#[test]
fn frames_have_two_bytes_a_sample() {
    assert_eq!(FRAME_BYTES, 2 * FRAME_SAMPLES);
    assert_eq!(pcm_samples(&[0u8; FRAME_BYTES]).len(), FRAME_SAMPLES);
}

#[test]
fn packets_open_under_their_header() {
    let key = [7u8; 32];
    let header = make_rtp_header(3, 960, 5);
    let packet = construct_encrypted_packet(&key, b"opus", header).expect("a packet");
    assert_eq!(packet.len(), 4 + 28);
    assert_eq!(packet[..12], header);
    assert_ne!(packet[28..], *b"opus");
    assert_eq!(opened(&key, &packet), b"opus");
}

#[test]
fn empty_frames_can_be_sealed() {
    let key = [1u8; 32];
    let packet = construct_encrypted_packet(&key, b"", make_rtp_header(0, 0, 0)).expect("a packet");
    assert_eq!(packet.len(), 28);
    assert_eq!(opened(&key, &packet), b"");
}

#[test]
fn other_keys_and_headers_give_other_packets() {
    let header = make_rtp_header(0, 0, 1);
    let first = construct_encrypted_packet(&[1u8; 32], b"opus", header);
    let second = construct_encrypted_packet(&[2u8; 32], b"opus", header);
    let third = construct_encrypted_packet(&[1u8; 32], b"opus", make_rtp_header(1, 0, 1));
    assert_ne!(first, second);
    assert_ne!(first.expect("a packet")[12..], third.expect("a packet")[12..]);
}

#[test]
fn reading_is_followed_by_encoding_or_the_end() {
    assert!(matches!(after_read(Some(&[1, 0])), AudioStep::Encode(samples) if samples == vec![1]));
    assert!(matches!(after_read(None), AudioStep::Stop));
}

#[test]
fn encoding_is_followed_by_sending_or_reading() {
    let stream = PacketStream::new([9u8; 32], 77);
    match stream.after_encode(Some(b"abc")) {
        AudioStep::Send(packet) => {
            assert_eq!(packet[..12], make_rtp_header(0, 0, 77));
            assert_eq!(opened(&[9u8; 32], &packet), b"abc");
        }
        _ => panic!("nothing to send"),
    }
    assert!(matches!(stream.after_encode(Some(b"")), AudioStep::Read));
    assert!(matches!(stream.after_encode(None), AudioStep::Read));
}

#[test]
fn streams_count_delivered_packets() {
    let mut stream = PacketStream::new([0u8; 32], 1);
    for _ in 0..70000 {
        assert!(matches!(stream.after_send(true), AudioStep::Read));
    }
    assert_eq!(stream.seq, (70000 % 65536) as u16);
    assert_eq!(stream.timestamp, 70000 * 960);
    assert_eq!(stream.ssrc, 1);
    assert!(matches!(stream.after_send(false), AudioStep::Stop));
    assert_eq!(stream.timestamp, 70000 * 960);
}

#[test]
fn counters_wrap_around() {
    let mut stream = PacketStream::new([0u8; 32], 1);
    stream.seq = u16::MAX;
    stream.timestamp = u32::MAX;
    stream.after_send(true);
    assert_eq!(stream.seq, 0);
    assert_eq!(stream.timestamp, 959);
}

#[test]
fn neighbouring_packets_have_different_headers() {
    let mut stream = PacketStream::new([0u8; 32], 1);
    let mut headers = Vec::new();
    for _ in 0..1000 {
        headers.push(make_rtp_header(stream.seq, stream.timestamp, stream.ssrc));
        stream.after_send(true);
    }
    headers.sort();
    headers.dedup();
    assert_eq!(headers.len(), 1000);
}

#[test]
fn programs_get_their_arguments() {
    assert_eq!(
        ytdlp_arguments("https://youtu.be/x"),
        ["-f", "bestaudio", "-o", "-", "https://youtu.be/x"]
    );
    assert_eq!(
        ffmpeg_arguments().join(" "),
        "-i pipe:0 -f s16le -ar 48000 -ac 2 -loglevel error pipe:1"
    );
}

#[test]
fn packets_of_a_stream_fit_and_name_their_source() {
    let mut stream = PacketStream::new([3u8; 32], 0x0a0b0c0d);
    for size in [1usize, ENCODED_LIMIT] {
        match stream.after_encode(Some(&vec![5u8; size])) {
            AudioStep::Send(packet) => {
                assert_eq!(packet.len(), size + 28);
                assert!((29..=4028).contains(&packet.len()));
                assert_eq!(packet[8..12], [0x0a, 0x0b, 0x0c, 0x0d]);
            }
            _ => panic!("nothing to send"),
        }
        stream.after_send(true);
    }
}

#[test]
fn holder_of_the_key_opens_packets() {
    let key = [7u8; 32];
    let packet = construct_encrypted_packet(&key, b"opus", make_rtp_header(1, 2, 3)).expect("a packet");
    assert_eq!(open_packet(&key, &packet), Some(b"opus".to_vec()));
    assert_eq!(open_packet(&[8u8; 32], &packet), None);
    let mut changed = packet.clone();
    changed[20] ^= 1;
    assert_eq!(open_packet(&key, &changed), None);
    assert_eq!(open_packet(&key, &packet[..11]), None);
    assert_eq!(open_packet(&key, &packet[..12]), None);
}
