//! From raw audio to the encrypted packets that a voice server accepts.

use vstd::prelude::*;
use xsalsa20poly1305::aead::Aead;
use xsalsa20poly1305::{Key, KeyInit, Nonce, XSalsa20Poly1305};

verus! {

/// Samples in one audio frame: 20 ms of stereo audio at 48 kHz.
pub const FRAME_SAMPLES: usize = 1920;

/// Bytes in one audio frame: two for each sample.
pub const FRAME_BYTES: usize = 3840;

/// The largest frame that the audio encoder may write.
pub const ENCODED_LIMIT: usize = 4000;

/// By how much the timestamp grows from packet to packet: 20 ms at 48 kHz.
pub const TIMESTAMP_STEP: u32 = 960;

/// How the audio behind a link is fetched and written to the standard output of `yt-dlp`.
pub fn ytdlp_arguments(youtube_url: &str) -> (arguments: Vec<String>)
    ensures
        arguments@.len() == 5,
        arguments@[0]@ == "-f"@,
        arguments@[1]@ == "bestaudio"@,
        arguments@[2]@ == "-o"@,
        arguments@[3]@ == "-"@,
        arguments@[4]@ == youtube_url@,
{
    let mut arguments: Vec<String> = Vec::new();
    arguments.push("-f".to_owned());
    arguments.push("bestaudio".to_owned());
    arguments.push("-o".to_owned());
    arguments.push("-".to_owned());
    arguments.push(youtube_url.to_owned());
    arguments
}

/// How `ffmpeg` turns its standard input into raw audio: signed 16-bit samples, the lower byte
/// first, 48000 a second, on two channels.
pub fn ffmpeg_arguments() -> (arguments: Vec<String>)
    ensures
        arguments@.len() == 11,
        arguments@[0]@ == "-i"@,
        arguments@[1]@ == "pipe:0"@,
        arguments@[2]@ == "-f"@,
        arguments@[3]@ == "s16le"@,
        arguments@[4]@ == "-ar"@,
        arguments@[5]@ == "48000"@,
        arguments@[6]@ == "-ac"@,
        arguments@[7]@ == "2"@,
        arguments@[8]@ == "-loglevel"@,
        arguments@[9]@ == "error"@,
        arguments@[10]@ == "pipe:1"@,
{
    let mut arguments: Vec<String> = Vec::new();
    arguments.push("-i".to_owned());
    arguments.push("pipe:0".to_owned());
    arguments.push("-f".to_owned());
    arguments.push("s16le".to_owned());
    arguments.push("-ar".to_owned());
    arguments.push("48000".to_owned());
    arguments.push("-ac".to_owned());
    arguments.push("2".to_owned());
    arguments.push("-loglevel".to_owned());
    arguments.push("error".to_owned());
    arguments.push("pipe:1".to_owned());
    arguments
}

/// The number that two bytes hold, the lower one first, as a signed 16-bit integer.
pub open spec fn sample_value(low: u8, high: u8) -> int {
    let n = low + 256 * high;
    if n < 0x8000 {
        n
    } else {
        n - 0x1_0000
    }
}

/// The samples in `bytes`: one for each whole pair of bytes.
pub fn pcm_samples(bytes: &[u8]) -> (samples: Vec<i16>)
    ensures
        samples@.len() == bytes@.len() / 2,
        forall|i: int|
            0 <= i < samples@.len() ==> #[trigger] samples@[i] as int == sample_value(
                bytes@[2 * i],
                bytes@[2 * i + 1],
            ),
{
    let total: usize = bytes.len();
    let count: usize = total / 2;
    let mut samples: Vec<i16> = Vec::new();
    for i in 0..count
        invariant
            total == bytes@.len(),
            count == total / 2,
            samples@.len() == i,
            forall|k: int|
                0 <= k < i ==> #[trigger] samples@[k] as int == sample_value(
                    bytes@[2 * k],
                    bytes@[2 * k + 1],
                ),
    {
        let n: i32 = bytes[2 * i] as i32 + 256 * (bytes[2 * i + 1] as i32);
        let sample: i16 = if n < 0x8000 {
            n as i16
        } else {
            (n - 0x1_0000) as i16
        };
        samples.push(sample);
    }
    samples
}

/// The two bytes of `n`, the higher one first.
pub open spec fn be16(n: u16) -> Seq<u8> {
    seq![(n / 0x100) as u8, (n % 0x100) as u8]
}

/// The four bytes of `n`, the highest one first.
pub open spec fn be32(n: u32) -> Seq<u8> {
    seq![
        (n / 0x100_0000) as u8,
        ((n / 0x1_0000) % 0x100) as u8,
        ((n / 0x100) % 0x100) as u8,
        (n % 0x100) as u8,
    ]
}

/// The header of a packet: version 2, payload type 120, then the three fields.
pub open spec fn rtp_header(seq: u16, timestamp: u32, ssrc: u32) -> Seq<u8> {
    seq![0x80u8, 0x78u8] + be16(seq) + be32(timestamp) + be32(ssrc)
}

/// The header of the packet with these fields.
pub fn make_rtp_header(seq: u16, timestamp: u32, ssrc: u32) -> (header: [u8; 12])
    ensures
        header@ == rtp_header(seq, timestamp, ssrc),
{
    assert((seq >> 8) as u8 == (seq / 0x100) as u8 && seq as u8 == (seq % 0x100) as u8)
        by (bit_vector);
    proof {
        lemma_be32(timestamp);
        lemma_be32(ssrc);
    }
    let header: [u8; 12] = [
        0x80,
        0x78,
        (seq >> 8) as u8,
        seq as u8,
        (timestamp >> 24) as u8,
        (timestamp >> 16) as u8,
        (timestamp >> 8) as u8,
        timestamp as u8,
        (ssrc >> 24) as u8,
        (ssrc >> 16) as u8,
        (ssrc >> 8) as u8,
        ssrc as u8,
    ];
    assert(header@ =~= rtp_header(seq, timestamp, ssrc));
    header
}

/// Shifting and cutting off gives the bytes of a number.
proof fn lemma_be32(n: u32)
    ensures
        be32(n) == seq![(n >> 24) as u8, (n >> 16) as u8, (n >> 8) as u8, n as u8],
{
    assert((n >> 24) as u8 == (n / 0x100_0000) as u8 && (n >> 16) as u8 == ((n / 0x1_0000) % 0x100)
        as u8 && (n >> 8) as u8 == ((n / 0x100) % 0x100) as u8 && n as u8 == (n % 0x100) as u8)
        by (bit_vector);
}

/// The nonce of a packet: its header, and zeros up to 24 bytes.
pub open spec fn packet_nonce(header: Seq<u8>) -> Seq<u8> {
    header + Seq::new(12, |i: int| 0u8)
}

/// What XSalsa20Poly1305 makes of a message, under a key and a nonce.
pub uninterp spec fn secretbox(key: Seq<u8>, nonce: Seq<u8>, message: Seq<u8>) -> Seq<u8>;

/// What `decrypt` of XSalsa20Poly1305 opens a sealed message to, under a key and a nonce: nothing
/// where it does not open.
pub uninterp spec fn secretbox_opened(key: Seq<u8>, nonce: Seq<u8>, sealed: Seq<u8>) -> Option<
    Seq<u8>,
>;

/// What the holder of the key makes of a packet: the nonce is taken from the header, which stands
/// in the clear.
pub open spec fn packet_opened(key: Seq<u8>, packet: Seq<u8>) -> Option<Seq<u8>> {
    secretbox_opened(key, packet_nonce(packet.take(12)), packet.skip(12))
}

/// A packet: its header, then the encrypted audio.
pub open spec fn encrypted_packet(key: Seq<u8>, opus: Seq<u8>, header: Seq<u8>) -> Seq<u8> {
    header + secretbox(key, packet_nonce(header), opus)
}

/// Encrypts with `XSalsa20Poly1305` of the `xsalsa20poly1305` crate. The result depends on the
/// three arguments alone and is longer than the message by the tag of 16 bytes. Its `decrypt` opens
/// the result to the message again, under the same key and nonce. The cipher fails only on
/// associated data, and there is none here.
#[verifier::external_body]
fn seal(key: &[u8; 32], nonce: &[u8; 24], message: &[u8]) -> (sealed: Option<Vec<u8>>)
    requires
        message@.len() + 16 <= isize::MAX,
    ensures
        sealed is Some,
        sealed->0@ == secretbox(key@, nonce@, message@),
        sealed->0@.len() == message@.len() + 16,
        secretbox_opened(key@, nonce@, sealed->0@) == Some(message@),
{
    XSalsa20Poly1305::new(Key::from_slice(key)).encrypt(Nonce::from_slice(nonce), message).ok()
}

/// The packet that carries `opus_packet` under this header.
pub fn construct_encrypted_packet(
    secret_key: &[u8; 32],
    opus_packet: &[u8],
    rtp_header: [u8; 12],
) -> (packet: Option<Vec<u8>>)
    requires
        opus_packet@.len() + 28 <= isize::MAX,
    ensures
        packet matches Some(bytes) && bytes@ == encrypted_packet(
            secret_key@,
            opus_packet@,
            rtp_header@,
        ) && bytes@.len() == opus_packet@.len() + 28 && packet_opened(secret_key@, bytes@) == Some(
            opus_packet@,
        ),
        packet->0@.take(12) == rtp_header@,
        forall|nonce: Seq<u8>|
            nonce.len() == 24 && (forall|i: int| 0 <= i < 12 ==> nonce[i] == rtp_header@[i]) && (
            forall|i: int| 12 <= i < 24 ==> nonce[i] == 0u8) ==> #[trigger] secretbox_opened(
                secret_key@,
                nonce,
                packet->0@.skip(12),
            ) == Some(opus_packet@),
{
    let nonce = nonce_of(&rtp_header);
    match seal(secret_key, &nonce, opus_packet) {
        Some(encrypted) => {
            let mut packet: Vec<u8> = Vec::with_capacity(12 + encrypted.len());
            packet.extend_from_slice(rtp_header.as_slice());
            packet.extend_from_slice(encrypted.as_slice());
            assert(packet@ =~= encrypted_packet(secret_key@, opus_packet@, rtp_header@));
            assert(packet@.take(12) =~= rtp_header@);
            assert(packet@.skip(12) =~= encrypted@);
            assert forall|n: Seq<u8>|
                n.len() == 24 && (forall|i: int| 0 <= i < 12 ==> n[i] == rtp_header@[i]) && (forall|
                    i: int,
                |
                    12 <= i < 24 ==> n[i] == 0u8) implies #[trigger] secretbox_opened(
                secret_key@,
                n,
                packet@.skip(12),
            ) == Some(opus_packet@) by {
                assert(n =~= nonce@);
            }
            Some(packet)
        },
        None => None,
    }
}

/// Decrypts with `XSalsa20Poly1305` of the `xsalsa20poly1305` crate. The result depends on the three
/// arguments alone; nothing comes out where the message does not open.
#[verifier::external_body]
fn unseal(key: &[u8; 32], nonce: &[u8; 24], sealed: &[u8]) -> (message: Option<Vec<u8>>)
    ensures
        message is Some == secretbox_opened(key@, nonce@, sealed@) is Some,
        message matches Some(m) ==> m@ == secretbox_opened(key@, nonce@, sealed@)->0,
{
    XSalsa20Poly1305::new(Key::from_slice(key)).decrypt(Nonce::from_slice(nonce), sealed).ok()
}

/// The nonce of the packet with this header.
fn nonce_of(header: &[u8; 12]) -> (nonce: [u8; 24])
    ensures
        nonce@ == packet_nonce(header@),
{
    let mut nonce: [u8; 24] = [0u8; 24];
    for i in 0..12usize
        invariant
            forall|k: int| 0 <= k < i ==> #[trigger] nonce@[k] == header@[k],
            forall|k: int| i <= k < 24 ==> #[trigger] nonce@[k] == 0,
    {
        nonce[i] = header[i];
    }
    assert(nonce@ =~= packet_nonce(header@));
    nonce
}

/// What the holder of the key makes of a packet. What is shorter than a header is no packet.
pub fn open_packet(secret_key: &[u8; 32], packet: &[u8]) -> (opus: Option<Vec<u8>>)
    ensures
        opus is Some == (packet@.len() >= 12 && packet_opened(secret_key@, packet@) is Some),
        opus matches Some(bytes) ==> bytes@ == packet_opened(secret_key@, packet@)->0,
{
    let total: usize = packet.len();
    if total < 12 {
        return None;
    }
    let mut header: [u8; 12] = [0u8; 12];
    for i in 0..12usize
        invariant
            packet@.len() >= 12,
            forall|k: int| 0 <= k < i ==> #[trigger] header@[k] == packet@[k],
    {
        header[i] = packet[i];
    }
    assert(header@ =~= packet@.take(12));
    let mut sealed: Vec<u8> = Vec::with_capacity(total - 12);
    for i in 12..total
        invariant
            total == packet@.len(),
            total >= 12,
            sealed@ == packet@.subrange(12, i as int),
    {
        sealed.push(packet[i]);
        assert(sealed@ =~= packet@.subrange(12, i + 1));
    }
    assert(sealed@ =~= packet@.skip(12));
    unseal(secret_key, &nonce_of(&header), sealed.as_slice())
}

/// What the audio loop does next.
pub enum AudioStep {
    /// Read the next frame of raw audio.
    Read,
    /// Encode these samples.
    Encode(Vec<i16>),
    /// Hand this packet to the sender.
    Send(Vec<u8>),
    /// End the stream.
    Stop,
}

/// After an attempt to read a frame of raw audio: encode it, or end where there is no more.
pub fn after_read(frame: Option<&[u8]>) -> (step: AudioStep)
    ensures
        match frame {
            Some(bytes) => step matches AudioStep::Encode(samples) && samples@.len()
                == bytes@.len() / 2 && forall|i: int|
                0 <= i < samples@.len() ==> #[trigger] samples@[i] as int == sample_value(
                    bytes@[2 * i],
                    bytes@[2 * i + 1],
                ),
            None => step is Stop,
        },
{
    match frame {
        Some(bytes) => AudioStep::Encode(pcm_samples(bytes)),
        None => AudioStep::Stop,
    }
}

/// The packets of one audio stream: the key and source that they share, and the fields of the
/// next header.
pub struct PacketStream {
    pub secret_key: [u8; 32],
    pub ssrc: u32,
    pub seq: u16,
    pub timestamp: u32,
}

impl PacketStream {
    /// The header of the next packet.
    pub open spec fn header(self) -> Seq<u8> {
        rtp_header(self.seq, self.timestamp, self.ssrc)
    }

    /// The stream behind one more packet.
    pub open spec fn advanced(self) -> PacketStream {
        PacketStream {
            secret_key: self.secret_key,
            ssrc: self.ssrc,
            seq: ((self.seq + 1) % 0x1_0000) as u16,
            timestamp: ((self.timestamp + TIMESTAMP_STEP) % 0x1_0000_0000) as u32,
        }
    }

    /// The stream behind `n` more packets.
    pub open spec fn after_packets(self, n: nat) -> PacketStream
        decreases n,
    {
        if n == 0 {
            self
        } else {
            self.after_packets((n - 1) as nat).advanced()
        }
    }

    /// A stream before its first packet.
    pub fn new(secret_key: [u8; 32], ssrc: u32) -> (stream: PacketStream)
        ensures
            stream == (PacketStream { secret_key, ssrc, seq: 0, timestamp: 0 }),
    {
        PacketStream { secret_key, ssrc, seq: 0, timestamp: 0 }
    }

    /// After an attempt to encode a frame: send the packet, or go on where the encoder failed or
    /// made nothing of it.
    pub fn after_encode(&self, encoded: Option<&[u8]>) -> (step: AudioStep)
        requires
            encoded matches Some(opus) ==> opus@.len() + 28 <= isize::MAX,
        ensures
            match encoded {
                Some(opus) if opus@.len() > 0 => step matches AudioStep::Send(packet) && packet@
                    == encrypted_packet(self.secret_key@, opus@, self.header()) && packet@.len()
                    == opus@.len() + 28 && packet_opened(self.secret_key@, packet@) == Some(opus@)
                    && packet@.take(12) == self.header() && forall|nonce: Seq<u8>|
                    nonce.len() == 24 && (forall|i: int|
                        0 <= i < 12 ==> nonce[i] == self.header()[i]) && (forall|i: int|
                        12 <= i < 24 ==> nonce[i] == 0u8) ==> #[trigger] secretbox_opened(
                        self.secret_key@,
                        nonce,
                        packet@.skip(12),
                    ) == Some(opus@),
                _ => step is Read,
            },
    {
        match encoded {
            Some(opus) => {
                if opus.len() == 0 {
                    return AudioStep::Read;
                }
                let header = make_rtp_header(self.seq, self.timestamp, self.ssrc);
                match construct_encrypted_packet(&self.secret_key, opus, header) {
                    Some(packet) => AudioStep::Send(packet),
                    None => AudioStep::Read,
                }
            },
            None => AudioStep::Read,
        }
    }

    /// After an attempt to hand a packet over: move on to the next one, or end where nobody takes
    /// packets any more.
    pub fn after_send(&mut self, delivered: bool) -> (step: AudioStep)
        ensures
            delivered ==> *final(self) == old(self).advanced() && step is Read,
            !delivered ==> *final(self) == *old(self) && step is Stop,
    {
        if !delivered {
            return AudioStep::Stop;
        }
        self.seq = self.seq.wrapping_add(1);
        self.timestamp = self.timestamp.wrapping_add(TIMESTAMP_STEP);
        AudioStep::Read
    }
}

/// After `n` packets a stream has counted `n` of them, modulo what the fields hold: the sequence
/// number grows by one for each packet and the timestamp by 20 ms.
pub proof fn stream_counts_packets(stream: PacketStream, n: nat)
    ensures
        stream.after_packets(n).secret_key == stream.secret_key,
        stream.after_packets(n).ssrc == stream.ssrc,
        stream.after_packets(n).seq == (stream.seq + n) % 0x1_0000,
        stream.after_packets(n).timestamp == (stream.timestamp + 960 * n) % 0x1_0000_0000,
    decreases n,
{
    if n > 0 {
        let before = (n - 1) as nat;
        stream_counts_packets(stream, before);
        lemma_count_on(stream.seq + before, 1, 0x1_0000);
        lemma_count_on(stream.timestamp + 960 * before, 960, 0x1_0000_0000);
    } else {
        vstd::arithmetic::div_mod::lemma_small_mod(stream.seq as nat, 0x1_0000);
        vstd::arithmetic::div_mod::lemma_small_mod(stream.timestamp as nat, 0x1_0000_0000);
    }
}

/// Counting on from a remainder is counting on from the number.
proof fn lemma_count_on(n: int, step: int, modulus: int)
    requires
        modulus > 0,
    ensures
        (n % modulus + step) % modulus == (n + step) % modulus,
{
    vstd::arithmetic::div_mod::lemma_add_mod_noop_right(step, n, modulus);
}

/// The four bytes of a number determine it.
proof fn lemma_be32_injective(a: u32, b: u32)
    requires
        be32(a) == be32(b),
    ensures
        a == b,
{
    assert(be32(a)[0] == be32(b)[0] && be32(a)[1] == be32(b)[1] && be32(a)[2] == be32(b)[2]
        && be32(a)[3] == be32(b)[3]);
    assert(a / 0x100_0000 <= 0xff && b / 0x100_0000 <= 0xff);
}

/// A header tells its three fields.
pub proof fn header_tells_fields(
    seq_a: u16,
    timestamp_a: u32,
    ssrc_a: u32,
    seq_b: u16,
    timestamp_b: u32,
    ssrc_b: u32,
)
    requires
        rtp_header(seq_a, timestamp_a, ssrc_a) == rtp_header(seq_b, timestamp_b, ssrc_b),
    ensures
        seq_a == seq_b,
        timestamp_a == timestamp_b,
        ssrc_a == ssrc_b,
{
    let a = rtp_header(seq_a, timestamp_a, ssrc_a);
    let b = rtp_header(seq_b, timestamp_b, ssrc_b);
    assert(be16(seq_a) =~= a.subrange(2, 4));
    assert(be16(seq_b) =~= b.subrange(2, 4));
    assert(be32(timestamp_a) =~= a.subrange(4, 8));
    assert(be32(timestamp_b) =~= b.subrange(4, 8));
    assert(be32(ssrc_a) =~= a.subrange(8, 12));
    assert(be32(ssrc_b) =~= b.subrange(8, 12));
    assert(be16(seq_a)[0] == be16(seq_b)[0] && be16(seq_a)[1] == be16(seq_b)[1]);
    lemma_be32_injective(timestamp_a, timestamp_b);
    lemma_be32_injective(ssrc_a, ssrc_b);
}

/// Timestamps of packets that are fewer than 2^26 apart differ: if 960 `gap` were a multiple of
/// 2^32, then 15 `gap` would be one of 2^26.
proof fn lemma_timestamps_differ(start: int, gap: int)
    requires
        0 < gap < 0x400_0000,
    ensures
        start % 0x1_0000_0000 != (start + 960 * gap) % 0x1_0000_0000,
{
    if start % 0x1_0000_0000 == (start + 960 * gap) % 0x1_0000_0000 {
        let k = (start + 960 * gap) / 0x1_0000_0000 - start / 0x1_0000_0000;
        assert(960 * gap == 0x1_0000_0000 * k);
        assert(15 * gap == 0x400_0000 * k);
        assert(0 < k < 15);
    }
}

/// No nonce occurs twice among any 2^26 packets in a row of one stream.
pub proof fn nonces_do_not_repeat(stream: PacketStream, a: nat, b: nat)
    requires
        a < b,
        b - a < 0x400_0000,
    ensures
        packet_nonce(stream.after_packets(a).header()) != packet_nonce(
            stream.after_packets(b).header(),
        ),
{
    let first = stream.after_packets(a);
    let second = stream.after_packets(b);
    if packet_nonce(first.header()) == packet_nonce(second.header()) {
        assert(first.header() =~= packet_nonce(first.header()).take(12));
        assert(second.header() =~= packet_nonce(second.header()).take(12));
        header_tells_fields(
            first.seq,
            first.timestamp,
            first.ssrc,
            second.seq,
            second.timestamp,
            second.ssrc,
        );
        stream_counts_packets(stream, a);
        stream_counts_packets(stream, b);
        lemma_timestamps_differ(stream.timestamp + 960 * a, b - a);
    }
}

/// Every packet of a stream, made of one encoded frame, has 29 to 4028 bytes and names the source
/// of the stream.
pub proof fn packets_fit_and_name_source(
    stream: PacketStream,
    n: nat,
    opus: Seq<u8>,
    packet: Seq<u8>,
)
    requires
        0 < opus.len() <= ENCODED_LIMIT,
        packet == encrypted_packet(stream.secret_key@, opus, stream.after_packets(n).header()),
        packet.len() == opus.len() + 28,
    ensures
        29 <= packet.len() <= 4028,
        packet.subrange(8, 12) == be32(stream.ssrc),
{
    stream_counts_packets(stream, n);
    let header = stream.after_packets(n).header();
    assert(packet.subrange(8, 12) =~= header.subrange(8, 12));
    assert(header.subrange(8, 12) =~= be32(stream.ssrc));
}

/// The nonce of a packet is its header, byte by byte, and then twelve zeros.
pub proof fn nonce_is_header_and_zeros(header: Seq<u8>)
    requires
        header.len() == 12,
    ensures
        packet_nonce(header).len() == 24,
        forall|i: int| 0 <= i < 12 ==> #[trigger] packet_nonce(header)[i] == header[i],
        forall|i: int| 12 <= i < 24 ==> #[trigger] packet_nonce(header)[i] == 0,
{
}

/// A packet is opened under its own first twelve bytes with zeros behind them, and what is opened is
/// all that follows those bytes.
pub proof fn packet_is_opened_under_its_header(key: Seq<u8>, packet: Seq<u8>, nonce: Seq<u8>)
    requires
        packet.len() >= 12,
        nonce.len() == 24,
        forall|i: int| 0 <= i < 12 ==> nonce[i] == packet[i],
        forall|i: int| 12 <= i < 24 ==> nonce[i] == 0,
    ensures
        packet_opened(key, packet) == secretbox_opened(
            key,
            nonce,
            packet.subrange(12, packet.len() as int),
        ),
{
    assert(packet_nonce(packet.take(12)) =~= nonce);
    assert(packet.skip(12) =~= packet.subrange(12, packet.len() as int));
}

/// A packet is its header and then the audio, sealed under the header with zeros behind it.
pub proof fn packet_is_header_and_sealed_audio(
    key: Seq<u8>,
    opus: Seq<u8>,
    header: Seq<u8>,
    nonce: Seq<u8>,
)
    requires
        header.len() == 12,
        nonce.len() == 24,
        forall|i: int| 0 <= i < 12 ==> nonce[i] == header[i],
        forall|i: int| 12 <= i < 24 ==> nonce[i] == 0,
    ensures
        encrypted_packet(key, opus, header).take(12) == header,
        encrypted_packet(key, opus, header).skip(12) == secretbox(key, nonce, opus),
{
    assert(packet_nonce(header) =~= nonce);
    assert(encrypted_packet(key, opus, header).take(12) =~= header);
    assert(encrypted_packet(key, opus, header).skip(12) =~= secretbox(key, nonce, opus));
}

/// Each sample of sixteen bits is read back from its two bytes, the lower one first.
pub proof fn samples_read_back(sample: i16, low: u8, high: u8)
    ensures
        -0x8000 <= sample_value(low, high) < 0x8000,
        (sample_value(low, high) - low - 256 * high) % 0x1_0000 == 0,
        sample >= 0 && low == sample % 256 && high == sample / 256 ==> sample_value(low, high)
            == sample,
        sample < 0 && low == (sample + 0x1_0000) % 256 && high == (sample + 0x1_0000) / 256
            ==> sample_value(low, high) == sample,
{
}

/// The bytes of a header, read as numbers with the higher byte first, are its fields.
pub proof fn header_reads_as_its_fields(seq: u16, timestamp: u32, ssrc: u32)
    ensures
        rtp_header(seq, timestamp, ssrc).len() == 12,
        rtp_header(seq, timestamp, ssrc)[0] == 0x80,
        rtp_header(seq, timestamp, ssrc)[1] == 0x78,
        0x100 * rtp_header(seq, timestamp, ssrc)[2] + rtp_header(seq, timestamp, ssrc)[3] == seq,
        0x100_0000 * rtp_header(seq, timestamp, ssrc)[4] + 0x1_0000 * rtp_header(
            seq,
            timestamp,
            ssrc,
        )[5] + 0x100 * rtp_header(seq, timestamp, ssrc)[6] + rtp_header(seq, timestamp, ssrc)[7]
            == timestamp,
        0x100_0000 * rtp_header(seq, timestamp, ssrc)[8] + 0x1_0000 * rtp_header(
            seq,
            timestamp,
            ssrc,
        )[9] + 0x100 * rtp_header(seq, timestamp, ssrc)[10] + rtp_header(seq, timestamp, ssrc)[11]
            == ssrc,
{
    bytes_read_as_number(seq, timestamp);
    bytes_read_as_number(seq, ssrc);
    let header = rtp_header(seq, timestamp, ssrc);
    assert(header.subrange(2, 4) =~= be16(seq));
    assert(header.subrange(4, 8) =~= be32(timestamp));
    assert(header.subrange(8, 12) =~= be32(ssrc));
    assert(header[2] == be16(seq)[0] && header[3] == be16(seq)[1]);
    assert(header[4] == be32(timestamp)[0] && header[5] == be32(timestamp)[1]);
    assert(header[6] == be32(timestamp)[2] && header[7] == be32(timestamp)[3]);
    assert(header[8] == be32(ssrc)[0] && header[9] == be32(ssrc)[1]);
    assert(header[10] == be32(ssrc)[2] && header[11] == be32(ssrc)[3]);
}

/// Two and four bytes, read with the higher byte first, are the number that they were made of.
pub proof fn bytes_read_as_number(short: u16, long: u32)
    ensures
        be16(short).len() == 2,
        be32(long).len() == 4,
        0x100 * be16(short)[0] + be16(short)[1] == short,
        0x100_0000 * be32(long)[0] + 0x1_0000 * be32(long)[1] + 0x100 * be32(long)[2] + be32(long)[3]
            == long,
{
    assert(long / 0x100_0000 <= 0xff);
}

/// From one packet to the next the sequence number goes up by one and the timestamp by 960, each
/// beginning anew where its field ends, and nothing else changes.
pub proof fn next_packet_counts_on(stream: PacketStream)
    ensures
        stream.advanced().secret_key == stream.secret_key,
        stream.advanced().ssrc == stream.ssrc,
        stream.seq < 0xffff ==> stream.advanced().seq == stream.seq + 1,
        stream.seq == 0xffff ==> stream.advanced().seq == 0,
        stream.timestamp <= 0xffff_ffff - 960 ==> stream.advanced().timestamp == stream.timestamp
            + 960,
        stream.timestamp > 0xffff_ffff - 960 ==> stream.advanced().timestamp == stream.timestamp
            + 960 - 0x1_0000_0000,
        stream.after_packets(0) == stream,
        stream.after_packets(1) == stream.advanced(),
        stream.header() == rtp_header(stream.seq, stream.timestamp, stream.ssrc),
{
    reveal_with_fuel(PacketStream::after_packets, 2);
}

/// A frame is 20 ms of stereo audio at 48000 samples a second, two bytes each, and the timestamp
/// counts the samples of one channel.
pub proof fn frame_is_a_fiftieth_of_a_second()
    ensures
        FRAME_SAMPLES * 50 == 2 * 48000,
        FRAME_BYTES == 2 * FRAME_SAMPLES,
        TIMESTAMP_STEP * 50 == 48000,
        ENCODED_LIMIT == 4000,
{
}

} // verus!
