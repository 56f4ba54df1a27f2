//! The video stream of a session: packets, time stamps and the sender's state.
use crate::bytes::{
    be16, be32, bytes_write_their_number, le16, le32, push_be16, push_be32, push_le16, push_le32,
    same_bytes,
};
use crate::sunshine::crypto::{random_u16, random_u32};
use crate::sunshine::launch::GAMESTREAM_DEFAULT_VIDEO_PACKET_SIZE;
use crate::sunshine::rtsp::GAMESTREAM_VIDEO_PACKET_HEADER_SIZE;
use crate::text::{contains, has_text, read_utf8, str_chars, utf8_decoded};
use crate::types::RtspCodec;
use crate::video::format::{EncodedVideoFrame, VideoCodecType, VideoEncoderType};
use vstd::arithmetic::div_mod::lemma_fundamental_div_mod;
use vstd::prelude::*;
use vstd::slice::slice_subrange;
use vstd::utf8::*;

verus! {

/// The clock of the video stream, in ticks per second.
pub const RTP_CLOCK_RATE: u32 = 90000;

/// The most packets of a frame.
pub const MAX_FRAME_PACKETS: usize = 1023;

/// How many packets go out between two pauses.
pub const GAMESTREAM_VIDEO_PACE_BATCH_PACKETS: usize = 24;

/// How many frames lie between two requests for a key frame at the start.
pub const GAMESTREAM_STARTUP_KEYFRAME_INTERVAL_FRAMES: u64 = 30;

/// How many requests for a key frame follow the start.
pub const GAMESTREAM_STARTUP_KEYFRAME_REQUESTS: u64 = 3;

// ---------------------------------------------------------------- codecs

/// The codec that a session's codec stands for.
pub fn rtsp_codec_to_video_codec(codec: RtspCodec) -> (r: VideoCodecType)
    ensures
        r == (match codec {
            RtspCodec::H264 => VideoCodecType::H264,
            RtspCodec::H265 => VideoCodecType::H265,
        }),
{
    match codec {
        RtspCodec::H264 => VideoCodecType::H264,
        RtspCodec::H265 => VideoCodecType::H265,
    }
}

/// Whether an encoder produces what a session streams.
pub open spec fn codec_matches(encoder: VideoEncoderType, codec: RtspCodec) -> bool {
    ||| encoder == VideoEncoderType::H264 && codec == RtspCodec::H264
    ||| encoder == VideoEncoderType::H265 && codec == RtspCodec::H265
}

/// Whether a frame is one of those that a session streams.
pub fn is_frame_codec_match(frame: &EncodedVideoFrame, codec: RtspCodec) -> (r: bool)
    ensures
        r == codec_matches(frame.codec, codec),
{
    match (frame.codec, codec) {
        (VideoEncoderType::H264, RtspCodec::H264) => true,
        (VideoEncoderType::H265, RtspCodec::H265) => true,
        _ => false,
    }
}

// ---------------------------------------------------------------- time stamps

/// The time stamp of a presentation time.
pub open spec fn pts_timestamp(pts_ms: i64) -> u32 {
    if pts_ms <= 0 {
        0
    } else {
        ((pts_ms * 90) % 0x1_0000_0000) as u32
    }
}

/// Turns a presentation time into a time stamp.
pub fn pts_to_rtp_timestamp(pts_ms: i64) -> (r: u32)
    ensures
        r == pts_timestamp(pts_ms),
{
    if pts_ms <= 0 {
        return 0;
    }
    let ticks: u128 = pts_ms as u128 * 90;
    (ticks % 0x1_0000_0000) as u32
}

/// By how much time stamps advance over a frame of a given length: the ticks that it
/// lasts, rounded to the nearest number, at least one.
pub open spec fn timestamp_step(duration_ns: u128) -> u32 {
    let ticks = (duration_ns * RTP_CLOCK_RATE + 500_000_000) / 1_000_000_000;
    if ticks < 1 {
        1
    } else if ticks > u32::MAX {
        u32::MAX
    } else {
        ticks as u32
    }
}

/// By how much time stamps advance over a frame.
pub fn rtp_timestamp_increment(duration_ns: u128) -> (r: u32)
    ensures
        r == timestamp_step(duration_ns),
        r >= 1,
{
    let seconds: u128 = duration_ns / 1_000_000_000;
    let rest: u128 = duration_ns % 1_000_000_000;
    let ticks: u128 = seconds * 90_000 + (rest * 90_000 + 500_000_000) / 1_000_000_000;
    assert(ticks == (duration_ns * 90_000 + 500_000_000) / 1_000_000_000);
    assert(duration_ns * RTP_CLOCK_RATE == duration_ns * 90_000) by (nonlinear_arith)
        requires
            RTP_CLOCK_RATE == 90_000,
    ;
    if ticks < 1 {
        1
    } else if ticks > u32::MAX as u128 {
        u32::MAX
    } else {
        ticks as u32
    }
}

/// The time stamp of a frame: that of its presentation time where this goes forward, or else
/// one step after the last.
pub open spec fn next_timestamp(pts_ms: i64, last: u32, duration_ns: u128) -> u32 {
    if pts_timestamp(pts_ms) > last {
        pts_timestamp(pts_ms)
    } else {
        ((last + timestamp_step(duration_ns)) % 0x1_0000_0000) as u32
    }
}

/// Gives a frame its time stamp and remembers it.
pub fn monotonic_rtp_timestamp(pts_ms: i64, last: &mut u32, duration_ns: u128) -> (r: u32)
    ensures
        r == next_timestamp(pts_ms, *old(last), duration_ns),
        *final(last) == r,
{
    let from_pts: u32 = pts_to_rtp_timestamp(pts_ms);
    let step: u32 = rtp_timestamp_increment(duration_ns);
    let ts: u32 = if from_pts > *last {
        from_pts
    } else {
        last.wrapping_add(step)
    };
    *last = ts;
    ts
}

/// Time stamps go forward from frame to frame until they wrap around: the next one is greater
/// than the last wherever one step more than the last still fits into 32 bits.
pub proof fn timestamps_go_forward(pts_ms: i64, last: u32, duration_ns: u128)
    requires
        last + timestamp_step(duration_ns) < 0x1_0000_0000,
    ensures
        next_timestamp(pts_ms, last, duration_ns) > last,
{
}

// ---------------------------------------------------------------- packets

/// How much of a frame a packet of a given size carries.
pub open spec fn payload_size_of(packet_size: usize) -> usize {
    if packet_size > GAMESTREAM_VIDEO_PACKET_HEADER_SIZE {
        (packet_size - GAMESTREAM_VIDEO_PACKET_HEADER_SIZE) as usize
    } else {
        (GAMESTREAM_DEFAULT_VIDEO_PACKET_SIZE - GAMESTREAM_VIDEO_PACKET_HEADER_SIZE) as usize
    }
}

/// How much of a frame a packet carries; never nothing.
pub fn video_payload_size(packet_size: usize) -> (r: usize)
    ensures
        r == payload_size_of(packet_size),
        r > 0,
{
    if packet_size > GAMESTREAM_VIDEO_PACKET_HEADER_SIZE {
        packet_size - GAMESTREAM_VIDEO_PACKET_HEADER_SIZE
    } else {
        GAMESTREAM_DEFAULT_VIDEO_PACKET_SIZE - GAMESTREAM_VIDEO_PACKET_HEADER_SIZE
    }
}

/// The length of what a frame's last packet carries, as the frame's header states it.
pub open spec fn last_payload_len(data_len: nat, payload_size: nat) -> nat
    recommends
        payload_size > 0,
{
    let rest = (data_len + 8) % payload_size;
    let len = if rest == 0 {
        payload_size
    } else {
        rest
    };
    if len > 65535 {
        65535
    } else {
        len
    }
}

/// The header in front of a frame.
pub open spec fn frame_header(data_len: nat, is_keyframe: bool, payload_size: nat) -> Seq<u8> {
    seq![
        1u8,
        0u8,
        0u8,
        if is_keyframe {
            2u8
        } else {
            1u8
        },
    ] + le16(last_payload_len(data_len, payload_size) as u16) + seq![0u8, 0u8]
}

/// Builds the header in front of a frame.
pub fn build_gamestream_short_frame_header(frame: &EncodedVideoFrame, payload_size: usize) -> (r:
    Vec<u8>)
    requires
        payload_size > 0,
    ensures
        r@ == frame_header(frame.data@.len(), frame.is_keyframe, payload_size as nat),
        r@.len() == 8,
{
    let total: u128 = frame.data.len() as u128 + 8;
    let rest: u128 = total % (payload_size as u128);
    let len: u128 = if rest == 0 {
        payload_size as u128
    } else {
        rest
    };
    let stated: u16 = if len > 65535 {
        65535
    } else {
        len as u16
    };
    let mut header: Vec<u8> = Vec::new();
    header.push(1);
    header.push(0);
    header.push(0);
    header.push(
        if frame.is_keyframe {
            2
        } else {
            1
        },
    );
    push_le16(&mut header, stated);
    header.push(0);
    header.push(0);
    header
}

/// What a frame's packets carry together: its header and its data.
pub open spec fn frame_payload(data: Seq<u8>, is_keyframe: bool, payload_size: nat) -> Seq<u8> {
    frame_header(data.len(), is_keyframe, payload_size) + data
}

/// How many pieces of a given size something of a given length takes.
pub open spec fn piece_count(len: nat, size: nat) -> nat
    recommends
        len > 0,
        size > 0,
{
    ((len - 1) / size as int + 1) as nat
}

/// One piece of a payload.
pub open spec fn piece(payload: Seq<u8>, size: nat, i: int) -> Seq<u8> {
    let start = i * size;
    payload.subrange(
        start,
        if start + size < payload.len() {
            start + size
        } else {
            payload.len() as int
        },
    )
}

/// What the packets of a frame have in common.
pub struct PacketBase {
    pub frame_index: u32,
    pub rtp_timestamp: u32,
    pub ssrc: u32,
    pub sequence_number: u16,
    pub stream_packet_index: u32,
}

/// The flags of a packet: that it carries picture data, begins a frame, ends a frame.
pub open spec fn packet_flags(i: int, total: nat) -> u8 {
    (1 + (if i == 0 {
        4int
    } else {
        0int
    }) + (if i + 1 == total {
        2int
    } else {
        0int
    })) as u8
}

/// One packet of a frame.
pub open spec fn packet_bytes(base: PacketBase, i: int, total: nat, carried: Seq<u8>) -> Seq<u8> {
    seq![0x90u8, 0u8] + be16(((base.sequence_number + i) % 0x1_0000) as u16) + be32(
        base.rtp_timestamp,
    ) + be32(base.ssrc) + seq![0u8, 0u8, 0u8, 0u8] + le32(
        (((base.stream_packet_index + i) % 0x100_0000) * 256) as u32,
    ) + le32(base.frame_index) + seq![packet_flags(i, total), 0u8, 0x10u8, 0u8] + le32(
        (i * 4096 + total * 0x40_0000) as u32,
    ) + carried
}

/// How many bytes of a packet come before what it carries.
pub const PACKET_OVERHEAD: usize = 32;

/// The packets of a frame; a frame that would take too many has none.
pub open spec fn frame_packets(
    data: Seq<u8>,
    is_keyframe: bool,
    payload_size: nat,
    base: PacketBase,
) -> Seq<Seq<u8>> {
    let payload = frame_payload(data, is_keyframe, payload_size);
    let total = piece_count(payload.len(), payload_size);
    if total > MAX_FRAME_PACKETS {
        Seq::empty()
    } else {
        Seq::new(total, |i: int| packet_bytes(base, i, total, piece(payload, payload_size, i)))
    }
}

/// The views of a list of packets.
pub open spec fn packet_views(packets: Seq<Vec<u8>>) -> Seq<Seq<u8>> {
    packets.map_values(|p: Vec<u8>| p@)
}

fn build_packet(base: &PacketBase, i: usize, total: usize, carried: &[u8]) -> (r: Vec<u8>)
    requires
        i < total <= MAX_FRAME_PACKETS,
    ensures
        r@ == packet_bytes(*base, i as int, total as nat, carried@),
{
    let mut packet: Vec<u8> = Vec::new();
    packet.push(0x90);
    packet.push(0);
    let sequence: u16 = ((base.sequence_number as u32 + i as u32) % 0x1_0000) as u16;
    push_be16(&mut packet, sequence);
    push_be32(&mut packet, base.rtp_timestamp);
    push_be32(&mut packet, base.ssrc);
    packet.push(0);
    packet.push(0);
    packet.push(0);
    packet.push(0);
    let index: u32 = ((base.stream_packet_index as u64 + i as u64) % 0x100_0000) as u32;
    push_le32(&mut packet, index * 256);
    push_le32(&mut packet, base.frame_index);
    let first: u8 = if i == 0 {
        4
    } else {
        0
    };
    let last: u8 = if i + 1 == total {
        2
    } else {
        0
    };
    packet.push(1 + first + last);
    packet.push(0);
    packet.push(0x10);
    packet.push(0);
    push_le32(&mut packet, i as u32 * 4096 + total as u32 * 0x40_0000);
    packet.extend_from_slice(carried);
    assert(packet@ == packet_bytes(*base, i as int, total as nat, carried@));
    packet
}

proof fn lemma_pieces(len: int, size: int, i: int)
    requires
        len > 0,
        size > 0,
        0 <= i,
    ensures
        piece_count(len as nat, size as nat) >= 1,
        i * size < len <==> i < piece_count(len as nat, size as nat),
        (i + 1) * size == i * size + size,
        i * size >= 0,
{
    let q = (len - 1) / size;
    lemma_fundamental_div_mod(len - 1, size);
    assert(q >= 0) by (nonlinear_arith)
        requires
            q == (len - 1) / size,
            len > 0,
            size > 0,
    ;
    assert((i + 1) * size == i * size + size) by (nonlinear_arith);
    assert(i * size >= 0) by (nonlinear_arith)
        requires
            i >= 0,
            size > 0,
    ;
    let r = (len - 1) % size;
    assert(0 <= r < size);
    assert(len - 1 == size * q + r);
    if i <= q {
        assert(i * size <= size * q) by (nonlinear_arith)
            requires
                i <= q,
                size > 0,
        ;
    } else {
        assert(i * size >= size * q + size) by (nonlinear_arith)
            requires
                i >= q + 1,
                size > 0,
        ;
    }
}

/// Cuts a frame into packets.
pub fn packetize_frame(frame: &EncodedVideoFrame, payload_size: usize, base: &PacketBase) -> (r:
    Vec<Vec<u8>>)
    requires
        payload_size > 0,
    ensures
        packet_views(r@) == frame_packets(
            frame.data@,
            frame.is_keyframe,
            payload_size as nat,
            *base,
        ),
{
    let mut payload = build_gamestream_short_frame_header(frame, payload_size);
    payload.extend_from_slice(frame.data.as_slice());
    assert(payload@ == frame_payload(frame.data@, frame.is_keyframe, payload_size as nat));
    let len: usize = payload.len();
    proof {
        lemma_pieces(len as int, payload_size as int, 0);
    }
    let whole: usize = (len - 1) / payload_size;
    let ghost total_count = piece_count(len as nat, payload_size as nat);
    assert(total_count == whole + 1);
    let mut packets: Vec<Vec<u8>> = Vec::new();
    if whole >= MAX_FRAME_PACKETS {
        assert(packet_views(packets@) == Seq::<Seq<u8>>::empty());
        return packets;
    }
    let total: usize = whole + 1;
    let mut i: usize = 0;
    let mut start: usize = 0;
    while i < total
        invariant
            payload_size > 0,
            len == payload@.len(),
            len > 0,
            total == piece_count(len as nat, payload_size as nat),
            total <= MAX_FRAME_PACKETS,
            i <= total,
            i < total ==> start == i * payload_size,
            packets@.len() == i,
            forall|j: int|
                0 <= j < i ==> (#[trigger] packets@[j])@ == packet_bytes(
                    *base,
                    j,
                    total as nat,
                    piece(payload@, payload_size as nat, j),
                ),
        decreases total - i,
    {
        proof {
            lemma_pieces(len as int, payload_size as int, i as int);
            lemma_pieces(len as int, payload_size as int, i + 1);
        }
        let end: usize = if len - start > payload_size {
            start + payload_size
        } else {
            len
        };
        let carried = slice_subrange(payload.as_slice(), start, end);
        assert(carried@ == piece(payload@, payload_size as nat, i as int));
        packets.push(build_packet(base, i, total, carried));
        i = i + 1;
        start = end;
    }
    assert(packet_views(packets@) == frame_packets(
        frame.data@,
        frame.is_keyframe,
        payload_size as nat,
        *base,
    ));
    packets
}

/// Whether the sender pauses after a packet: after every batch but the last packet, where the
/// frame takes more than one batch.
pub open spec fn pauses_after(i: int, total: nat) -> bool {
    &&& total > GAMESTREAM_VIDEO_PACE_BATCH_PACKETS
    &&& i + 1 < total
    &&& (i + 1) % (GAMESTREAM_VIDEO_PACE_BATCH_PACKETS as int) == 0
}

/// Whether the sender pauses after a packet.
pub fn pause_after_packet(i: usize, total: usize) -> (r: bool)
    requires
        i < total,
    ensures
        r == pauses_after(i as int, total as nat),
{
    total > GAMESTREAM_VIDEO_PACE_BATCH_PACKETS && i + 1 < total && (i + 1)
        % GAMESTREAM_VIDEO_PACE_BATCH_PACKETS == 0
}

// ---------------------------------------------------------------- the sender

/// The state of a session's video sender.
pub struct VideoSender {
    pub codec: RtspCodec,
    pub payload_size: usize,
    pub ssrc: u32,
    pub sequence_number: u16,
    pub stream_packet_index: u32,
    pub last_rtp_timestamp: u32,
    pub frame_index: u32,
    pub sent_frames: u64,
    pub waiting_for_keyframe: bool,
    pub skipped_until_keyframe: u64,
}

impl VideoSender {
    /// Whether the sender's state is one that it can be in.
    pub open spec fn wf(self) -> bool {
        &&& self.payload_size > 0
        &&& self.frame_index >= 1
    }
}

/// What becomes of a frame.
#[derive(Debug)]
pub struct SendStep {
    /// The packets to send.
    pub packets: Vec<Vec<u8>>,
    /// Whether the frame was taken up.
    pub taken: bool,
    /// Whether to ask the encoder for a key frame.
    pub request_keyframe: bool,
}

/// A sender at the start, with a first sequence number and a source number.
pub fn new_sender(codec: RtspCodec, packet_size: usize, sequence_number: u16, ssrc: u32) -> (r:
    VideoSender)
    ensures
        r.wf(),
        r == (VideoSender {
            codec,
            payload_size: payload_size_of(packet_size),
            ssrc,
            sequence_number,
            stream_packet_index: 0,
            last_rtp_timestamp: 0,
            frame_index: 1,
            sent_frames: 0,
            waiting_for_keyframe: true,
            skipped_until_keyframe: 0,
        }),
{
    VideoSender {
        codec,
        payload_size: video_payload_size(packet_size),
        ssrc,
        sequence_number,
        stream_packet_index: 0,
        last_rtp_timestamp: 0,
        frame_index: 1,
        sent_frames: 0,
        waiting_for_keyframe: true,
        skipped_until_keyframe: 0,
    }
}

/// A sender at the start, with a sequence number and a source number drawn at random.
pub fn random_sender(codec: RtspCodec, packet_size: usize) -> (r: VideoSender)
    ensures
        r.wf(),
        r == (VideoSender {
            codec,
            payload_size: payload_size_of(packet_size),
            ssrc: r.ssrc,
            sequence_number: r.sequence_number,
            stream_packet_index: 0,
            last_rtp_timestamp: 0,
            frame_index: 1,
            sent_frames: 0,
            waiting_for_keyframe: true,
            skipped_until_keyframe: 0,
        }),
{
    let sequence_number: u16 = random_u16();
    let ssrc: u32 = random_u32();
    new_sender(codec, packet_size, sequence_number, ssrc)
}

/// Whether a sender takes up a frame: one of its codec, and the first a key frame.
pub open spec fn takes_frame(s: VideoSender, frame: EncodedVideoFrame) -> bool {
    codec_matches(frame.codec, s.codec) && (frame.is_keyframe || !s.waiting_for_keyframe)
}

/// What the packets of the next frame have in common.
pub open spec fn sender_base(s: VideoSender, frame: EncodedVideoFrame) -> PacketBase {
    PacketBase {
        frame_index: s.frame_index,
        rtp_timestamp: next_timestamp(frame.pts_ms, s.last_rtp_timestamp, frame.duration_ns),
        ssrc: s.ssrc,
        sequence_number: s.sequence_number,
        stream_packet_index: s.stream_packet_index,
    }
}

/// The packets that a sender cuts the next frame into.
pub open spec fn sender_packets(s: VideoSender, frame: EncodedVideoFrame) -> Seq<Seq<u8>> {
    frame_packets(
        frame.data@,
        frame.is_keyframe,
        s.payload_size as nat,
        sender_base(s, frame),
    )
}

/// One more, up to the greatest number.
pub open spec fn counted(n: u64) -> u64 {
    if n == u64::MAX {
        n
    } else {
        (n + 1) as u64
    }
}

/// Whether a key frame is asked for after so many frames.
pub open spec fn asks_for_keyframe(sent: u64) -> bool {
    sent <= GAMESTREAM_STARTUP_KEYFRAME_INTERVAL_FRAMES * GAMESTREAM_STARTUP_KEYFRAME_REQUESTS
        && sent % GAMESTREAM_STARTUP_KEYFRAME_INTERVAL_FRAMES == 0
}

/// The sender's state after a frame.
pub open spec fn after_frame(s: VideoSender, frame: EncodedVideoFrame) -> VideoSender {
    if !codec_matches(frame.codec, s.codec) {
        s
    } else if !takes_frame(s, frame) {
        VideoSender { skipped_until_keyframe: counted(s.skipped_until_keyframe), ..s }
    } else {
        let count = sender_packets(s, frame).len();
        VideoSender {
            sequence_number: ((s.sequence_number + count) % 0x1_0000) as u16,
            stream_packet_index: ((s.stream_packet_index + count) % 0x1_0000_0000) as u32,
            last_rtp_timestamp: next_timestamp(
                frame.pts_ms,
                s.last_rtp_timestamp,
                frame.duration_ns,
            ),
            frame_index: if s.frame_index == u32::MAX {
                1
            } else {
                (s.frame_index + 1) as u32
            },
            sent_frames: counted(s.sent_frames),
            waiting_for_keyframe: false,
            ..s
        }
    }
}

/// Takes up a frame: cuts it into packets, or passes over it.
pub fn send_frame(sender: &mut VideoSender, frame: &EncodedVideoFrame) -> (r: SendStep)
    requires
        old(sender).wf(),
    ensures
        final(sender).wf(),
        *final(sender) == after_frame(*old(sender), *frame),
        r.taken == takes_frame(*old(sender), *frame),
        packet_views(r.packets@) == (if r.taken {
            sender_packets(*old(sender), *frame)
        } else {
            Seq::empty()
        }),
        r.request_keyframe == (r.taken && asks_for_keyframe(final(sender).sent_frames)),
{
    if !is_frame_codec_match(frame, sender.codec) {
        let packets: Vec<Vec<u8>> = Vec::new();
        assert(packet_views(packets@) == Seq::<Seq<u8>>::empty());
        return SendStep { packets, taken: false, request_keyframe: false };
    }
    if sender.waiting_for_keyframe && !frame.is_keyframe {
        let packets: Vec<Vec<u8>> = Vec::new();
        assert(packet_views(packets@) == Seq::<Seq<u8>>::empty());
        sender.skipped_until_keyframe = sender.skipped_until_keyframe.saturating_add(1);
        return SendStep { packets, taken: false, request_keyframe: false };
    }
    sender.waiting_for_keyframe = false;
    let mut last: u32 = sender.last_rtp_timestamp;
    let rtp_timestamp: u32 = monotonic_rtp_timestamp(frame.pts_ms, &mut last, frame.duration_ns);
    sender.last_rtp_timestamp = last;
    let base = PacketBase {
        frame_index: sender.frame_index,
        rtp_timestamp,
        ssrc: sender.ssrc,
        sequence_number: sender.sequence_number,
        stream_packet_index: sender.stream_packet_index,
    };
    let packets = packetize_frame(frame, sender.payload_size, &base);
    assert(packet_views(packets@).len() == packets@.len());
    proof {
        let payload = frame_payload(frame.data@, frame.is_keyframe, sender.payload_size as nat);
        lemma_pieces(payload.len() as int, sender.payload_size as int, 0);
        assert(packets@.len() <= MAX_FRAME_PACKETS);
    }
    let count: u32 = packets.len() as u32;
    sender.sequence_number = ((sender.sequence_number as u32 + count) % 0x1_0000) as u16;
    sender.stream_packet_index = sender.stream_packet_index.wrapping_add(count);
    sender.sent_frames = sender.sent_frames.saturating_add(1);
    sender.frame_index = if sender.frame_index == u32::MAX {
        1
    } else {
        sender.frame_index + 1
    };
    let request_keyframe = sender.sent_frames <= GAMESTREAM_STARTUP_KEYFRAME_INTERVAL_FRAMES
        * GAMESTREAM_STARTUP_KEYFRAME_REQUESTS && sender.sent_frames
        % GAMESTREAM_STARTUP_KEYFRAME_INTERVAL_FRAMES == 0;
    SendStep { packets, taken: true, request_keyframe }
}

// ---------------------------------------------------------------- pings

/// Whether a packet is one with which a client shows where it listens: it holds the session's
/// payload, or is the plain word.
pub open spec fn is_ping(packet: Seq<u8>, ping_payload: Seq<char>) -> bool {
    ||| ping_payload.len() > 0 && (utf8_decoded(packet) matches Some(text) && contains(
        text,
        ping_payload,
    ))
    ||| packet == seq![80u8, 73u8, 78u8, 71u8]
}

/// Whether a packet shows where the client listens.
pub fn is_video_ping(packet: &[u8], ping_payload: &str) -> (r: bool)
    ensures
        r == is_ping(packet@, ping_payload@),
{
    let wanted = str_chars(ping_payload);
    if wanted.len() > 0 {
        if let Some(text) = read_utf8(packet) {
            let chars = str_chars(text);
            if has_text(chars.as_slice(), wanted.as_slice()) {
                return true;
            }
        }
    }
    let mut plain: Vec<u8> = Vec::new();
    plain.push(80);
    plain.push(73);
    plain.push(78);
    plain.push(71);
    assert(plain@ == seq![80u8, 73u8, 78u8, 71u8]);
    same_bytes(packet, plain.as_slice())
}

// ---------------------------------------------------------------- laws

/// What several packets carry, put together.
pub open spec fn carried_together(packets: Seq<Seq<u8>>) -> Seq<u8>
    decreases packets.len(),
{
    if packets.len() == 0 {
        Seq::empty()
    } else {
        carried_together(packets.drop_last()) + packets.last().skip(PACKET_OVERHEAD as int)
    }
}

proof fn lemma_packet_parts(base: PacketBase, i: int, total: nat, carried: Seq<u8>)
    ensures
        packet_bytes(base, i, total, carried).len() == PACKET_OVERHEAD + carried.len(),
        packet_bytes(base, i, total, carried).skip(PACKET_OVERHEAD as int) == carried,
        packet_bytes(base, i, total, carried).subrange(2, 4) == be16(
            ((base.sequence_number + i) % 0x1_0000) as u16,
        ),
{
    assert(packet_bytes(base, i, total, carried).skip(PACKET_OVERHEAD as int) =~= carried);
    assert(packet_bytes(base, i, total, carried).subrange(2, 4) =~= be16(
        ((base.sequence_number + i) % 0x1_0000) as u16,
    ));
}

proof fn lemma_carried(
    payload: Seq<u8>,
    size: nat,
    total: nat,
    packets: Seq<Seq<u8>>,
    n: int,
)
    requires
        payload.len() > 0,
        size > 0,
        total == piece_count(payload.len(), size),
        packets.len() == total,
        0 <= n <= total,
        forall|i: int|
            0 <= i < total ==> (#[trigger] packets[i]).skip(PACKET_OVERHEAD as int) == piece(
                payload,
                size,
                i,
            ),
    ensures
        carried_together(packets.take(n)) == payload.take(
            if n * size < payload.len() {
                n * size
            } else {
                payload.len() as int
            },
        ),
    decreases n,
{
    lemma_pieces(payload.len() as int, size as int, n);
    if n == 0 {
        assert(n * size == 0) by (nonlinear_arith)
            requires
                n == 0,
        ;
        assert(packets.take(0) == Seq::<Seq<u8>>::empty());
        assert(payload.take(0) == Seq::<u8>::empty());
    } else {
        lemma_carried(payload, size, total, packets, n - 1);
        lemma_pieces(payload.len() as int, size as int, n - 1);
        assert(packets.take(n).drop_last() == packets.take(n - 1));
        assert(packets.take(n).last() == packets[n - 1]);
        let carried = piece(payload, size, n - 1);
        assert(packets[n - 1].skip(PACKET_OVERHEAD as int) == carried);
        let start = (n - 1) * size;
        assert(n * size == start + size);
        let end = if n * size < payload.len() {
            n * size
        } else {
            payload.len() as int
        };
        assert(carried_together(packets.take(n - 1)) == payload.take(start));
        assert(payload.take(end) == payload.take(start) + carried);
    }
}

/// The packets of a frame carry its header and its data, whole and in order, wherever the frame
/// does not take too many packets.
pub proof fn packets_carry_the_frame(
    data: Seq<u8>,
    is_keyframe: bool,
    payload_size: nat,
    base: PacketBase,
)
    requires
        payload_size > 0,
        piece_count(
            frame_payload(data, is_keyframe, payload_size).len(),
            payload_size,
        ) <= MAX_FRAME_PACKETS,
    ensures
        carried_together(frame_packets(data, is_keyframe, payload_size, base)) == frame_payload(
            data,
            is_keyframe,
            payload_size,
        ),
        frame_payload(data, is_keyframe, payload_size).skip(8) == data,
{
    let payload = frame_payload(data, is_keyframe, payload_size);
    let total = piece_count(payload.len(), payload_size);
    let packets = frame_packets(data, is_keyframe, payload_size, base);
    assert(payload.len() == 8 + data.len());
    assert forall|i: int| 0 <= i < total implies (#[trigger] packets[i]).skip(
        PACKET_OVERHEAD as int,
    ) == piece(payload, payload_size, i) by {
        lemma_packet_parts(base, i, total, piece(payload, payload_size, i));
    }
    lemma_carried(payload, payload_size, total, packets, total as int);
    lemma_pieces(payload.len() as int, payload_size as int, total as int);
    assert(packets.take(total as int) == packets);
    assert(payload.take(payload.len() as int) == payload);
    assert(payload.skip(8) == data);
}

/// Every packet of a frame but the last is full, and none is larger than the session's packet
/// size allows.
pub proof fn packets_fit(
    data: Seq<u8>,
    is_keyframe: bool,
    payload_size: nat,
    base: PacketBase,
    i: int,
)
    requires
        payload_size > 0,
        0 <= i < frame_packets(data, is_keyframe, payload_size, base).len(),
    ensures
        ({
            let packets = frame_packets(data, is_keyframe, payload_size, base);
            &&& PACKET_OVERHEAD < packets[i].len() <= PACKET_OVERHEAD + payload_size
            &&& i + 1 < packets.len() ==> packets[i].len() == PACKET_OVERHEAD + payload_size
        }),
{
    let payload = frame_payload(data, is_keyframe, payload_size);
    assert(payload.len() == 8 + data.len());
    lemma_pieces(payload.len() as int, payload_size as int, i);
    lemma_pieces(payload.len() as int, payload_size as int, i + 1);
    let total = piece_count(payload.len(), payload_size);
    lemma_packet_parts(base, i, total, piece(payload, payload_size, i));
}

/// The frames of a stream share one run of sequence numbers: the first packet of the next frame
/// follows the last packet of this one.
pub proof fn sequence_numbers_run_on(s: VideoSender, frame: EncodedVideoFrame, i: int)
    requires
        s.wf(),
        takes_frame(s, frame),
        0 <= i < sender_packets(s, frame).len(),
    ensures
        sender_packets(s, frame)[i].subrange(2, 4) == be16(
            ((s.sequence_number + i) % 0x1_0000) as u16,
        ),
        after_frame(s, frame).sequence_number == (s.sequence_number + sender_packets(
            s,
            frame,
        ).len()) % 0x1_0000,
{
    let size = s.payload_size as nat;
    let payload = frame_payload(frame.data@, frame.is_keyframe, size);
    let total = piece_count(payload.len(), size);
    lemma_packet_parts(sender_base(s, frame), i, total, piece(payload, size, i));
}

/// Nothing is sent before the first key frame, and a frame of another codec changes nothing.
pub proof fn stream_starts_on_a_keyframe(s: VideoSender, frame: EncodedVideoFrame)
    requires
        s.wf(),
    ensures
        s.waiting_for_keyframe && takes_frame(s, frame) ==> frame.is_keyframe,
        !codec_matches(frame.codec, s.codec) ==> after_frame(s, frame) == s,
        s.waiting_for_keyframe && !takes_frame(s, frame) ==> after_frame(
            s,
            frame,
        ).waiting_for_keyframe,
        !s.waiting_for_keyframe ==> !after_frame(s, frame).waiting_for_keyframe,
        after_frame(s, frame).frame_index >= 1,
{
}

/// The bits of a byte, read off by division.
proof fn lemma_flag_bits(x: u8)
    by (bit_vector)
    ensures
        (x & 1 != 0) == (x % 2 == 1),
        (x & 2 != 0) == (x / 2 % 2 == 1),
        (x & 4 != 0) == (x / 4 % 2 == 1),
        (x & 0xf8 == 0) == (x < 8),
{
}

proof fn lemma_flags(i: int, total: nat)
    requires
        0 <= i < total,
    ensures
        packet_flags(i, total) / 4 % 2 == 1 <==> i == 0,
        packet_flags(i, total) / 2 % 2 == 1 <==> i == total - 1,
        packet_flags(i, total) % 2 == 1,
        packet_flags(i, total) < 8,
{
}

/// The receiver can tell where a frame begins and ends: of all packets of a frame only the first
/// has the flag of a beginning, only the last has the flag of an end, and every one has the flag
/// of picture data. No packet has another flag.
pub proof fn flags_mark_the_ends_of_a_frame(
    data: Seq<u8>,
    is_keyframe: bool,
    payload_size: nat,
    base: PacketBase,
    i: int,
)
    requires
        payload_size > 0,
        0 <= i < frame_packets(data, is_keyframe, payload_size, base).len(),
    ensures
        ({
            let packets = frame_packets(data, is_keyframe, payload_size, base);
            &&& packets[i][24] & 4 != 0 <==> i == 0
            &&& packets[i][24] & 2 != 0 <==> i == packets.len() - 1
            &&& packets[i][24] & 1 != 0
            &&& packets[i][24] & 0xf8 == 0
        }),
{
    let packets = frame_packets(data, is_keyframe, payload_size, base);
    let total = piece_count(frame_payload(data, is_keyframe, payload_size).len(), payload_size);
    assert(packets.len() == total);
    let flag = packets[i][24];
    assert(flag == packet_flags(i, total));
    lemma_flag_bits(flag);
    lemma_flags(i, total);
}

/// Every packet begins with a header of fixed places. Of a frame's packets the time stamp, the
/// source number and the frame number are the same; the two packet numbers count on by one from
/// packet to packet and wrap around; the last four bytes tell the packet's place and how many
/// packets there are.
pub proof fn every_packet_has_its_header(
    data: Seq<u8>,
    is_keyframe: bool,
    payload_size: nat,
    base: PacketBase,
    i: int,
)
    requires
        payload_size > 0,
        0 <= i < frame_packets(data, is_keyframe, payload_size, base).len(),
    ensures
        ({
            let packets = frame_packets(data, is_keyframe, payload_size, base);
            let p = packets[i];
            &&& p[0] == 0x90 && p[1] == 0
            &&& p[2] * 256 + p[3] == (base.sequence_number + i) % 0x1_0000
            &&& p[4] * 0x100_0000 + p[5] * 0x1_0000 + p[6] * 256 + p[7] == base.rtp_timestamp
            &&& p[8] * 0x100_0000 + p[9] * 0x1_0000 + p[10] * 256 + p[11] == base.ssrc
            &&& p[12] == 0 && p[13] == 0 && p[14] == 0 && p[15] == 0
            &&& p[16] == 0
            &&& p[17] + p[18] * 256 + p[19] * 0x1_0000 == (base.stream_packet_index + i)
                % 0x100_0000
            &&& p[20] + p[21] * 256 + p[22] * 0x1_0000 + p[23] * 0x100_0000 == base.frame_index
            &&& p[25] == 0 && p[26] == 0x10 && p[27] == 0
            &&& p[28] + p[29] * 256 + p[30] * 0x1_0000 + p[31] * 0x100_0000 == i * 0x1000
                + packets.len() * 0x40_0000
        }),
{
    let packets = frame_packets(data, is_keyframe, payload_size, base);
    let payload = frame_payload(data, is_keyframe, payload_size);
    let total = piece_count(payload.len(), payload_size);
    let sequence = ((base.sequence_number + i) % 0x1_0000) as u16;
    let index = (((base.stream_packet_index + i) % 0x100_0000) * 256) as u32;
    let place = (i * 4096 + total * 0x40_0000) as u32;
    assert(packets.len() == total);
    assert(place == i * 4096 + total * 0x40_0000);
    assert(index == ((base.stream_packet_index + i) % 0x100_0000) * 256);
    lemma_packet_places(base, i, total, piece(payload, payload_size, i));
    lemma_header_numbers(
        packets[i],
        sequence,
        base.rtp_timestamp,
        base.ssrc,
        index,
        base.frame_index,
        place,
    );
    lemma_shifted_index(packets[i][16], packets[i][17], packets[i][18], packets[i][19], index);
}

proof fn lemma_shifted_index(a: u8, b: u8, c: u8, d: u8, index: u32)
    requires
        a + b * 256 + c * 0x1_0000 + d * 0x100_0000 == index,
        index % 256 == 0,
    ensures
        a == 0,
        b + c * 256 + d * 0x1_0000 == index / 256,
{
}

proof fn lemma_header_numbers(
    p: Seq<u8>,
    sequence: u16,
    stamp: u32,
    source: u32,
    index: u32,
    frame: u32,
    place: u32,
)
    requires
        p[2] == be16(sequence)[0] && p[3] == be16(sequence)[1],
        p[4] == be32(stamp)[0] && p[5] == be32(stamp)[1] && p[6] == be32(stamp)[2] && p[7] == be32(
            stamp,
        )[3],
        p[8] == be32(source)[0] && p[9] == be32(source)[1] && p[10] == be32(source)[2] && p[11]
            == be32(source)[3],
        p[16] == le32(index)[0] && p[17] == le32(index)[1] && p[18] == le32(index)[2] && p[19]
            == le32(index)[3],
        p[20] == le32(frame)[0] && p[21] == le32(frame)[1] && p[22] == le32(frame)[2] && p[23]
            == le32(frame)[3],
        p[28] == le32(place)[0] && p[29] == le32(place)[1] && p[30] == le32(place)[2] && p[31]
            == le32(place)[3],
    ensures
        p[2] * 256 + p[3] == sequence,
        p[4] * 0x100_0000 + p[5] * 0x1_0000 + p[6] * 256 + p[7] == stamp,
        p[8] * 0x100_0000 + p[9] * 0x1_0000 + p[10] * 256 + p[11] == source,
        p[16] + p[17] * 256 + p[18] * 0x1_0000 + p[19] * 0x100_0000 == index,
        p[20] + p[21] * 256 + p[22] * 0x1_0000 + p[23] * 0x100_0000 == frame,
        p[28] + p[29] * 256 + p[30] * 0x1_0000 + p[31] * 0x100_0000 == place,
{
    bytes_write_their_number(sequence, stamp);
    bytes_write_their_number(sequence, source);
    bytes_write_their_number(sequence, index);
    bytes_write_their_number(sequence, frame);
    bytes_write_their_number(sequence, place);
}

proof fn lemma_packet_places(base: PacketBase, i: int, total: nat, carried: Seq<u8>)
    ensures
        ({
            let p = packet_bytes(base, i, total, carried);
            let sequence = be16(((base.sequence_number + i) % 0x1_0000) as u16);
            let stamp = be32(base.rtp_timestamp);
            let source = be32(base.ssrc);
            let index = le32((((base.stream_packet_index + i) % 0x100_0000) * 256) as u32);
            let frame = le32(base.frame_index);
            let place = le32((i * 4096 + total * 0x40_0000) as u32);
            &&& p[0] == 0x90 && p[1] == 0
            &&& p[2] == sequence[0] && p[3] == sequence[1]
            &&& p[4] == stamp[0] && p[5] == stamp[1] && p[6] == stamp[2] && p[7] == stamp[3]
            &&& p[8] == source[0] && p[9] == source[1] && p[10] == source[2] && p[11] == source[3]
            &&& p[12] == 0 && p[13] == 0 && p[14] == 0 && p[15] == 0
            &&& p[16] == index[0] && p[17] == index[1] && p[18] == index[2] && p[19] == index[3]
            &&& p[20] == frame[0] && p[21] == frame[1] && p[22] == frame[2] && p[23] == frame[3]
            &&& p[25] == 0 && p[26] == 0x10 && p[27] == 0
            &&& p[28] == place[0] && p[29] == place[1] && p[30] == place[2] && p[31] == place[3]
        }),
{
}

proof fn lemma_last_piece(len: int, size: int)
    requires
        len > 0,
        size > 0,
    ensures
        ({
            let last = len - (piece_count(len as nat, size as nat) - 1) * size;
            &&& 0 < last <= size
            &&& last < size ==> len % size == last
            &&& last == size ==> len % size == 0
        }),
{
    let q = (len - 1) / size;
    let r = (len - 1) % size;
    lemma_fundamental_div_mod(len - 1, size);
    assert(size * q == q * size) by (nonlinear_arith);
    assert(0 <= r < size);
    assert(len == q * size + (r + 1));
    if r + 1 < size {
        vstd::arithmetic::div_mod::lemma_fundamental_div_mod_converse(len, size, q, r + 1);
    } else {
        assert(len == (q + 1) * size + 0) by (nonlinear_arith)
            requires
                len == q * size + size,
        ;
        vstd::arithmetic::div_mod::lemma_fundamental_div_mod_converse(len, size, q + 1, 0);
    }
}

/// What a frame's packets carry begins with eight bytes that tell the kind of the frame and how
/// much the last packet carries; the frame's data follow. A frame has packets exactly where 1023
/// of them can hold all of it.
pub proof fn frame_header_tells_the_last_packet(
    data: Seq<u8>,
    is_keyframe: bool,
    payload_size: nat,
    base: PacketBase,
)
    requires
        payload_size > 0,
    ensures
        ({
            let packets = frame_packets(data, is_keyframe, payload_size, base);
            let carried = carried_together(packets);
            &&& packets.len() > 0 <==> data.len() + 8 <= 1023 * payload_size
            &&& packets.len() > 0 ==> {
                let last = packets.last().len() - 32;
                &&& carried.len() == data.len() + 8
                &&& carried[0] == 1 && carried[1] == 0 && carried[2] == 0
                &&& carried[3] == if is_keyframe {
                    2u8
                } else {
                    1u8
                }
                &&& carried[4] + carried[5] * 256 == if last < 0xffff {
                    last
                } else {
                    0xffffint
                }
                &&& carried[6] == 0 && carried[7] == 0
                &&& forall|k: int| 0 <= k < data.len() ==> carried[8 + k] == #[trigger] data[k]
            }
        }),
{
    let packets = frame_packets(data, is_keyframe, payload_size, base);
    let payload = frame_payload(data, is_keyframe, payload_size);
    let total = piece_count(payload.len(), payload_size);
    assert(payload.len() == 8 + data.len());
    lemma_pieces(payload.len() as int, payload_size as int, 1023);
    lemma_pieces(payload.len() as int, payload_size as int, 0);
    if packets.len() > 0 {
        packets_carry_the_frame(data, is_keyframe, payload_size, base);
        lemma_last_piece(payload.len() as int, payload_size as int);
        let last = total - 1;
        lemma_pieces(payload.len() as int, payload_size as int, last);
        lemma_pieces(payload.len() as int, payload_size as int, total as int);
        lemma_packet_parts(base, last, total, piece(payload, payload_size, last));
        let stated = last_payload_len(data.len(), payload_size) as u16;
        assert(payload[4] == le16(stated)[0] && payload[5] == le16(stated)[1]);
        assert forall|k: int| 0 <= k < data.len() implies payload[8 + k] == #[trigger] data[k] by {
            assert(payload.skip(8)[k] == payload[8 + k]);
        }
    }
}

/// A presentation time is counted in ninety ticks to the millisecond and taken wherever it goes
/// forward; otherwise the time stamp goes one step on from the last one, and wraps around.
pub proof fn time_stamps_follow_the_clock(pts_ms: i64, last: u32, duration_ns: u128)
    ensures
        0 < pts_ms && last < pts_ms * 90 < 0x1_0000_0000 ==> next_timestamp(
            pts_ms,
            last,
            duration_ns,
        ) == pts_ms * 90,
        pts_ms <= 0 || pts_ms * 90 <= last ==> next_timestamp(pts_ms, last, duration_ns) == (last
            + timestamp_step(duration_ns)) % 0x1_0000_0000,
        pts_ms > 0 ==> next_timestamp(pts_ms, last, duration_ns) == (pts_ms * 90) % 0x1_0000_0000
            || next_timestamp(pts_ms, last, duration_ns) == (last + timestamp_step(duration_ns))
            % 0x1_0000_0000,
{
}

/// A step is the length of the frame to within half a tick, where that is more than one tick and
/// fits into 32 bits; a longer frame gives a longer step.
pub proof fn a_step_is_the_length_of_the_frame(duration_ns: u128, longer_ns: u128)
    requires
        duration_ns <= longer_ns,
    ensures
        1 <= timestamp_step(duration_ns) <= timestamp_step(longer_ns),
        1 < timestamp_step(duration_ns) < u32::MAX ==> -1_000_000_000 <= 2 * (timestamp_step(
            duration_ns,
        ) * 1_000_000_000 - duration_ns * 90_000) <= 1_000_000_000,
        timestamp_step(duration_ns) == 1 ==> duration_ns * 60_000 < 1_000_000_000,
        timestamp_step(duration_ns) == u32::MAX ==> duration_ns * 90_000 >= 4_294_967_294_000_000_000,
{
}

/// A packet of a given size holds sixteen bytes of header and the payload, where it has room for
/// both; packets are of 1024 bytes otherwise.
pub proof fn a_payload_fills_its_packet(packet_size: usize)
    ensures
        packet_size > 16 ==> payload_size_of(packet_size) + 16 == packet_size,
        packet_size <= 16 ==> payload_size_of(packet_size) == 1008,
{
}

/// A frame of up to 24 packets goes out in one go. A longer one pauses after the 24th packet and
/// then after every 24 more, but never once all are sent.
pub proof fn pauses_come_every_24_packets(i: int, total: nat)
    requires
        0 <= i < total,
    ensures
        total <= 24 ==> !pauses_after(i, total),
        !pauses_after(total - 1, total),
        i < 23 ==> !pauses_after(i, total),
        total > 24 ==> pauses_after(23, total),
        i + 24 < total - 1 ==> pauses_after(i, total) == pauses_after(i + 24, total),
        pauses_after(i, total) ==> forall|k: int| 0 < k < 24 ==> !#[trigger] pauses_after(i + k, total),
{
    assert((i + 1 + 24) % 24 == (i + 1) % 24);
}

/// The packets of a frame carry the sender's numbers, and the sender's numbers run on: the next
/// frame has the next frame number, which is never zero, and the time stamp that was sent is the
/// one that the next has to exceed. What the stream is made of does not change.
pub proof fn a_sent_frame_moves_the_sender_on(s: VideoSender, frame: EncodedVideoFrame, i: int)
    requires
        s.wf(),
        takes_frame(s, frame),
        0 <= i < sender_packets(s, frame).len(),
    ensures
        ({
            let p = sender_packets(s, frame)[i];
            let next = after_frame(s, frame);
            let count = sender_packets(s, frame).len();
            &&& p[2] * 256 + p[3] == (s.sequence_number + i) % 0x1_0000
            &&& p[4] * 0x100_0000 + p[5] * 0x1_0000 + p[6] * 256 + p[7] == next.last_rtp_timestamp
            &&& p[8] * 0x100_0000 + p[9] * 0x1_0000 + p[10] * 256 + p[11] == s.ssrc
            &&& p[17] + p[18] * 256 + p[19] * 0x1_0000 == (s.stream_packet_index + i) % 0x100_0000
            &&& p[20] + p[21] * 256 + p[22] * 0x1_0000 + p[23] * 0x100_0000 == s.frame_index
            &&& next.sequence_number == (s.sequence_number + count) % 0x1_0000
            &&& next.stream_packet_index == (s.stream_packet_index + count) % 0x1_0000_0000
            &&& next.frame_index == if s.frame_index == u32::MAX {
                1int
            } else {
                s.frame_index + 1
            }
            &&& s.sent_frames < u64::MAX ==> next.sent_frames == s.sent_frames + 1
            &&& !next.waiting_for_keyframe
            &&& next.skipped_until_keyframe == s.skipped_until_keyframe
            &&& next.codec == s.codec && next.payload_size == s.payload_size && next.ssrc == s.ssrc
        }),
{
    every_packet_has_its_header(
        frame.data@,
        frame.is_keyframe,
        s.payload_size as nat,
        sender_base(s, frame),
        i,
    );
}

/// A frame that is not taken up leaves the sender's numbers as they are; a frame of the stream's
/// codec that comes before the first key frame is counted as skipped.
pub proof fn a_frame_that_is_passed_over_changes_no_number(s: VideoSender, frame: EncodedVideoFrame)
    requires
        !takes_frame(s, frame),
    ensures
        ({
            let next = after_frame(s, frame);
            &&& next == (VideoSender { skipped_until_keyframe: next.skipped_until_keyframe, ..s })
            &&& codec_matches(frame.codec, s.codec) && s.skipped_until_keyframe < u64::MAX
                ==> next.skipped_until_keyframe == s.skipped_until_keyframe + 1
            &&& !codec_matches(frame.codec, s.codec) ==> next == s
        }),
{
}

/// A stream carries the frames of its own codec alone, and once it runs it carries all of them.
pub proof fn a_stream_carries_its_own_codec(s: VideoSender, frame: EncodedVideoFrame)
    ensures
        takes_frame(s, frame) ==> (frame.codec == VideoEncoderType::H264 && s.codec
            == RtspCodec::H264) || (frame.codec == VideoEncoderType::H265 && s.codec
            == RtspCodec::H265),
        frame.codec == VideoEncoderType::H264 && s.codec == RtspCodec::H264 && (frame.is_keyframe
            || !s.waiting_for_keyframe) ==> takes_frame(s, frame),
        frame.codec == VideoEncoderType::H265 && s.codec == RtspCodec::H265 && (frame.is_keyframe
            || !s.waiting_for_keyframe) ==> takes_frame(s, frame),
{
}

/// A key frame is asked for after the 30th, the 60th and the 90th frame, and not again.
pub proof fn key_frames_are_asked_for_three_times(sent: u64)
    requires
        sent > 0,
    ensures
        asks_for_keyframe(sent) <==> sent == 30 || sent == 60 || sent == 90,
{
}

/// A packet that holds the session's payload anywhere in its text is a ping, and so is the plain
/// word; a packet that is no text is none.
pub proof fn a_ping_holds_the_payload(before: Seq<char>, payload: Seq<char>, after: Seq<char>)
    requires
        payload.len() > 0,
    ensures
        is_ping(encode_utf8(before + payload + after), payload),
        is_ping(encode_utf8("PING"@), payload),
        forall|packet: Seq<u8>| #![trigger is_ping(packet, payload)]
            !valid_utf8(packet) && packet.len() != 4 ==> !is_ping(packet, payload),
        forall|packet: Seq<u8>| #![trigger is_ping(packet, Seq::<char>::empty())]
            packet != encode_utf8("PING"@) ==> !is_ping(packet, Seq::<char>::empty()),
{
    let text = before + payload + after;
    encode_utf8_valid_utf8(text);
    encode_utf8_decode_utf8(text);
    assert(utf8_decoded(encode_utf8(text)) == Some(text));
    assert(text.subrange(before.len() as int, (before.len() + payload.len()) as int) =~= payload);
    assert(crate::text::occurs_at(text, payload, before.len() as int));
    reveal_strlit("PING");
    lemma_plain_ping();
}

proof fn lemma_plain_ping()
    ensures
        encode_utf8("PING"@) == seq![80u8, 73u8, 78u8, 71u8],
{
    reveal_strlit("PING");
    let word = "PING"@;
    assert(vstd::utf8::is_ascii_chars(word));
    vstd::utf8::is_ascii_chars_encode_utf8(word);
    assert(encode_utf8(word) =~= seq![80u8, 73u8, 78u8, 71u8]);
}

} // verus!
