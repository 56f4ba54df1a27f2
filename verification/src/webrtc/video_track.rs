//! The video track that a browser is sent.
use crate::sunshine::crypto::{random_u16, random_u32};
use crate::text::owned;
use crate::video::format::Resolution;
use crate::webrtc::hdr::{insert_h265_hdr10_sei, with_hdr10_sei};
use vstd::prelude::*;
use vstd::slice::slice_to_vec;

verus! {

/// The most bytes of a packet's payload.
pub const RTP_MTU: usize = 1200;

/// The payload number of H.265 with eight bits.
pub const H265_MAIN_PAYLOAD_TYPE: u8 = 49;

/// The payload number of H.265 with ten bits.
pub const H265_MAIN10_PAYLOAD_TYPE: u8 = 51;

/// The parameters of H.265 with eight bits.
pub const H265_MAIN_FMTP: &'static str = "level-id=180;profile-id=1;tier-flag=0;tx-mode=SRST";

/// The parameters of H.265 with ten bits.
pub const H265_MAIN10_FMTP: &'static str = "level-id=180;profile-id=2;tier-flag=0;tx-mode=SRST";

/// The codec of a track.
#[derive(Debug, Clone, Copy, PartialEq, Eq, Hash, Structural)]
pub enum VideoCodec {
    H264,
    H265,
    VP8,
    VP9,
}

impl VideoCodec {
    /// The media type of a codec.
    pub open spec fn media_type(self) -> Seq<char> {
        match self {
            VideoCodec::H264 => "video/H264"@,
            VideoCodec::H265 => "video/H265"@,
            VideoCodec::VP8 => "video/VP8"@,
            VideoCodec::VP9 => "video/VP9"@,
        }
    }

    /// The media type.
    pub fn mime_type(&self) -> (r: &'static str)
        ensures
            r@ == self.media_type(),
    {
        match self {
            VideoCodec::H264 => "video/H264",
            VideoCodec::H265 => "video/H265",
            VideoCodec::VP8 => "video/VP8",
            VideoCodec::VP9 => "video/VP9",
        }
    }

    /// The clock of the track, in ticks per second.
    pub fn clock_rate(&self) -> (r: u32)
        ensures
            r == 90000,
    {
        90000
    }

    /// The payload number where none was agreed on.
    pub fn default_payload_type(&self) -> (r: u8)
        ensures
            r == (match *self {
                VideoCodec::H264 => 96u8,
                VideoCodec::VP8 => 97u8,
                VideoCodec::VP9 => 98u8,
                VideoCodec::H265 => H265_MAIN_PAYLOAD_TYPE,
            }),
    {
        match self {
            VideoCodec::H264 => 96,
            VideoCodec::VP8 => 97,
            VideoCodec::VP9 => 98,
            VideoCodec::H265 => H265_MAIN_PAYLOAD_TYPE,
        }
    }

    /// The parameters of a codec.
    pub open spec fn fmtp(self) -> Seq<char> {
        match self {
            VideoCodec::H264 =>
                "level-asymmetry-allowed=1;packetization-mode=1;profile-level-id=42e01f"@,
            VideoCodec::H265 => H265_MAIN_FMTP@,
            VideoCodec::VP8 => Seq::empty(),
            VideoCodec::VP9 => "profile-id=0"@,
        }
    }

    /// The parameters, as a session description gives them.
    pub fn sdp_fmtp(&self) -> (r: String)
        ensures
            r@ == self.fmtp(),
    {
        match self {
            VideoCodec::H264 => owned(
                "level-asymmetry-allowed=1;packetization-mode=1;profile-level-id=42e01f",
            ),
            VideoCodec::H265 => owned(H265_MAIN_FMTP),
            VideoCodec::VP8 => {
                let empty = String::new();
                assert(empty@ == Seq::<char>::empty());
                empty
            },
            VideoCodec::VP9 => owned("profile-id=0"),
        }
    }

    /// What a codec is called.
    pub open spec fn label(self) -> Seq<char> {
        match self {
            VideoCodec::H264 => "H.264"@,
            VideoCodec::H265 => "H.265/HEVC"@,
            VideoCodec::VP8 => "VP8"@,
            VideoCodec::VP9 => "VP9"@,
        }
    }

    /// What the codec is called.
    pub fn display_name(&self) -> (r: &'static str)
        ensures
            r@ == self.label(),
    {
        match self {
            VideoCodec::H264 => "H.264",
            VideoCodec::H265 => "H.265/HEVC",
            VideoCodec::VP8 => "VP8",
            VideoCodec::VP9 => "VP9",
        }
    }
}

/// How a track is set up.
#[derive(Debug, Clone)]
pub struct UniversalVideoTrackConfig {
    pub track_id: String,
    pub stream_id: String,
    pub codec: VideoCodec,
    pub resolution: Resolution,
    pub bitrate_kbps: u32,
    pub fps: u32,
    pub h265_main10: bool,
}

/// Whether a setup is that of a codec, a size and rates.
pub open spec fn is_config(
    c: UniversalVideoTrackConfig,
    codec: VideoCodec,
    resolution: Resolution,
    bitrate_kbps: u32,
    fps: u32,
) -> bool {
    &&& c.track_id@ == "video0"@
    &&& c.stream_id@ == "one-kvm-stream"@
    &&& c.codec == codec
    &&& c.resolution == resolution
    &&& c.bitrate_kbps == bitrate_kbps
    &&& c.fps == fps
    &&& !c.h265_main10
}

impl Default for UniversalVideoTrackConfig {
    fn default() -> (r: Self)
        ensures
            is_config(
                r,
                VideoCodec::H264,
                Resolution { width: 1280, height: 720 },
                8000,
                30,
            ),
    {
        UniversalVideoTrackConfig {
            track_id: owned("video0"),
            stream_id: owned("one-kvm-stream"),
            codec: VideoCodec::H264,
            resolution: Resolution::hd720(),
            bitrate_kbps: 8000,
            fps: 30,
            h265_main10: false,
        }
    }
}

impl UniversalVideoTrackConfig {
    fn of(codec: VideoCodec, resolution: Resolution, bitrate_kbps: u32, fps: u32) -> (r: Self)
        ensures
            is_config(r, codec, resolution, bitrate_kbps, fps),
    {
        let base = UniversalVideoTrackConfig::default();
        UniversalVideoTrackConfig {
            track_id: base.track_id,
            stream_id: base.stream_id,
            codec,
            resolution,
            bitrate_kbps,
            fps,
            h265_main10: base.h265_main10,
        }
    }

    /// An H.264 track.
    pub fn h264(resolution: Resolution, bitrate_kbps: u32, fps: u32) -> (r: Self)
        ensures
            is_config(r, VideoCodec::H264, resolution, bitrate_kbps, fps),
    {
        Self::of(VideoCodec::H264, resolution, bitrate_kbps, fps)
    }

    /// An H.265 track.
    pub fn h265(resolution: Resolution, bitrate_kbps: u32, fps: u32) -> (r: Self)
        ensures
            is_config(r, VideoCodec::H265, resolution, bitrate_kbps, fps),
    {
        Self::of(VideoCodec::H265, resolution, bitrate_kbps, fps)
    }

    /// A VP8 track.
    pub fn vp8(resolution: Resolution, bitrate_kbps: u32, fps: u32) -> (r: Self)
        ensures
            is_config(r, VideoCodec::VP8, resolution, bitrate_kbps, fps),
    {
        Self::of(VideoCodec::VP8, resolution, bitrate_kbps, fps)
    }

    /// A VP9 track.
    pub fn vp9(resolution: Resolution, bitrate_kbps: u32, fps: u32) -> (r: Self)
        ensures
            is_config(r, VideoCodec::VP9, resolution, bitrate_kbps, fps),
    {
        Self::of(VideoCodec::VP9, resolution, bitrate_kbps, fps)
    }

    /// Whether frames are cut into packets here, and not by the track itself: those of H.265 are.
    pub fn sends_packets(&self) -> (r: bool)
        ensures
            r == (self.codec == VideoCodec::H265),
    {
        self.codec == VideoCodec::H265
    }

    /// The parameters of the track, as a session description gives them.
    pub fn track_fmtp(&self) -> (r: String)
        ensures
            r@ == (if self.codec == VideoCodec::H265 && self.h265_main10 {
                H265_MAIN10_FMTP@
            } else {
                self.codec.fmtp()
            }),
    {
        if self.codec == VideoCodec::H265 && self.h265_main10 {
            owned(H265_MAIN10_FMTP)
        } else {
            self.codec.sdp_fmtp()
        }
    }

    /// How long a frame lasts, in microseconds.
    pub fn frame_duration_us(&self) -> (r: u64)
        ensures
            r == 1_000_000int / (if self.fps == 0 {
                1int
            } else {
                self.fps as int
            }),
    {
        let fps: u32 = if self.fps == 0 {
            1
        } else {
            self.fps
        };
        1_000_000 / fps as u64
    }

    /// Whether a frame is sent at all: an empty one is not.
    pub fn sends_frame(&self, data: &[u8]) -> (r: bool)
        ensures
            r == (data@.len() > 0),
    {
        data.len() > 0
    }

    /// What is sent of a frame: the key frames of a ten-bit H.265 track carry the HDR10 message.
    pub fn frame_to_send(&self, data: &[u8], is_keyframe: bool) -> (r: Vec<u8>)
        ensures
            r@ == (if self.codec == VideoCodec::H265 && self.h265_main10 && is_keyframe
                && data@.len() > 0 {
                with_hdr10_sei(data@)
            } else {
                data@
            }),
    {
        if self.codec == VideoCodec::H265 && self.h265_main10 && is_keyframe && data.len() > 0 {
            insert_h265_hdr10_sei(data)
        } else {
            slice_to_vec(data)
        }
    }
}

// ---------------------------------------------------------------- packets

/// The run of packets of an H.265 track.
#[derive(Debug, Clone, Copy, PartialEq, Eq)]
pub struct H265RtpState {
    pub sequence_number: u16,
    pub timestamp: u32,
    pub timestamp_increment: u32,
}

/// The header of a packet.
#[derive(Debug, Clone, Copy, PartialEq, Eq)]
pub struct RtpHeader {
    pub marker: bool,
    pub payload_type: u8,
    pub sequence_number: u16,
    pub timestamp: u32,
}

/// A run of packets at the start, with a first sequence number and a first time stamp.
pub fn new_rtp_state(sequence_number: u16, timestamp: u32, fps: u32) -> (r: H265RtpState)
    ensures
        r.sequence_number == sequence_number,
        r.timestamp == timestamp,
        r.timestamp_increment == 90000int / (if fps == 0 {
            1int
        } else {
            fps as int
        }),
{
    let rate: u32 = if fps == 0 {
        1
    } else {
        fps
    };
    H265RtpState { sequence_number, timestamp, timestamp_increment: 90000 / rate }
}

/// A run of packets at the start, with a first sequence number and a first time stamp drawn at
/// random.
pub fn random_rtp_state(fps: u32) -> (r: H265RtpState)
    ensures
        r.timestamp_increment == 90000int / (if fps == 0 {
            1int
        } else {
            fps as int
        }),
{
    let sequence_number: u16 = random_u16();
    let timestamp: u32 = random_u32();
    new_rtp_state(sequence_number, timestamp, fps)
}

/// The headers of a frame's packets: consecutive numbers, one time stamp, and a mark on the last.
pub open spec fn frame_headers(s: H265RtpState, count: nat, main10: bool) -> Seq<RtpHeader> {
    Seq::new(
        count,
        |i: int|
            RtpHeader {
                marker: i == count - 1,
                payload_type: if main10 {
                    H265_MAIN10_PAYLOAD_TYPE
                } else {
                    H265_MAIN_PAYLOAD_TYPE
                },
                sequence_number: ((s.sequence_number + i) % 0x1_0000) as u16,
                timestamp: s.timestamp,
            },
    )
}

/// The run after a frame of so many packets; a frame without packets leaves it as it is.
pub open spec fn after_packets(s: H265RtpState, count: nat) -> H265RtpState {
    if count == 0 {
        s
    } else {
        H265RtpState {
            sequence_number: ((s.sequence_number + count) % 0x1_0000) as u16,
            timestamp: ((s.timestamp + s.timestamp_increment) % 0x1_0000_0000) as u32,
            ..s
        }
    }
}

/// Takes up a frame of so many packets: gives their headers and moves the run on.
pub fn plan_packets(state: &mut H265RtpState, count: usize, main10: bool) -> (r: Vec<RtpHeader>)
    ensures
        r@ == frame_headers(*old(state), count as nat, main10),
        *final(state) == after_packets(*old(state), count as nat),
{
    let mut headers: Vec<RtpHeader> = Vec::new();
    let ghost start = *state;
    if count == 0 {
        assert(headers@ == frame_headers(start, 0, main10));
        return headers;
    }
    let payload_type: u8 = if main10 {
        H265_MAIN10_PAYLOAD_TYPE
    } else {
        H265_MAIN_PAYLOAD_TYPE
    };
    let mut i: usize = 0;
    while i < count
        invariant
            i <= count,
            count > 0,
            *state == start,
            payload_type == (if main10 {
                H265_MAIN10_PAYLOAD_TYPE
            } else {
                H265_MAIN_PAYLOAD_TYPE
            }),
            headers@.len() == i,
            forall|j: int|
                0 <= j < i ==> headers@[j] == frame_headers(start, count as nat, main10)[j],
        decreases count - i,
    {
        let sequence: u64 = (state.sequence_number as u64 + (i % 0x1_0000) as u64) % 0x1_0000;
        headers.push(
            RtpHeader {
                marker: i == count - 1,
                payload_type,
                sequence_number: sequence as u16,
                timestamp: state.timestamp,
            },
        );
        i = i + 1;
    }
    assert(headers@ == frame_headers(start, count as nat, main10));
    let next: u64 = (state.sequence_number as u64 + (count % 0x1_0000) as u64) % 0x1_0000;
    state.sequence_number = next as u16;
    state.timestamp = state.timestamp.wrapping_add(state.timestamp_increment);
    headers
}

/// The frames of a track share one run of numbers: the first packet of the next frame follows
/// the last packet of this one, and only the last packet of a frame carries the mark.
pub proof fn packet_numbers_run_on(s: H265RtpState, count: nat, next: nat, main10: bool)
    requires
        count > 0,
        next > 0,
    ensures
        ({
            let last = frame_headers(s, count, main10).last();
            let first = frame_headers(after_packets(s, count), next, main10)[0];
            &&& first.sequence_number == (last.sequence_number + 1) % 0x1_0000
            &&& last.marker
            &&& forall|i: int|
                0 <= i < count - 1 ==> !(#[trigger] frame_headers(s, count, main10)[i]).marker
        }),
{
    let last = frame_headers(s, count, main10).last();
    assert(last.sequence_number == (s.sequence_number + (count - 1)) % 0x1_0000);
    let first = frame_headers(after_packets(s, count), next, main10)[0];
    assert(first.sequence_number == ((s.sequence_number + count) % 0x1_0000) % 0x1_0000);
}

/// The packets of a frame, one by one: numbers that count on and wrap around, the frame's one time
/// stamp, the payload number of the stream's depth, and the mark on the last packet alone. The
/// next frame's time stamp is one frame later; a frame without packets moves nothing.
pub proof fn the_packets_of_a_frame(s: H265RtpState, count: nat, main10: bool, i: int)
    requires
        0 <= i < count,
    ensures
        ({
            let headers = frame_headers(s, count, main10);
            let next = after_packets(s, count);
            &&& headers.len() == count
            &&& headers[i].sequence_number == (s.sequence_number + i) % 0x1_0000
            &&& headers[i].timestamp == s.timestamp
            &&& headers[i].marker <==> i == count - 1
            &&& main10 ==> headers[i].payload_type == 51
            &&& !main10 ==> headers[i].payload_type == 49
            &&& next.sequence_number == (s.sequence_number + count) % 0x1_0000
            &&& next.timestamp == (s.timestamp + s.timestamp_increment) % 0x1_0000_0000
            &&& next.timestamp_increment == s.timestamp_increment
            &&& after_packets(s, 0) == s
        }),
{
}

/// A run of packets starts with the numbers that it is given and advances by one frame of a 90 kHz
/// clock: so many frames make a second, to within one tick each. A rate of zero counts as one.
pub proof fn a_run_advances_by_a_frame(
    sequence_number: u16,
    timestamp: u32,
    fps: u32,
    r: H265RtpState,
)
    requires
        call_ensures(new_rtp_state, (sequence_number, timestamp, fps), r),
    ensures
        r.sequence_number == sequence_number,
        r.timestamp == timestamp,
        fps > 0 ==> r.timestamp_increment * fps <= 90000 < (r.timestamp_increment + 1) * fps,
        fps == 0 ==> r.timestamp_increment == 90000,
{
    if fps > 0 {
        let n = fps as int;
        vstd::arithmetic::div_mod::lemma_fundamental_div_mod(90000, n);
        let q = 90000int / n;
        assert(q * n <= 90000 < (q + 1) * n) by (nonlinear_arith)
            requires
                90000 == n * q + 90000int % n,
                0 <= 90000int % n < n,
        ;
    }
}

/// How long a frame lasts: so many frames make a second, to within one microsecond each.
pub proof fn a_frame_lasts_its_share_of_a_second(c: UniversalVideoTrackConfig, r: u64)
    requires
        call_ensures(UniversalVideoTrackConfig::frame_duration_us, (&c,), r),
    ensures
        c.fps > 0 ==> r * c.fps <= 1_000_000 < (r + 1) * c.fps,
        c.fps == 0 ==> r == 1_000_000,
{
    if c.fps > 0 {
        let n = c.fps as int;
        vstd::arithmetic::div_mod::lemma_fundamental_div_mod(1_000_000, n);
        let q = 1_000_000int / n;
        assert(q * n <= 1_000_000 < (q + 1) * n) by (nonlinear_arith)
            requires
                1_000_000 == n * q + 1_000_000int % n,
                0 <= 1_000_000int % n < n,
        ;
    }
}

/// What is sent is the frame itself, but for the key frames of a ten-bit H.265 track, which carry
/// the message besides: taking it out gives the frame back.
pub proof fn a_frame_is_sent_as_it_is(
    c: UniversalVideoTrackConfig,
    data: &[u8],
    is_keyframe: bool,
    r: Vec<u8>,
)
    requires
        call_ensures(UniversalVideoTrackConfig::frame_to_send, (&c, data, is_keyframe), r),
    ensures
        ({
            let marked = c.codec == VideoCodec::H265 && c.h265_main10 && is_keyframe && data@.len()
                > 0;
            let p = crate::webrtc::hdr::insertion_point(data@);
            &&& !marked ==> r@ == data@
            &&& marked ==> r@.len() == data@.len() + 39 && 0 <= p <= data@.len() && r@.take(p)
                + r@.skip(p + 39) == data@
        }),
{
    crate::webrtc::hdr::message_can_be_taken_out(data@);
    crate::webrtc::hdr::the_message_is_well_formed();
}

/// A track names its codec: only H.265 is cut into packets here, and only its ten-bit form has
/// the ten-bit parameters.
pub proof fn a_track_names_its_codec(
    c: UniversalVideoTrackConfig,
    packets: bool,
    fmtp: String,
    mime: &'static str,
    number: u8,
    sends: bool,
    data: &[u8],
)
    ensures
        call_ensures(UniversalVideoTrackConfig::sends_packets, (&c,), packets) ==> (packets
            <==> c.codec == VideoCodec::H265),
        call_ensures(UniversalVideoTrackConfig::sends_frame, (&c, data), sends) ==> (sends
            <==> data@.len() > 0),
        call_ensures(UniversalVideoTrackConfig::track_fmtp, (&c,), fmtp) && c.codec
            == VideoCodec::H265 && c.h265_main10 ==> fmtp@
            == "level-id=180;profile-id=2;tier-flag=0;tx-mode=SRST"@,
        call_ensures(UniversalVideoTrackConfig::track_fmtp, (&c,), fmtp) && c.codec
            == VideoCodec::H265 && !c.h265_main10 ==> fmtp@
            == "level-id=180;profile-id=1;tier-flag=0;tx-mode=SRST"@,
        call_ensures(UniversalVideoTrackConfig::track_fmtp, (&c,), fmtp) && c.codec
            == VideoCodec::H264 ==> fmtp@
            == "level-asymmetry-allowed=1;packetization-mode=1;profile-level-id=42e01f"@,
        call_ensures(UniversalVideoTrackConfig::track_fmtp, (&c,), fmtp) && c.codec
            == VideoCodec::VP9 ==> fmtp@ == "profile-id=0"@,
        call_ensures(UniversalVideoTrackConfig::track_fmtp, (&c,), fmtp) && c.codec
            == VideoCodec::VP8 ==> fmtp@.len() == 0,
        call_ensures(VideoCodec::mime_type, (&c.codec,), mime) ==> mime@ == (match c.codec {
            VideoCodec::H264 => "video/H264"@,
            VideoCodec::H265 => "video/H265"@,
            VideoCodec::VP8 => "video/VP8"@,
            VideoCodec::VP9 => "video/VP9"@,
        }),
        call_ensures(VideoCodec::default_payload_type, (&c.codec,), number) ==> number == (
        match c.codec {
            VideoCodec::H264 => 96u8,
            VideoCodec::VP8 => 97u8,
            VideoCodec::VP9 => 98u8,
            VideoCodec::H265 => 49u8,
        }),
{
}

/// A track of every codec is set up with the size and the rates that were asked for.
pub proof fn a_track_is_set_up_as_asked(
    size: Resolution,
    kbps: u32,
    fps: u32,
    r: UniversalVideoTrackConfig,
)
    ensures
        call_ensures(UniversalVideoTrackConfig::h264, (size, kbps, fps), r) ==> r.codec
            == VideoCodec::H264 && r.resolution == size && r.bitrate_kbps == kbps && r.fps == fps
            && !r.h265_main10,
        call_ensures(UniversalVideoTrackConfig::h265, (size, kbps, fps), r) ==> r.codec
            == VideoCodec::H265 && r.resolution == size && r.bitrate_kbps == kbps && r.fps == fps
            && !r.h265_main10,
        call_ensures(UniversalVideoTrackConfig::vp8, (size, kbps, fps), r) ==> r.codec
            == VideoCodec::VP8 && r.resolution == size && r.bitrate_kbps == kbps && r.fps == fps,
        call_ensures(UniversalVideoTrackConfig::vp9, (size, kbps, fps), r) ==> r.codec
            == VideoCodec::VP9 && r.resolution == size && r.bitrate_kbps == kbps && r.fps == fps,
{
}

/// Every track has the same names, and a codec is shown by its own.
pub proof fn tracks_and_codecs_have_their_names(
    c: UniversalVideoTrackConfig,
    codec: VideoCodec,
    size: Resolution,
    kbps: u32,
    fps: u32,
)
    ensures
        is_config(c, codec, size, kbps, fps) ==> c.track_id@ == "video0"@ && c.stream_id@
            == "one-kvm-stream"@,
        VideoCodec::H264.label() == "H.264"@,
        VideoCodec::H265.label() == "H.265/HEVC"@,
        VideoCodec::VP8.label() == "VP8"@,
        VideoCodec::VP9.label() == "VP9"@,
        RTP_MTU == 1200,
{
}

} // verus!
