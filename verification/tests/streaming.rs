//! Cutting frames into packets, their time stamps and the units inside them.
use one_kvm::sunshine::nal::{
    encoded_frame_summary, find_start_code, parse_annex_b_nals, parse_h264_nal_types,
    parse_h265_nal_types,
};
use one_kvm::sunshine::stream::{
    build_gamestream_short_frame_header, is_frame_codec_match, is_video_ping,
    monotonic_rtp_timestamp, new_sender, packetize_frame, pause_after_packet,
    pts_to_rtp_timestamp, random_sender, rtp_timestamp_increment, rtsp_codec_to_video_codec,
    send_frame, video_payload_size, PacketBase,
};
use one_kvm::types::RtspCodec;
use one_kvm::video::format::{EncodedVideoFrame, VideoCodecType, VideoEncoderType};

fn frame(data: Vec<u8>, is_keyframe: bool) -> EncodedVideoFrame {
    EncodedVideoFrame {
        data,
        pts_ms: 40,
        is_keyframe,
        sequence: 1,
        duration_ns: 16_000_000,
        codec: VideoEncoderType::H264,
    }
}

fn base() -> PacketBase {
    PacketBase {
        frame_index: 0x0102_0304,
        rtp_timestamp: 0x0a0b_0c0d,
        ssrc: 0x1112_1314,
        sequence_number: 0xffff,
        stream_packet_index: 0xff_ffff,
    }
}

#[test]
fn codecs_correspond() {
    assert_eq!(rtsp_codec_to_video_codec(RtspCodec::H264), VideoCodecType::H264);
    assert_eq!(rtsp_codec_to_video_codec(RtspCodec::H265), VideoCodecType::H265);
    let mut f = frame(Vec::new(), true);
    assert!(is_frame_codec_match(&f, RtspCodec::H264));
    assert!(!is_frame_codec_match(&f, RtspCodec::H265));
    f.codec = VideoEncoderType::VP8;
    assert!(!is_frame_codec_match(&f, RtspCodec::H264));
}

#[test]
fn time_stamps_count_ninety_to_the_millisecond() {
    assert_eq!(pts_to_rtp_timestamp(0), 0);
    assert_eq!(pts_to_rtp_timestamp(-5), 0);
    assert_eq!(pts_to_rtp_timestamp(40), 3600);
    assert_eq!(pts_to_rtp_timestamp(47_721_859), 14);
    assert_eq!(rtp_timestamp_increment(0), 1);
    assert_eq!(rtp_timestamp_increment(16_000_000), 1440);
    assert_eq!(rtp_timestamp_increment(16_666_667), 1500);
    assert_eq!(rtp_timestamp_increment(16_661_000), 1499);
    assert_eq!(rtp_timestamp_increment(5_000), 1);
    assert_eq!(rtp_timestamp_increment(16_672_300), 1501);
    assert_eq!(rtp_timestamp_increment(u128::MAX), u32::MAX);
}

#[test]
fn time_stamps_go_forward() {
    let mut last = 0;
    assert_eq!(monotonic_rtp_timestamp(40, &mut last, 16_000_000), 3600);
    assert_eq!(last, 3600);
    assert_eq!(monotonic_rtp_timestamp(40, &mut last, 16_000_000), 5040);
    assert_eq!(monotonic_rtp_timestamp(10, &mut last, 0), 5041);
    let mut last = u32::MAX;
    assert_eq!(monotonic_rtp_timestamp(0, &mut last, 0), 0);
    assert_eq!(last, 0);
}

#[test]
fn the_payload_leaves_room_for_a_header() {
    assert_eq!(video_payload_size(1024), 1008);
    assert_eq!(video_payload_size(17), 1);
    assert_eq!(video_payload_size(16), 1008);
    assert_eq!(video_payload_size(0), 1008);
}

#[test]
fn the_frame_header_states_the_last_payload() {
    assert_eq!(
        build_gamestream_short_frame_header(&frame(vec![0; 20], true), 16),
        vec![1, 0, 0, 2, 12, 0, 0, 0]
    );
    assert_eq!(
        build_gamestream_short_frame_header(&frame(vec![0; 8], false), 16),
        vec![1, 0, 0, 1, 16, 0, 0, 0]
    );
    assert_eq!(
        build_gamestream_short_frame_header(&frame(vec![0; 69_992], false), 70_000),
        vec![1, 0, 0, 1, 0xff, 0xff, 0, 0]
    );
}

#[test]
fn a_frame_is_cut_into_packets() {
    let data: Vec<u8> = (1..=20).collect();
    let packets = packetize_frame(&frame(data.clone(), true), 16, &base());
    assert_eq!(packets.len(), 2);
    let mut first = vec![
        0x90, 0, 0xff, 0xff, 0x0a, 0x0b, 0x0c, 0x0d, 0x11, 0x12, 0x13, 0x14, 0, 0, 0, 0,
    ];
    first.extend_from_slice(&[0, 0xff, 0xff, 0xff, 4, 3, 2, 1, 5, 0, 0x10, 0, 0, 0, 0x80, 0]);
    first.extend_from_slice(&[1, 0, 0, 2, 12, 0, 0, 0]);
    first.extend_from_slice(&data[..8]);
    assert_eq!(packets[0], first);
    let mut second = vec![
        0x90, 0, 0, 0, 0x0a, 0x0b, 0x0c, 0x0d, 0x11, 0x12, 0x13, 0x14, 0, 0, 0, 0,
    ];
    second.extend_from_slice(&[0, 0, 0, 0, 4, 3, 2, 1, 3, 0, 0x10, 0, 0, 0x10, 0x80, 0]);
    second.extend_from_slice(&data[8..]);
    assert_eq!(packets[1], second);
}

#[test]
fn packets_carry_the_frame_and_fit() {
    let data: Vec<u8> = (0..255).collect();
    let packets = packetize_frame(&frame(data.clone(), false), 10, &base());
    let mut carried: Vec<u8> = Vec::new();
    for packet in &packets {
        assert!(packet.len() <= 32 + 10);
        carried.extend_from_slice(&packet[32..]);
    }
    assert_eq!(&carried[8..], &data[..]);
    assert_eq!(packets.len(), 27);
}

#[test]
fn one_packet_is_first_and_last() {
    let packets = packetize_frame(&frame(Vec::new(), false), 100, &base());
    assert_eq!(packets.len(), 1);
    assert_eq!(packets[0][24], 7);
}

#[test]
fn a_frame_that_is_too_large_is_dropped() {
    assert_eq!(packetize_frame(&frame(vec![0; 1015], true), 1, &base()).len(), 1023);
    assert!(packetize_frame(&frame(vec![0; 1016], true), 1, &base()).is_empty());
}

#[test]
fn long_frames_are_paced() {
    assert!(!pause_after_packet(23, 24));
    assert!(pause_after_packet(23, 25));
    assert!(!pause_after_packet(22, 25));
    assert!(!pause_after_packet(47, 48));
    assert!(pause_after_packet(47, 49));
}

#[test]
fn a_stream_starts_on_a_keyframe() {
    let mut sender = new_sender(RtspCodec::H264, 1024, 65535, 5);
    let step = send_frame(&mut sender, &frame(vec![1], false));
    assert!(!step.taken);
    assert!(step.packets.is_empty());
    assert_eq!(sender.skipped_until_keyframe, 1);

    let mut other = frame(vec![1], true);
    other.codec = VideoEncoderType::H265;
    assert!(!send_frame(&mut sender, &other).taken);
    assert!(sender.waiting_for_keyframe);

    let step = send_frame(&mut sender, &frame(vec![1], true));
    assert!(step.taken);
    assert_eq!(step.packets.len(), 1);
    assert_eq!(&step.packets[0][2..4], &[0xff, 0xff]);
    assert_eq!(&step.packets[0][4..8], &3600u32.to_be_bytes());
    assert_eq!(&step.packets[0][8..12], &5u32.to_be_bytes());
    assert_eq!(&step.packets[0][20..24], &1u32.to_le_bytes());

    let step = send_frame(&mut sender, &frame(vec![1], false));
    assert!(step.taken);
    assert_eq!(&step.packets[0][2..4], &[0, 0]);
    assert_eq!(&step.packets[0][4..8], &5040u32.to_be_bytes());
    assert_eq!(&step.packets[0][16..20], &0x100u32.to_le_bytes());
    assert_eq!(&step.packets[0][20..24], &2u32.to_le_bytes());
}

#[test]
fn keyframes_are_asked_for_at_the_start() {
    let mut sender = new_sender(RtspCodec::H264, 1024, 0, 0);
    let mut asked = Vec::new();
    for n in 1..=150u32 {
        if send_frame(&mut sender, &frame(vec![1], true)).request_keyframe {
            asked.push(n);
        }
    }
    assert_eq!(asked, vec![30, 60, 90]);
    assert_eq!(sender.sent_frames, 150);
}

#[test]
fn senders_draw_their_numbers() {
    let first = random_sender(RtspCodec::H265, 1024);
    assert_eq!(first.payload_size, 1008);
    assert_eq!(first.frame_index, 1);
    let mut others = Vec::new();
    for _ in 0..4 {
        let sender = random_sender(RtspCodec::H265, 1024);
        others.push((sender.ssrc, sender.sequence_number));
    }
    assert!(others.iter().any(|drawn| *drawn != (first.ssrc, first.sequence_number)));
}

#[test]
fn pings_are_known() {
    assert!(is_video_ping(b"PING", "abcd"));
    assert!(is_video_ping(b"xxabcdyy", "abcd"));
    assert!(!is_video_ping(b"PINGS", "abcd"));
    assert!(!is_video_ping(b"\xffabcd", "abcd"));
    assert!(!is_video_ping(b"anything", ""));
    assert!(is_video_ping(b"PING", ""));
}

#[test]
fn units_are_found_behind_start_codes() {
    let data = [0, 0, 0, 1, 0x67, 1, 2, 0, 0, 1, 0x65, 3];
    assert_eq!(find_start_code(&data, 0), Some((4, 0)));
    assert_eq!(find_start_code(&data, 1), Some((4, 1)));
    assert_eq!(find_start_code(&data, 4), Some((10, 7)));
    assert_eq!(find_start_code(&data, 8), None);
    assert_eq!(parse_annex_b_nals(&data), vec![(0x67, 3), (0x65, 2)]);
    assert_eq!(parse_h264_nal_types(&data), vec![(7, 3), (5, 2)]);
    assert_eq!(parse_h265_nal_types(&data), vec![(51, 3), (50, 2)]);
    assert_eq!(parse_annex_b_nals(&[0, 0, 1]), vec![]);
    assert_eq!(parse_annex_b_nals(&[]), vec![]);
    assert_eq!(parse_annex_b_nals(&[1, 2, 3]), vec![]);
}

#[test]
fn a_frame_is_summed_up() {
    let mut f = frame(vec![0, 0, 1, 0x65, 9], true);
    assert_eq!(
        encoded_frame_summary(&f),
        "first_bytes=[00 00 01 65 09] h264_nals=[(5, 2)]"
    );
    f.codec = VideoEncoderType::H265;
    assert_eq!(
        encoded_frame_summary(&f),
        "first_bytes=[00 00 01 65 09] h265_nals=[(50, 2)]"
    );
    f.codec = VideoEncoderType::VP8;
    f.data = (0..20).collect();
    assert_eq!(
        encoded_frame_summary(&f),
        "first_bytes=[00 01 02 03 04 05 06 07 08 09 0a 0b 0c 0d 0e 0f]"
    );
    f.codec = VideoEncoderType::H264;
    f.data = Vec::new();
    assert_eq!(encoded_frame_summary(&f), "first_bytes=[] h264_nals=[]");
}
