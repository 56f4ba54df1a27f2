//! Tracks that carry encoded video.
use one_kvm::video::format::Resolution;
use one_kvm::webrtc::hdr::{
    append_sei_payload_header, h265_annex_b_nals, h265_nal_type, hdr10_sei_annex_b,
    insert_h265_hdr10_sei,
};
use one_kvm::webrtc::video_track::{
    new_rtp_state, plan_packets, random_rtp_state, RtpHeader, UniversalVideoTrackConfig, VideoCodec,
    H265_MAIN10_FMTP, H265_MAIN_FMTP,
};

#[test]
fn test_video_codec_properties() {
    assert_eq!(VideoCodec::H264.mime_type(), "video/H264");
    assert_eq!(VideoCodec::H265.mime_type(), "video/H265");
    assert_eq!(VideoCodec::VP8.mime_type(), "video/VP8");
    assert_eq!(VideoCodec::VP9.mime_type(), "video/VP9");

    assert_eq!(VideoCodec::H264.clock_rate(), 90000);
    assert_eq!(VideoCodec::H265.clock_rate(), 90000);
    assert_eq!(VideoCodec::H265.sdp_fmtp(), H265_MAIN_FMTP);
}

#[test]
fn test_config_creation() {
    let h264_config = UniversalVideoTrackConfig::h264(Resolution::hd1080(), 4000, 30);
    assert_eq!(h264_config.codec, VideoCodec::H264);
    assert_eq!(h264_config.bitrate_kbps, 4000);

    let h265_config = UniversalVideoTrackConfig::h265(Resolution::hd720(), 2000, 30);
    assert_eq!(h265_config.codec, VideoCodec::H265);
}

#[test]
fn test_hdr10_sei_insertion_after_parameter_sets() {
    let frame = [
        &[0, 0, 0, 1, 0x40, 0x01, 0xaa][..],
        &[0, 0, 0, 1, 0x42, 0x01, 0xbb][..],
        &[0, 0, 0, 1, 0x44, 0x01, 0xcc][..],
        &[0, 0, 0, 1, 0x26, 0x01, 0xdd][..],
    ]
    .concat();

    let with_sei = insert_h265_hdr10_sei(&frame);
    let nals: Vec<u8> = h265_annex_b_nals(&with_sei)
        .into_iter()
        .filter_map(|(start, sc_len, end)| h265_nal_type(&with_sei[start + sc_len..end]))
        .collect();

    assert_eq!(nals, vec![32, 33, 34, 39, 19]);
}

#[test]
fn codecs_have_names_and_numbers() {
    assert_eq!(VideoCodec::H264.default_payload_type(), 96);
    assert_eq!(VideoCodec::VP8.default_payload_type(), 97);
    assert_eq!(VideoCodec::VP9.default_payload_type(), 98);
    assert_eq!(VideoCodec::H265.default_payload_type(), 49);
    assert_eq!(VideoCodec::H265.display_name(), "H.265/HEVC");
    assert_eq!(VideoCodec::VP8.sdp_fmtp(), "");
    assert_eq!(VideoCodec::VP9.sdp_fmtp(), "profile-id=0");
    assert_eq!(
        VideoCodec::H264.sdp_fmtp(),
        "level-asymmetry-allowed=1;packetization-mode=1;profile-level-id=42e01f"
    );
}

#[test]
fn a_track_is_set_up_by_its_codec() {
    let plain = UniversalVideoTrackConfig::default();
    assert_eq!(plain.track_id, "video0");
    assert_eq!(plain.stream_id, "one-kvm-stream");
    assert_eq!(plain.resolution, Resolution::new(1280, 720));
    assert_eq!((plain.bitrate_kbps, plain.fps), (8000, 30));
    assert!(!plain.sends_packets());
    assert_eq!(plain.frame_duration_us(), 33333);

    let mut wide = UniversalVideoTrackConfig::h265(Resolution::hd720(), 1, 0);
    assert!(wide.sends_packets());
    assert_eq!(wide.track_fmtp(), H265_MAIN_FMTP);
    assert_eq!(wide.frame_duration_us(), 1_000_000);
    wide.h265_main10 = true;
    assert_eq!(wide.track_fmtp(), H265_MAIN10_FMTP);
    assert_eq!(UniversalVideoTrackConfig::vp8(Resolution::hd720(), 1, 1).codec, VideoCodec::VP8);
    assert_eq!(UniversalVideoTrackConfig::vp9(Resolution::hd720(), 1, 1).codec, VideoCodec::VP9);
}

#[test]
fn an_empty_frame_is_not_sent() {
    let config = UniversalVideoTrackConfig::default();
    assert!(!config.sends_frame(&[]));
    assert!(config.sends_frame(&[0]));
}

#[test]
fn a_run_starts_at_random() {
    assert_eq!(random_rtp_state(30).timestamp_increment, 3000);
    assert_eq!(random_rtp_state(0).timestamp_increment, 90000);
    let starts: Vec<u32> = (0..8).map(|_| random_rtp_state(30).timestamp).collect();
    assert!(starts.iter().any(|t| *t != starts[0]));
}

#[test]
fn only_wide_colour_keyframes_get_the_message() {
    let data = [0u8, 0, 1, 0x26, 1];
    let mut track = UniversalVideoTrackConfig::h265(Resolution::hd720(), 1, 30);
    assert_eq!(track.frame_to_send(&data, true), data);
    track.h265_main10 = true;
    assert_eq!(track.frame_to_send(&data, false), data);
    assert_eq!(track.frame_to_send(&data, true), insert_h265_hdr10_sei(&data));
    let mut other = UniversalVideoTrackConfig::h264(Resolution::hd720(), 1, 30);
    other.h265_main10 = true;
    assert_eq!(other.frame_to_send(&data, true), data);
}

#[test]
fn packets_of_a_frame_share_its_time() {
    let mut state = new_rtp_state(65535, 100, 30);
    assert_eq!(state.timestamp_increment, 3000);
    let headers = plan_packets(&mut state, 2, false);
    assert_eq!(
        headers,
        vec![
            RtpHeader { marker: false, payload_type: 49, sequence_number: 65535, timestamp: 100 },
            RtpHeader { marker: true, payload_type: 49, sequence_number: 0, timestamp: 100 },
        ]
    );
    assert_eq!((state.sequence_number, state.timestamp), (1, 3100));
    let headers = plan_packets(&mut state, 1, true);
    assert_eq!(headers[0].payload_type, 51);
    assert_eq!(headers[0].sequence_number, 1);
    assert!(plan_packets(&mut state, 0, true).is_empty());
    assert_eq!((state.sequence_number, state.timestamp), (2, 6100));
    assert_eq!(new_rtp_state(0, 0, 0).timestamp_increment, 90000);
}

#[test]
fn long_message_headers_are_continued() {
    let mut out = Vec::new();
    append_sei_payload_header(&mut out, 137, 24);
    assert_eq!(out, vec![137, 24]);
    let mut out = Vec::new();
    append_sei_payload_header(&mut out, 255, 600);
    assert_eq!(out, vec![255, 0, 255, 255, 90]);
}

#[test]
fn the_message_states_the_display() {
    assert_eq!(
        hdr10_sei_annex_b(),
        vec![
            0, 0, 0, 1, 0x4e, 1, 137, 24, 0x33, 0xc2, 0x86, 0xc4, 0x1d, 0x4c, 0x0b, 0xb8, 0x84,
            0xd0, 0x3e, 0x80, 0x3d, 0x13, 0x40, 0x42, 0x00, 0x98, 0x96, 0x80, 0, 0, 0, 50, 144, 4,
            0x03, 0xe8, 0x01, 0x90, 0x80
        ]
    );
}

#[test]
fn units_are_found() {
    assert_eq!(h265_annex_b_nals(&[0, 0, 1, 9, 0, 0, 0, 1, 8]), vec![(0, 3, 4), (4, 4, 9)]);
    assert_eq!(h265_annex_b_nals(&[1, 2]), vec![]);
    assert_eq!(h265_nal_type(&[0x40]), None);
    assert_eq!(h265_nal_type(&[0x40, 1]), Some(32));
}

#[test]
fn the_message_comes_first_where_nothing_precedes_it() {
    let sei = hdr10_sei_annex_b();
    let data = [9u8, 9];
    assert_eq!(insert_h265_hdr10_sei(&data), [&sei[..], &data[..]].concat());
    let data = [7u8, 0, 0, 1, 0x26, 1, 5];
    assert_eq!(
        insert_h265_hdr10_sei(&data),
        [&data[..1], &sei[..], &data[1..]].concat()
    );
}
