//! Capture devices and the capture pipeline.
use one_kvm::ffi::multienc::{EncodingMetadata, VlCodecId, VlFrameType, VlImgFormat};
use one_kvm::ffi::vfmcap::{
    detect_hdr_color_mode, VfmcapColorMode, VfmcapConfig, VfmcapFrame, VfmcapOutputFmt,
    VfmcapSignalInfo,
};
use one_kvm::types::AppError;
use one_kvm::video::aml_pipeline::{
    begin_setup, choose_fps, create_encoder, encode_turn, header_frame, limited_capture,
    native_capture, publish_encoded, task_planes, AmlPipeline, AmlPipelineConfig, CaptureLoop,
    CaptureStep, EncodeTask, EncodeTurn, QueueEvent, SetupAction, SetupPhase, SetupReport,
};
use one_kvm::video::capture_trait::{
    CaptureError, CaptureMeta, CaptureResult, DmaBufFrame, FrameData,
};
use one_kvm::video::device::{
    aml_video_device_info, build_aml_video_device_info, enumerate_devices, find_best_device,
    select_recovery_device, ResolutionInfo, VideoDevice, VideoDeviceRecoveryHint,
};
use one_kvm::video::encoder::aml_venc::{
    choose_bitstream_buf_sz_kb, encoded_frame, new_encoder_setup, setting_changed, stream_header,
    AmlEncodedFrame, AmlVencEncoder, EncoderRequest,
};
use one_kvm::video::encoder::selection::{
    detect_best_codec_for_format, select_codec_for_format, CodecInfo, DataFormat,
};
use one_kvm::video::format::{PixelFormat, Resolution, VideoEncoderType};
use one_kvm::video::vfmcap_capture::{
    frame_to_data, reopen_config, AcquireResult, AmlVfmcapCaptureStream, VfmcapStream,
};

fn native_frame(index: u32) -> VfmcapFrame {
    VfmcapFrame {
        dmabuf_fd: 10,
        dmabuf_fd2: -1,
        index,
        width: 1920,
        height: 1080,
        bytesperline: 1920,
        size: 3_110_400,
        pixelformat: 0x3231_564e,
        bitdepth: 8,
        sequence: 7,
        timestamp_us: 99,
        signal_type: 0,
        drm_modifier: 0,
        is_repeated: 1,
    }
}

fn dma(index: u32) -> DmaBufFrame {
    DmaBufFrame {
        index,
        dmabuf_fd: 10,
        dmabuf_fd2: 11,
        width: 1920,
        height: 1080,
        bytesperline: 1920,
        size: 100,
        format: 5,
        sequence: 1,
        timestamp_us: 2,
    }
}

fn captured(index: u32, reconfigured: bool) -> Result<CaptureResult, CaptureError> {
    Ok(CaptureResult {
        frame: FrameData::DmaBuf(dma(index)),
        resolution: Resolution::hd1080(),
        format: PixelFormat::Nv12,
        reconfigured,
    })
}

fn signal(hdr_status: u32) -> VfmcapSignalInfo {
    VfmcapSignalInfo {
        width: 3840,
        height: 2160,
        fps: 60,
        pixelformat: 0,
        signal_type: 0,
        hdr_status,
        is_interlaced: 0,
        status: 0,
        bitdepth: 10,
    }
}

fn metadata(length: i32, valid: bool) -> EncodingMetadata {
    EncodingMetadata {
        encoded_data_length_in_bytes: length,
        is_key_frame: true,
        timestamp_us: 5500,
        is_valid: valid,
        frame_type: 2,
        err_cod: -3,
        input_frame_num: 4,
    }
}

fn request() -> EncoderRequest {
    EncoderRequest {
        codec: VlCodecId::H264,
        width: 1920,
        height: 1080,
        fps: 0,
        bitrate_kbps: 8000,
        gop: 30,
        gop_pattern: 5,
        rc_mode: 1,
    }
}

#[test]
fn resolution_info_exposes_resolution() {
    let info = ResolutionInfo::new(1920, 1080, vec![30, 60]);

    assert_eq!(info.resolution(), Resolution::new(1920, 1080));
}

#[test]
fn builds_expected_aml_device_metadata() {
    let info = build_aml_video_device_info("/dev/video_cap".into());

    assert_eq!(info.name, "Amlogic StreamBox Capture");
    assert_eq!(info.driver, "aml_vfmcap");
    assert_eq!(info.bus_info, "platform:vfmcap");
    assert!(info.capabilities.video_capture);
    assert!(info.capabilities.streaming);
    assert_eq!(info.formats.len(), 1);
    assert_eq!(info.formats[0].format, PixelFormat::Nv12);
    assert_eq!(info.formats[0].resolutions.len(), 2);
    assert_eq!(info.formats[0].resolutions[0].fps, vec![30, 60]);
}

#[test]
fn aml_device_info_requires_existing_device_path() {
    let missing = "/nowhere/missing-video-cap".to_string();

    let err = aml_video_device_info(missing.clone(), false).unwrap_err();

    match err {
        AppError::VideoError(message) => assert!(message.contains(&missing)),
        other => panic!("{other:?}"),
    }
}

#[test]
fn a_device_is_there_or_not() {
    assert!(enumerate_devices(false).is_empty());
    let devices = enumerate_devices(true);
    assert_eq!(devices.len(), 1);
    assert_eq!(devices[0].path, "/dev/video_cap");
    assert_eq!(devices[0].card, "Amlogic HDMI RX");
    assert_eq!(devices[0].priority, 1000);
    assert_eq!(find_best_device(devices).unwrap().path, "/dev/video_cap");
    assert_eq!(
        find_best_device(Vec::new()).unwrap_err(),
        AppError::VideoError("No AML capture device available".to_string())
    );
    assert_eq!(
        VideoDevice::open("/x".to_string(), false).unwrap_err(),
        AppError::VideoError("Video device not found: /x".to_string())
    );
    let device = VideoDevice::open_readonly("/x".to_string(), true).unwrap();
    assert_eq!(device.info(true).unwrap().path, "/x");
    assert_eq!(
        device.info(false).unwrap_err(),
        AppError::VideoError("AML capture device not found: /x".to_string())
    );
}

#[test]
fn a_lost_device_is_found_by_path_or_driver() {
    let mut a = build_aml_video_device_info("/a".to_string());
    a.driver = "x".to_string();
    let b = build_aml_video_device_info("/b".to_string());
    let devices = vec![a, b];
    let mut hint = VideoDeviceRecoveryHint::of(&devices[1]);
    assert_eq!(select_recovery_device(&devices, &hint).unwrap().path, "/b");
    hint.path = "/gone".to_string();
    assert_eq!(select_recovery_device(&devices, &hint).unwrap().path, "/b");
    hint.driver = "other".to_string();
    assert!(select_recovery_device(&devices, &hint).is_none());
}

#[test]
fn encoders_are_chosen_by_format() {
    let codec = |name: &str, format| CodecInfo { name: name.to_string(), format };
    let all = vec![
        codec("h264_a", DataFormat::H264),
        codec("hevc_a", DataFormat::H265),
        codec("hevc_b", DataFormat::H265),
    ];
    let prefer_b = |c: &CodecInfo| c.name.ends_with("_b");
    assert_eq!(select_codec_for_format(&all, DataFormat::H265, prefer_b).unwrap().name, "hevc_b");
    assert_eq!(select_codec_for_format(&all, DataFormat::H264, prefer_b).unwrap().name, "h264_a");
    assert!(select_codec_for_format(&all, DataFormat::VP8, prefer_b).is_none());
    assert_eq!(
        detect_best_codec_for_format(&all, DataFormat::H265, prefer_b),
        Some("hevc_b".to_string())
    );
    assert_eq!(detect_best_codec_for_format(&all, DataFormat::VP9, prefer_b), None);
}

#[test]
fn colours_follow_the_signal() {
    assert_eq!(detect_hdr_color_mode(0), VfmcapColorMode::Passthrough);
    assert_eq!(detect_hdr_color_mode(1), VfmcapColorMode::Hdr10ToSdr);
    assert_eq!(detect_hdr_color_mode(2), VfmcapColorMode::HlgToSdr);
    assert_eq!(detect_hdr_color_mode(3), VfmcapColorMode::Hdr10ToSdr);
    assert_eq!(VfmcapColorMode::HlgToSdr.code(), 2);
    assert_eq!(VfmcapOutputFmt::Vyuy10bit.code(), 6);
    assert_eq!(VlCodecId::H265.code(), 5);
    assert_eq!(VlImgFormat::Unset.code(), 0);
    assert_eq!(VlFrameType::Idr.code(), 2);
}

#[test]
fn a_capture_is_opened_anew_for_another_colour_space() {
    let config = native_capture(&AmlPipelineConfig::default());
    assert_eq!(
        config,
        VfmcapConfig {
            output_format: VfmcapOutputFmt::Nv12,
            target_width: 0,
            target_height: 0,
            target_fps: 0,
            color_mode: VfmcapColorMode::Passthrough,
        }
    );
    assert!(reopen_config(&config, None).is_none());
    assert!(reopen_config(&config, Some(signal(0))).is_none());
    let again = reopen_config(&config, Some(signal(2))).unwrap();
    assert_eq!(again.color_mode, VfmcapColorMode::HlgToSdr);
    let mut raw = config;
    raw.output_format = VfmcapOutputFmt::Raw;
    assert!(reopen_config(&raw, Some(signal(2))).is_none());
}

#[test]
fn a_capture_has_the_size_of_the_signal() {
    let opened = |w, h, info| AmlVfmcapCaptureStream::opened(w, h, info, 12).resolution();
    assert_eq!(opened(0, 0, Some(signal(0))), Resolution::new(3840, 2160));
    assert_eq!(opened(0, 0, None), Resolution::new(1920, 1080));
    assert_eq!(opened(640, 480, Some(signal(0))), Resolution::new(640, 480));
    assert_eq!(opened(640, 0, Some(signal(0))), Resolution::new(3840, 2160));
}

#[test]
fn frames_go_back_to_the_device() {
    let mut stream = AmlVfmcapCaptureStream::opened(0, 0, None, 12);
    assert_eq!(stream.begin_next_frame(), None);
    let result = stream.next_frame(Ok(AcquireResult::Frame(native_frame(3)))).unwrap();
    assert!(!result.reconfigured);
    assert_eq!(result.resolution, Resolution::hd1080());
    match &result.frame {
        FrameData::DmaBuf(frame) => {
            assert_eq!((frame.index, frame.dmabuf_fd, frame.sequence), (3, 10, 7));
            assert_eq!(frame.format, 0x3231_564e);
        }
        other => panic!("{other:?}"),
    }
    assert_eq!(stream.release_frame(&result.frame), Some(3));
    assert_eq!(stream.release_frame(&result.frame), None);

    stream.next_frame(Ok(AcquireResult::Reconfigured(native_frame(4)))).unwrap();
    assert_eq!(stream.begin_next_frame(), Some(4));
    assert_eq!(stream.begin_next_frame(), None);
    assert!(matches!(
        stream.next_frame(Ok(AcquireResult::Timeout)),
        Err(CaptureError::TimedOut)
    ));
    assert!(matches!(
        stream.next_frame(Ok(AcquireResult::NoSignal)),
        Err(CaptureError::NotConnected)
    ));
    match stream.next_frame(Err("bad".to_string())) {
        Err(CaptureError::Other(text)) => assert_eq!(text, "bad"),
        other => panic!("{other:?}"),
    }
    assert_eq!(stream.format(), PixelFormat::Nv12);
}

#[test]
fn the_device_is_asked_and_answers() {
    let mut stream = VfmcapStream::new();
    assert!(stream.needs_start());
    assert_eq!(
        stream.start(-2),
        Err(AppError::VideoError("vfmcap_start failed (rc=-2): (unknown)".to_string()))
    );
    stream.start(0).unwrap();
    assert!(!stream.needs_start());
    stream.error = Some("gone".to_string());
    assert_eq!(
        stream.acquire_frame(-7, native_frame(1)),
        Err(AppError::VideoError("vfmcap_acquire_frame failed (rc=-7): gone".to_string()))
    );
    assert_eq!(
        stream.acquire_frame(0, native_frame(1)),
        Ok(AcquireResult::Frame(native_frame(1)))
    );
    assert_eq!(
        stream.acquire_frame(1, native_frame(1)),
        Ok(AcquireResult::Reconfigured(native_frame(1)))
    );
    assert_eq!(stream.acquire_frame(-3, native_frame(1)), Ok(AcquireResult::Timeout));
    assert_eq!(stream.acquire_frame(-4, native_frame(1)), Ok(AcquireResult::NoSignal));
    assert_eq!(stream.signal_info(0, signal(1)), Ok(signal(1)));
    assert!(stream.signal_info(-1, signal(1)).is_err());
    assert!(stream.stop());
    assert!(!stream.stop());
    let data = frame_to_data(&native_frame(5));
    assert!(data.is_repeated);
    assert_eq!(data.index, 5);
}

#[test]
fn frame_rates_are_limited() {
    assert_eq!(choose_fps(Some(60), 30), 30);
    assert_eq!(choose_fps(Some(24), 30), 24);
    assert_eq!(choose_fps(Some(60), 0), 60);
    assert_eq!(choose_fps(Some(0), 50), 50);
    assert_eq!(choose_fps(None, 50), 50);
    assert_eq!(choose_fps(None, 0), 30);
}

#[test]
fn a_larger_source_is_scaled_down() {
    let config = AmlPipelineConfig::default();
    assert!(limited_capture(&config, Resolution::new(3840, 2160)).is_none());
    let limited = limited_capture(&config, Resolution::new(4096, 2160)).unwrap();
    assert_eq!((limited.target_width, limited.target_height), (3840, 2160));
    assert_eq!(limited.target_fps, 240);
    let mut unlimited = AmlPipelineConfig::default();
    unlimited.max_width = 0;
    assert!(limited_capture(&unlimited, Resolution::new(9999, 9999)).is_none());
}

#[test]
fn only_two_codecs_can_be_encoded() {
    let mut config = AmlPipelineConfig::default();
    let q = create_encoder(&config, 1920, 1080, 60).unwrap();
    assert_eq!(q.codec, VlCodecId::H265);
    assert_eq!((q.fps, q.bitrate_kbps, q.gop, q.gop_pattern, q.rc_mode), (60, 8000, 30, 5, 1));
    config.output_codec = VideoEncoderType::VP9;
    assert_eq!(
        create_encoder(&config, 1920, 1080, 60).unwrap_err(),
        AppError::VideoError("AML pipeline only supports H264/H265".to_string())
    );
}

#[test]
fn a_pipeline_is_set_up_step_by_step() {
    let mut config = AmlPipelineConfig::default();
    config.max_width = 1920;
    config.max_height = 1080;
    config.max_fps = 60;
    config.output_codec = VideoEncoderType::H264;
    let mut setup = begin_setup();
    match setup.advance(&config, SetupReport::Begin) {
        SetupAction::OpenCapture(c) => assert_eq!(c.target_width, 0),
        other => panic!("{other:?}"),
    }
    match setup.advance(&config, SetupReport::Opened(Resolution::new(3840, 2160))) {
        SetupAction::OpenCapture(c) => assert_eq!(c.target_width, 1920),
        other => panic!("{other:?}"),
    }
    let action = setup.advance(&config, SetupReport::Opened(Resolution::hd1080()));
    assert!(matches!(action, SetupAction::AskSignal));
    match setup.advance(&config, SetupReport::Signal(Some(120))) {
        SetupAction::OpenEncoder(q) => {
            assert_eq!((q.codec, q.width, q.height, q.fps), (VlCodecId::H264, 1920, 1080, 60))
        }
        other => panic!("{other:?}"),
    }
    let action = setup.advance(&config, SetupReport::EncoderOpened);
    assert!(matches!(action, SetupAction::AskHeader));
    match setup.advance(&config, SetupReport::Header(vec![1, 2])) {
        SetupAction::BroadcastAndRun(frame) => {
            assert_eq!(frame.data, vec![1, 2]);
            assert!(frame.is_keyframe);
            assert_eq!((frame.sequence, frame.pts_ms, frame.duration_ns), (0, 0, 0));
        }
        other => panic!("{other:?}"),
    }
    assert_eq!(setup.phase, SetupPhase::Ready);
    assert_eq!(setup.fps, 60);
}

#[test]
fn a_failed_setup_stops() {
    let config = AmlPipelineConfig::default();
    let mut setup = begin_setup();
    setup.advance(&config, SetupReport::Begin);
    assert!(matches!(setup.advance(&config, SetupReport::Failed), SetupAction::Stop));
    assert_eq!(setup.phase, SetupPhase::Failed);

    let mut setup = begin_setup();
    setup.advance(&config, SetupReport::Begin);
    setup.advance(&config, SetupReport::Opened(Resolution::hd1080()));
    setup.advance(&config, SetupReport::Signal(None));
    setup.advance(&config, SetupReport::EncoderOpened);
    assert!(matches!(setup.advance(&config, SetupReport::Failed), SetupAction::Run));
    assert_eq!(setup.phase, SetupPhase::Ready);
}

#[test]
fn captured_frames_are_queued_while_someone_watches() {
    let mut run = CaptureLoop::new();
    match run.captured(captured(3, false), true) {
        CaptureStep::Queue(task) => assert_eq!((task.index, task.dmabuf_fd2), (3, 11)),
        other => panic!("{other:?}"),
    }
    run.queued();
    assert_eq!(run.frame_count, 1);
    assert_eq!(run.frame_done(9), None);
    assert_eq!(run.frame_done(3), Some(dma(3)));
    assert_eq!(run.frame_done(3), None);
    assert_eq!(run.take_fps_count(), 1);
    assert_eq!(run.take_fps_count(), 0);

    match run.captured(captured(4, false), false) {
        CaptureStep::ReleaseAfter(33, FrameData::DmaBuf(frame)) => assert_eq!(frame.index, 4),
        other => panic!("{other:?}"),
    }
    run.captured(captured(5, false), true);
    run.captured(captured(6, false), true);
    run.queued();
    let left: Vec<u32> = run.finish().into_iter().map(|f| f.index).collect();
    assert_eq!(left.len(), 2);
    assert!(left.contains(&5) && left.contains(&6));
    assert_eq!((run.frame_count, run.fps_frame_count), (2, 1));
    assert_eq!(run.frame_done(5), None);
}

#[test]
fn a_changed_source_ends_the_loop() {
    let mut run = CaptureLoop::new();
    match run.captured(captured(1, true), true) {
        CaptureStep::ReleaseAndStop(FrameData::DmaBuf(frame)) => assert_eq!(frame.index, 1),
        other => panic!("{other:?}"),
    }
}

#[test]
fn many_timeouts_in_a_row_end_the_loop() {
    let mut run = CaptureLoop::new();
    for _ in 0..59 {
        let step = run.captured(Err(CaptureError::TimedOut), true);
        assert!(matches!(step, CaptureStep::Continue));
    }
    let step = run.captured(Err(CaptureError::NotConnected), true);
    assert!(matches!(step, CaptureStep::Pause(100)));
    let step = run.captured(Err(CaptureError::TimedOut), true);
    assert!(matches!(step, CaptureStep::Stop));

    let mut run = CaptureLoop::new();
    for _ in 0..59 {
        run.captured(Err(CaptureError::TimedOut), true);
    }
    run.captured(captured(1, false), true);
    let step = run.captured(Err(CaptureError::TimedOut), true);
    assert!(matches!(step, CaptureStep::Continue));
    let step = run.captured(Err(CaptureError::Other("x".to_string())), true);
    assert!(matches!(step, CaptureStep::Continue));
}

#[test]
fn a_mapped_frame_is_passed_over() {
    let mut run = CaptureLoop::new();
    let mapped = CaptureResult {
        frame: FrameData::Mapped {
            data: vec![1],
            meta: CaptureMeta { bytes_used: 1, sequence: 0 },
        },
        resolution: Resolution::hd720(),
        format: PixelFormat::Nv12,
        reconfigured: false,
    };
    assert!(matches!(run.captured(Ok(mapped), true), CaptureStep::Continue));
    assert!(run.finish().is_empty());
}

#[test]
fn the_encoding_thread_takes_turns() {
    let mut task = EncodeTask {
        index: 1,
        dmabuf_fd: 2,
        dmabuf_fd2: -1,
        width: 3,
        height: 4,
        bytesperline: 5,
        size: 6,
        format: 7,
    };
    assert_eq!(task_planes(&task), 1);
    assert_eq!(encode_turn(true, true, QueueEvent::Task(task)), EncodeTurn::Encode(task, 1));
    task.dmabuf_fd2 = 0;
    assert_eq!(encode_turn(true, true, QueueEvent::Task(task)), EncodeTurn::Encode(task, 2));
    assert_eq!(
        encode_turn(false, true, QueueEvent::Task(task)),
        EncodeTurn::ReportAllAndStop(task)
    );
    assert_eq!(
        encode_turn(true, false, QueueEvent::Task(task)),
        EncodeTurn::ReportAllAndStop(task)
    );
    assert_eq!(encode_turn(true, true, QueueEvent::Timeout), EncodeTurn::WaitAgain);
    assert_eq!(encode_turn(true, true, QueueEvent::Disconnected), EncodeTurn::Stop);
}

#[test]
fn encoded_frames_are_numbered() {
    let made = |is_delay| AmlEncodedFrame {
        data: vec![1],
        is_keyframe: true,
        is_delay,
        pts_us: 5999,
        frame_type: 0,
        input_frame_num: 0,
    };
    let mut sequence = 4;
    assert!(publish_encoded(made(true), &mut sequence, 30, VideoEncoderType::H264).is_none());
    assert_eq!(sequence, 4);
    let frame = publish_encoded(made(false), &mut sequence, 30, VideoEncoderType::H264).unwrap();
    assert_eq!((frame.sequence, frame.pts_ms, frame.duration_ns), (5, 5, 33_000_000));
    assert_eq!(sequence, 5);
    let mut late = made(false);
    late.pts_us = -1500;
    let frame = publish_encoded(late, &mut sequence, 30, VideoEncoderType::H264).unwrap();
    assert_eq!(frame.pts_ms, -1);
    assert_eq!(header_frame(vec![3], VideoEncoderType::H265).data, vec![3]);
}

#[test]
fn a_pipeline_runs_once() {
    let mut pipeline = AmlPipeline::new(AmlPipelineConfig::default());
    assert!(!pipeline.is_running());
    assert!(pipeline.start());
    assert!(!pipeline.start());
    assert!(pipeline.is_running());
    pipeline.request_keyframe();
    assert!(pipeline.take_keyframe_request());
    assert!(!pipeline.take_keyframe_request());
    pipeline.stop();
    assert!(!pipeline.is_running());
    pipeline.thread_ended();
    assert!(pipeline.thread_done);
}

#[test]
fn the_encoder_is_set_up() {
    let setup = new_encoder_setup(&request());
    assert_eq!((setup.frame_rate, setup.bit_rate, setup.gop), (1, 8_000_000, 30));
    assert_eq!((setup.qp_min, setup.qp_max, setup.qp_base), (0, 51, 30));
    assert_eq!(setup.bitstream_buf_sz_kb, 2048);
    assert!(setup.prepend_spspps_to_idr_frames);
    let mut large = request();
    large.bitrate_kbps = i32::MAX;
    assert_eq!(new_encoder_setup(&large).bit_rate, i32::MAX);
    assert_eq!(choose_bitstream_buf_sz_kb(3840, 2160), 4096);
    assert_eq!(choose_bitstream_buf_sz_kb(1920, 1079), 1024);
    assert_eq!(choose_bitstream_buf_sz_kb(-5, 0), 1024);
    assert_eq!(choose_bitstream_buf_sz_kb(i32::MAX, i32::MAX), 4096);
}

#[test]
fn an_encoder_without_a_handle_is_none() {
    assert_eq!(
        AmlVencEncoder::new(&request(), -1).unwrap_err(),
        AppError::VideoError(
            "vl_multi_encoder_init failed (handle=-1, codec=H264, 1920x1080, fps=0, \
             bitrate_kbps=8000, gop=30, gop_pattern=5, rc_mode=1)"
                .to_string()
        )
    );
    match AmlVencEncoder::new(&request(), i64::MIN).unwrap_err() {
        AppError::VideoError(text) => assert!(text.contains("(handle=-9223372036854775808,")),
        other => panic!("{other:?}"),
    }
    assert!(AmlVencEncoder::new(&request(), 0).is_err());
    let mut encoder = AmlVencEncoder::new(&request(), 1).unwrap();
    assert_eq!((encoder.width(), encoder.height()), (1920, 1080));
    assert_eq!(encoder.codec(), VlCodecId::H264);
    assert_eq!(encoder.take_frame_type(), VlFrameType::Auto);
    encoder.request_keyframe();
    assert_eq!(encoder.take_frame_type(), VlFrameType::Idr);
    assert_eq!(encoder.take_frame_type(), VlFrameType::Auto);
}

#[test]
fn what_the_encoder_answers_is_taken_up() {
    assert_eq!(stream_header(&metadata(0, true), vec![1, 2, 3], 2), Ok(vec![1, 2]));
    assert_eq!(stream_header(&metadata(0, true), vec![1, 2, 3], 9), Ok(vec![1, 2, 3]));
    assert_eq!(
        stream_header(&metadata(0, false), vec![1], 1),
        Err(AppError::VideoError(
            "vl_multi_encoder_generate_header failed: err=-3".to_string()
        ))
    );
    let frame = encoded_frame(&metadata(2, true), &[7, 8, 9], "encode_dma").unwrap();
    assert_eq!(frame.data, vec![7, 8]);
    assert!(!frame.is_delay && frame.is_keyframe);
    assert_eq!((frame.pts_us, frame.frame_type, frame.input_frame_num), (5500, 2, 4));
    let delayed = encoded_frame(&metadata(0, true), &[7], "encode_raw").unwrap();
    assert!(delayed.is_delay && delayed.data.is_empty());
    assert_eq!(
        encoded_frame(&metadata(2, false), &[], "encode_raw").unwrap_err(),
        AppError::VideoError("encode_raw failed: err=-3".to_string())
    );
    assert_eq!(setting_changed("change_gop", 0), Ok(()));
    assert_eq!(
        setting_changed("change_bitrate", -5),
        Err(AppError::VideoError("change_bitrate failed (rc=-5)".to_string()))
    );
}
