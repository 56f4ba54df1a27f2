//! The streamer and the manager of its modes.
use one_kvm::events::SystemEvent;
use one_kvm::ffi::vfmcap::VfmcapSignalInfo;
use one_kvm::types::AppError;
use one_kvm::video::device::{build_aml_video_device_info, enumerate_devices};
use one_kvm::video::format::{
    codec_to_string, PixelFormat, Resolution, VideoCodecType, VideoEncoderType,
};
use one_kvm::video::shared_video_pipeline::{
    BitratePreset, SharedVideoPipeline, SharedVideoPipelineConfig, StartRefusal,
};
use one_kvm::video::stream_manager::{
    after_apply, before_apply, closes_sessions_on_stop, codec_switch_events, get_video_info,
    is_rk_hdmirx_driver, mode_to_string, needs_mjpeg_format, plan_mode_start, webrtc_ready,
    ApplyAction, CaptureConfig, DeviceView, ModeStart, ModeSwitch, StreamManagerConfig,
    StreamMode, SwitchAction, SwitchReport, SwitchStart, VideoStreamManager,
};
use one_kvm::video::streamer::{
    signal_resolution, state_name, Streamer, StreamerConfig, StreamerState,
};

fn view(driver: &str, formats: Vec<PixelFormat>, current: PixelFormat) -> DeviceView {
    DeviceView {
        driver: driver.to_string(),
        card: "card".to_string(),
        formats,
        current_format: current,
    }
}

fn capture() -> CaptureConfig {
    CaptureConfig {
        device_path: Some("/dev/video_cap".to_string()),
        resolution: Resolution::hd1080(),
        format: PixelFormat::Nv12,
        fps: 30,
        jpeg_quality: 80,
    }
}

fn begin(manager: &mut VideoStreamManager, mode: StreamMode) -> ModeSwitch {
    let (transaction, start) = manager.begin_switch(mode, "t1".to_string(), VideoCodecType::H264);
    assert!(transaction.accepted && transaction.switching);
    assert_eq!(transaction.transition_id.as_deref(), Some("t1"));
    match start {
        SwitchStart::Started(_, run) => run,
        other => panic!("{other:?}"),
    }
}

#[test]
fn test_codec_to_string() {
    assert_eq!(codec_to_string(VideoCodecType::H264), "h264");
    assert_eq!(codec_to_string(VideoCodecType::H265), "h265");
    assert_eq!(codec_to_string(VideoCodecType::VP8), "vp8");
    assert_eq!(codec_to_string(VideoCodecType::VP9), "vp9");
}

#[test]
fn modes_have_names() {
    assert_eq!(mode_to_string(StreamMode::Mjpeg, VideoCodecType::H265), "mjpeg");
    assert_eq!(mode_to_string(StreamMode::WebRTC, VideoCodecType::H265), "h265");
    let config = StreamManagerConfig::default();
    assert_eq!(config.mode, StreamMode::WebRTC);
    assert_eq!((config.format, config.fps), (PixelFormat::Nv12, 30));
    assert_eq!(config.resolution, Resolution::new(1920, 1080));
}

#[test]
fn one_driver_is_known_in_any_case() {
    assert!(is_rk_hdmirx_driver("RK_hdmirx", "x"));
    assert!(is_rk_hdmirx_driver("x", "rk_HDMIRX"));
    assert!(!is_rk_hdmirx_driver("rk_hdmirx2", ""));
    assert!(needs_mjpeg_format(&view("x", vec![PixelFormat::Mjpeg], PixelFormat::Nv12)));
    assert!(!needs_mjpeg_format(&view("rk_hdmirx", vec![PixelFormat::Mjpeg], PixelFormat::Nv12)));
    assert!(!needs_mjpeg_format(&view("x", vec![PixelFormat::Nv12], PixelFormat::Nv12)));
    assert!(!needs_mjpeg_format(&view("x", vec![PixelFormat::Mjpeg], PixelFormat::Mjpeg)));
}

#[test]
fn a_manager_starts_in_one_mode() {
    let mut manager = VideoStreamManager::new();
    assert!(manager.is_mjpeg_enabled());
    assert!(!manager.is_switching());
    assert!(manager.init_with_mode(StreamMode::WebRTC, StreamerState::Uninitialized));
    assert!(manager.is_webrtc_enabled());
    assert!(!manager.init_with_mode(StreamMode::WebRTC, StreamerState::Ready));
    assert_eq!(manager.current_mode(), StreamMode::WebRTC);
}

#[test]
fn a_switch_to_the_current_mode_is_none() {
    let mut manager = VideoStreamManager::new();
    let (transaction, start) =
        manager.switch_mode_transaction(StreamMode::Mjpeg, VideoCodecType::H264);
    assert!(!transaction.accepted && !transaction.switching);
    assert!(transaction.transition_id.is_none());
    assert!(matches!(start, SwitchStart::Current { ensure_capture: false }));
    manager.init_with_mode(StreamMode::WebRTC, StreamerState::Ready);
    let (_, start) = manager.switch_mode_transaction(StreamMode::WebRTC, VideoCodecType::H264);
    assert!(matches!(start, SwitchStart::Current { ensure_capture: true }));
}

#[test]
fn one_switch_runs_at_a_time() {
    let mut manager = VideoStreamManager::new();
    let (first, start) =
        manager.switch_mode_transaction(StreamMode::WebRTC, VideoCodecType::H265);
    let id = first.transition_id.unwrap();
    assert_eq!(id.len(), 36);
    assert_eq!(&id[14..15], "4");
    match start {
        SwitchStart::Started(SystemEvent::StreamModeSwitching { transition_id, to_mode, from_mode }, _) => {
            assert_eq!(transition_id, id);
            assert_eq!((to_mode.as_str(), from_mode.as_str()), ("h265", "mjpeg"));
        }
        other => panic!("{other:?}"),
    }
    assert!(manager.is_switching());
    assert_eq!(manager.current_transition_id(), Some(id.clone()));
    let (second, start) =
        manager.switch_mode_transaction(StreamMode::WebRTC, VideoCodecType::H265);
    assert!(!second.accepted && second.switching);
    assert_eq!(second.transition_id, Some(id.clone()));
    assert!(matches!(start, SwitchStart::Busy));

    let mut other = VideoStreamManager::new();
    let (third, _) = other.switch_mode_transaction(StreamMode::WebRTC, VideoCodecType::H265);
    assert_ne!(third.transition_id, Some(id));
}

#[test]
fn the_current_mode_is_refused_while_it_is_left() {
    let mut manager = VideoStreamManager::new();
    let _run = begin(&mut manager, StreamMode::WebRTC);
    assert_eq!(manager.current_mode(), StreamMode::Mjpeg);
    let (transaction, start) =
        manager.switch_mode_transaction(StreamMode::Mjpeg, VideoCodecType::H264);
    assert!(!transaction.accepted && transaction.switching);
    assert_eq!(transaction.transition_id.as_deref(), Some("t1"));
    assert!(matches!(start, SwitchStart::Current { ensure_capture: false }));
    assert!(manager.is_switching());
    assert_eq!(manager.current_transition_id().as_deref(), Some("t1"));
}

#[test]
fn switching_to_webrtc() {
    let mut manager = VideoStreamManager::new();
    let mut run = begin(&mut manager, StreamMode::WebRTC);
    let done = SwitchReport::Done;
    match run.advance(&mut manager, &done) {
        SwitchAction::Publish(SystemEvent::StreamModeChanged { transition_id, mode, previous_mode }) => {
            assert_eq!(transition_id.as_deref(), Some("t1"));
            assert_eq!((mode.as_str(), previous_mode.as_str()), ("h264", "mjpeg"));
        }
        other => panic!("{other:?}"),
    }
    assert!(matches!(run.advance(&mut manager, &done), SwitchAction::StopMjpeg));
    assert!(manager.is_mjpeg_enabled());
    assert!(matches!(run.advance(&mut manager, &done), SwitchAction::AskState));
    assert!(manager.is_webrtc_enabled());
    let state = SwitchReport::State(StreamerState::Uninitialized);
    assert!(matches!(run.advance(&mut manager, &state), SwitchAction::InitCapture));
    assert!(matches!(run.advance(&mut manager, &done), SwitchAction::SyncCapture));
    assert!(matches!(run.advance(&mut manager, &done), SwitchAction::AskCodec));
    match run.advance(&mut manager, &SwitchReport::Codec(VideoCodecType::VP8, true)) {
        SwitchAction::Publish(SystemEvent::WebRTCReady { transition_id, codec, hardware }) => {
            assert_eq!(transition_id.as_deref(), Some("t1"));
            assert_eq!(codec, "vp8");
            assert!(hardware);
        }
        other => panic!("{other:?}"),
    }
    assert!(matches!(
        run.advance(&mut manager, &done),
        SwitchAction::Persist(StreamMode::WebRTC)
    ));
    assert!(matches!(run.advance(&mut manager, &done), SwitchAction::Finish));
    match manager.ready_event(&run, VideoCodecType::H264) {
        SystemEvent::StreamModeReady { transition_id, mode } => {
            assert_eq!((transition_id.as_str(), mode.as_str()), ("t1", "h264"));
        }
        other => panic!("{other:?}"),
    }
    assert!(manager.is_switching());
    manager.finish_switch();
    assert!(!manager.is_switching());
    assert_eq!(manager.current_transition_id(), None);
}

#[test]
fn a_change_is_announced_with_the_codec_of_the_moment() {
    let mut manager = VideoStreamManager::new();
    let mut run = begin(&mut manager, StreamMode::WebRTC);
    match run.advance(&mut manager, &SwitchReport::Codec(VideoCodecType::H265, true)) {
        SwitchAction::Publish(SystemEvent::StreamModeChanged { mode, previous_mode, .. }) => {
            assert_eq!((mode.as_str(), previous_mode.as_str()), ("h265", "mjpeg"));
        }
        other => panic!("{other:?}"),
    }
    assert!(matches!(
        run.advance(&mut manager, &SwitchReport::Done),
        SwitchAction::StopMjpeg
    ));
}

#[test]
fn switching_to_mjpeg() {
    let mut manager = VideoStreamManager::new();
    manager.init_with_mode(StreamMode::WebRTC, StreamerState::Ready);
    let mut run = begin(&mut manager, StreamMode::Mjpeg);
    let done = SwitchReport::Done;
    run.advance(&mut manager, &done);
    assert!(matches!(run.advance(&mut manager, &done), SwitchAction::CloseWebrtc));
    assert!(matches!(run.advance(&mut manager, &done), SwitchAction::AskDevice));
    let device = view("x", vec![PixelFormat::Mjpeg], PixelFormat::Nv12);
    let report = SwitchReport::Device(Some(device));
    assert!(matches!(run.advance(&mut manager, &report), SwitchAction::ApplyMjpegFormat));
    let failed = SwitchReport::Failed;
    assert!(matches!(run.advance(&mut manager, &failed), SwitchAction::StartMjpeg));
    assert!(matches!(
        run.advance(&mut manager, &done),
        SwitchAction::Persist(StreamMode::Mjpeg)
    ));
    assert!(matches!(run.advance(&mut manager, &done), SwitchAction::Finish));
}

#[test]
fn a_failed_switch_is_not_persisted() {
    let mut manager = VideoStreamManager::new();
    manager.init_with_mode(StreamMode::WebRTC, StreamerState::Ready);
    let mut run = begin(&mut manager, StreamMode::Mjpeg);
    let done = SwitchReport::Done;
    run.advance(&mut manager, &done);
    run.advance(&mut manager, &done);
    run.advance(&mut manager, &done);
    let action = run.advance(&mut manager, &SwitchReport::Device(None));
    assert!(matches!(action, SwitchAction::StartMjpeg));
    assert!(matches!(
        run.advance(&mut manager, &SwitchReport::Failed),
        SwitchAction::GiveUp
    ));
    match manager.ready_event(&run, VideoCodecType::H264) {
        SystemEvent::StreamModeReady { mode, .. } => assert_eq!(mode, "mjpeg"),
        other => panic!("{other:?}"),
    }
    manager.finish_switch();
    assert!(!manager.is_switching());
}

#[test]
fn applying_a_configuration_takes_these_steps() {
    let size = Resolution::hd720();
    assert!(before_apply(StreamMode::Mjpeg, PixelFormat::Nv12, size, 30).is_empty());
    assert_eq!(
        before_apply(StreamMode::WebRTC, PixelFormat::Nv12, size, 30),
        vec![ApplyAction::UpdateWebrtc(size, PixelFormat::Nv12, 30)]
    );
    assert_eq!(
        after_apply(StreamMode::Mjpeg, PixelFormat::Nv12, size, 30, &capture()),
        vec![ApplyAction::Start]
    );
    assert_eq!(
        after_apply(StreamMode::WebRTC, PixelFormat::Nv12, size, 30, &capture()),
        vec![
            ApplyAction::UpdateWebrtc(Resolution::hd1080(), PixelFormat::Nv12, 30),
            ApplyAction::SetCaptureDevice(80),
            ApplyAction::AnnounceWebrtc,
        ]
    );
    let mut none = capture();
    none.device_path = None;
    assert_eq!(
        after_apply(StreamMode::WebRTC, PixelFormat::Nv12, Resolution::hd1080(), 30, &none),
        vec![ApplyAction::AnnounceWebrtc]
    );
}

#[test]
fn starting_depends_on_mode_and_state() {
    assert_eq!(
        plan_mode_start(StreamMode::Mjpeg, StreamerState::Uninitialized),
        ModeStart::StartMjpeg
    );
    assert_eq!(
        plan_mode_start(StreamMode::WebRTC, StreamerState::Uninitialized),
        ModeStart::InitAndSync
    );
    assert_eq!(plan_mode_start(StreamMode::WebRTC, StreamerState::Ready), ModeStart::Sync);
    assert!(closes_sessions_on_stop(StreamMode::WebRTC));
    assert!(!closes_sessions_on_stop(StreamMode::Mjpeg));
}

#[test]
fn events_of_a_codec_switch() {
    let events = codec_switch_events("t", "h265", "h264", true);
    assert_eq!(events.len(), 3);
    match &events[0] {
        SystemEvent::StreamModeChanged { transition_id, mode, previous_mode } => {
            assert_eq!(transition_id.as_deref(), Some("t"));
            assert_eq!((mode.as_str(), previous_mode.as_str()), ("h265", "h264"));
        }
        other => panic!("{other:?}"),
    }
    assert!(matches!(&events[1], SystemEvent::WebRTCReady { hardware: true, .. }));
    assert!(matches!(&events[2], SystemEvent::StreamModeReady { .. }));
    match webrtc_ready(None, VideoCodecType::VP9, false) {
        SystemEvent::WebRTCReady { transition_id, codec, hardware } => {
            assert!(transition_id.is_none() && !hardware);
            assert_eq!(codec, "vp9");
        }
        other => panic!("{other:?}"),
    }
}

#[test]
fn the_video_status_shows_errors() {
    let shown = |state| get_video_info(state, StreamMode::WebRTC, VideoCodecType::H264, capture(), false);
    let status = shown(StreamerState::Streaming);
    assert!(status.available && status.online && !status.config_changing);
    assert_eq!(status.stream_mode, "h264");
    assert_eq!(status.error, None);
    assert_eq!(status.resolution, Resolution::hd1080());
    assert!(!shown(StreamerState::Uninitialized).available);
    assert_eq!(shown(StreamerState::Error).error.as_deref(), Some("Video stream error"));
    assert_eq!(shown(StreamerState::NoSignal).error.as_deref(), Some("No video signal"));
}

#[test]
fn a_streamer_finds_its_device() {
    let mut streamer = Streamer::new();
    assert_eq!(streamer.state, StreamerState::Uninitialized);
    assert_eq!(
        streamer.init_auto(Vec::new()).unwrap_err(),
        AppError::VideoError("No AML capture device available".to_string())
    );
    match streamer.init_auto(enumerate_devices(true)).unwrap() {
        SystemEvent::StreamStateChanged { state, device } => {
            assert_eq!(state, "ready");
            assert_eq!(device.as_deref(), Some("/dev/video_cap"));
        }
        other => panic!("{other:?}"),
    }
    assert_eq!(streamer.config.device_path.as_deref(), Some("/dev/video_cap"));
    assert_eq!(streamer.state, StreamerState::Ready);
}

#[test]
fn a_streamer_starts_and_stops() {
    let mut streamer = Streamer::with_config(StreamerConfig::default());
    assert!(streamer.start(Vec::new()).is_err());
    assert!(!streamer.is_streaming());
    assert_eq!(streamer.start(enumerate_devices(true)).unwrap().len(), 2);
    assert!(streamer.is_streaming() && streamer.mjpeg_online);
    assert_eq!(streamer.start(Vec::new()).unwrap().len(), 1);
    streamer.stop();
    assert!(!streamer.is_streaming() && !streamer.mjpeg_online);
    assert_eq!(streamer.state, StreamerState::Ready);

    let stats = streamer.stats(Some(Resolution::new(3840, 2160)), 2);
    assert_eq!(stats.resolution, Resolution::new(3840, 2160));
    assert_eq!(stats.device.as_deref(), Some("Amlogic StreamBox Capture"));
    assert_eq!((stats.clients, stats.target_fps), (2, 30));
    assert_eq!(streamer.stats(None, 0).resolution, Resolution::hd1080());
}

#[test]
fn a_streamer_takes_a_configuration() {
    let mut streamer = Streamer::new();
    let size = Resolution::new(640, 480);
    let missing = streamer.apply_video_config(enumerate_devices(true), "/x", PixelFormat::Nv12, size, 25);
    assert_eq!(
        missing.unwrap_err(),
        AppError::VideoError("Video device not found".to_string())
    );
    assert!(streamer.is_config_changing());
    assert!(streamer.current_device().is_none());
    assert_eq!(streamer.config.fps, 30);

    let devices = vec![
        build_aml_video_device_info("/a".to_string()),
        build_aml_video_device_info("/b".to_string()),
    ];
    let event = streamer.apply_video_config(devices, "/b", PixelFormat::Mjpeg, size, 25).unwrap();
    match event {
        SystemEvent::StreamConfigApplied { device, resolution, format, fps } => {
            assert_eq!(device, "/b");
            assert_eq!((resolution, format, fps), (size, PixelFormat::Mjpeg, 25));
        }
        other => panic!("{other:?}"),
    }
    assert!(!streamer.config_changing);
    assert_eq!(streamer.state, StreamerState::Ready);
    assert_eq!(streamer.current_device.as_ref().unwrap().path, "/b");
    assert_eq!(streamer.current_video_config(), (PixelFormat::Mjpeg, size, 25));
    assert_eq!(
        streamer.current_capture_config(),
        (Some("/b".to_string()), size, PixelFormat::Mjpeg, 25, 80)
    );
    assert_eq!(streamer.current_device().unwrap().path, "/b");
    assert!(!streamer.is_config_changing());
}

#[test]
fn states_have_names() {
    assert_eq!(state_name(StreamerState::Uninitialized), "uninitialized");
    assert_eq!(state_name(StreamerState::NoSignal), "no_signal");
    assert_eq!(state_name(StreamerState::DeviceLost), "device_lost");
    assert_eq!(state_name(StreamerState::Recovering), "recovering");
}

#[test]
fn a_signal_has_a_size() {
    let mut info = VfmcapSignalInfo {
        width: 1280,
        height: 720,
        fps: 60,
        pixelformat: 0,
        signal_type: 0,
        hdr_status: 0,
        is_interlaced: 0,
        status: 0,
        bitdepth: 8,
    };
    assert_eq!(signal_resolution(0, &info), Some(Resolution::hd720()));
    assert_eq!(signal_resolution(-1, &info), None);
    info.height = 0;
    assert_eq!(signal_resolution(0, &info), None);
}

#[test]
fn the_shared_pipeline_is_started_with_a_device() {
    let config = SharedVideoPipelineConfig::default();
    assert_eq!(config.resolution, Resolution::hd720());
    let mut pipeline = SharedVideoPipeline::new(config);
    let started = pipeline.start_with_device("/d".to_string(), 6000).unwrap().unwrap();
    assert_eq!((started.max_width, started.max_height, started.max_fps), (1280, 720, 30));
    assert_eq!((started.bitrate_kbps, started.gop), (6000, 30));
    assert_eq!(started.device, "/d");
    assert_eq!(started.output_codec, VideoEncoderType::H264);
    pipeline.mark_running();
    assert!(pipeline.is_running());
    assert!(pipeline.start_with_device("/d".to_string(), 6000).unwrap().is_none());
    assert_eq!(
        pipeline.take_pending_sync_geometry(),
        Some((Resolution::hd720(), PixelFormat::Nv12))
    );
    assert_eq!(pipeline.take_pending_sync_geometry(), None);
    pipeline.stop();
    assert!(!pipeline.is_running());
}

#[test]
fn the_shared_pipeline_refuses_other_codecs() {
    let mut config = SharedVideoPipelineConfig::default();
    config.output_codec = VideoEncoderType::VP8;
    config.bitrate_preset = BitratePreset::Kbps(500);
    let mut pipeline = SharedVideoPipeline::new(config);
    assert_eq!(
        pipeline.start_with_device("/d".to_string(), 1).unwrap_err(),
        StartRefusal::UnsupportedCodec(VideoEncoderType::VP8)
    );
    pipeline.config.output_codec = VideoEncoderType::H265;
    let started = pipeline.start_with_device("/d".to_string(), 1).unwrap().unwrap();
    assert_eq!(started.bitrate_kbps, 500);
}
