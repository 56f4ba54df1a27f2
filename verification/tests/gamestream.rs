//! Launching a session, the RTSP handshake and the control channel.
use one_kvm::sunshine::control::{
    classify_control_packet, handle_control_event, ControlAction, ControlEvent, ControlPacket,
};
use one_kvm::sunshine::launch::{
    applist, cancel_response, launch, parse_launch_resolution, parse_mode, prepare_session,
    serverinfo, stop_session, GameStreamLaunchSession,
};
use one_kvm::sunshine::pairing::PairedClient;
use one_kvm::sunshine::rtsp::{
    build_gamestream_sdp, find_head_end, gamestream_setup_kind, handle_rtsp_request,
    packet_size_of, parse_client_port, parse_gamestream_rtsp_request, parse_sdp_usize_attr,
    receive_rtsp_bytes, rtsp_message_bounds, rtsp_response, serve_rtsp, take_rtsp_message,
    video_target, RtspFollowUp, RtspTurn, StreamKind,
};
use one_kvm::text_map::TextMap;
use one_kvm::types::{AppError, RtspCodec, RtspConfig, SunshineConfig};

fn query(pairs: &[(&str, &str)]) -> TextMap<String> {
    let mut map = TextMap::new();
    for (name, value) in pairs {
        map.insert(name.to_string(), value.to_string());
    }
    map
}

fn config() -> SunshineConfig {
    SunshineConfig {
        enabled: true,
        bind: "0.0.0.0".to_string(),
        http_port: 47989,
        https_port: 47984,
        hostname: "My <Box>".to_string(),
        unique_id: String::new(),
        app_id: 1,
        app_title: "HDMI & more".to_string(),
    }
}

fn session() -> GameStreamLaunchSession {
    let asked = query(&[("rikey", "k"), ("rikeyid", "i"), ("mode", "1280x720x30")]);
    prepare_session(&asked, 1, RtspCodec::H265, &[0xab; 8], 77)
}

fn request(text: &str) -> Vec<u8> {
    text.as_bytes().to_vec()
}

fn answer(slot: &mut Option<GameStreamLaunchSession>, text: &str) -> (String, RtspFollowUp) {
    let parsed = parse_gamestream_rtsp_request(text.as_bytes()).unwrap();
    handle_rtsp_request(slot, RtspCodec::H264, "10.0.0.9", &parsed)
}

#[test]
fn server_information_names_the_host() {
    let clients = vec![PairedClient {
        name: "a".to_string(),
        uuid: "u".to_string(),
        cert: String::new(),
        enabled: true,
    }];
    let rtsp = RtspConfig { codec: RtspCodec::H265 };
    let asked = query(&[("uniqueid", "u")]);
    let reply = serverinfo(&config(), &rtsp, "id&1", &clients, "10.0.0.2", &asked);
    assert_eq!(reply.status, 200);
    assert_eq!(
        reply.body,
        concat_all(&[
            "<root protocol_version=\"0.1\" query=\"serverinfo\" status_code=\"200\" ",
            "status_message=\"OK\"><hostname>My &lt;Box&gt;</hostname>",
            "<appversion>7.1.431.-1</appversion><GfeVersion>3.23.0.74</GfeVersion>",
            "<uniqueid>id&amp;1</uniqueid><HttpsPort>47984</HttpsPort>",
            "<ExternalPort>47989</ExternalPort><MaxLumaPixelsHEVC>1869449984</MaxLumaPixelsHEVC>",
            "<mac>00:00:00:00:00:00</mac><LocalIP>10.0.0.2</LocalIP>",
            "<ServerCodecModeSupport>769</ServerCodecModeSupport><PairStatus>1</PairStatus>",
            "<currentgame>0</currentgame><state>SUNSHINE_SERVER_FREE</state></root>",
        ])
    );

    let rtsp = RtspConfig { codec: RtspCodec::H264 };
    let reply = serverinfo(&config(), &rtsp, "x", &clients, "::1", &query(&[]));
    assert!(reply.body.contains("<MaxLumaPixelsHEVC>0</MaxLumaPixelsHEVC>"));
    assert!(reply.body.contains("<ServerCodecModeSupport>1</ServerCodecModeSupport>"));
    assert!(reply.body.contains("<PairStatus>0</PairStatus>"));
}

fn concat_all(parts: &[&str]) -> String {
    parts.concat()
}

#[test]
fn the_app_list_has_one_app() {
    let reply = applist(&config(), &RtspConfig { codec: RtspCodec::H265 });
    assert!(reply.body.contains("<AppTitle>HDMI &amp; more</AppTitle><CmsId>1</CmsId>"));
    assert!(reply.body.contains("<ID>1</ID>"));
    assert!(reply.body.contains("<IsHdrSupported>1</IsHdrSupported>"));
    assert!(reply.body.ends_with(
        "<UniqueId>1</UniqueId><simulateControllers>0</simulateControllers></App></root>"
    ));
    let reply = applist(&config(), &RtspConfig { codec: RtspCodec::H264 });
    assert!(reply.body.contains("<IsHdrSupported>0</IsHdrSupported>"));
}

#[test]
fn a_mode_is_width_height_and_rate() {
    assert_eq!(parse_mode("1920x1080x60"), Some((1920, 1080, 60)));
    assert_eq!(parse_mode("1920x1080x120"), Some((1920, 1080, 120)));
    assert_eq!(parse_mode("1920x1080x0"), Some((1920, 1080, 0)));
    assert_eq!(parse_mode("1x2x3x4"), Some((1, 2, 3)));
    assert_eq!(parse_mode("1920x1080"), None);
    assert_eq!(parse_mode("1920xax60"), None);
}

#[test]
fn a_resolution_has_defaults() {
    assert_eq!(parse_launch_resolution(&query(&[])), (1920, 1080, 60));
    assert_eq!(
        parse_launch_resolution(&query(&[("width", "800"), ("height", "x"), ("fps", "90")])),
        (800, 1080, 60)
    );
    assert_eq!(
        parse_launch_resolution(&query(&[("mode", "bad"), ("fps", "0")])),
        (1920, 1080, 1)
    );
    assert_eq!(
        parse_launch_resolution(&query(&[("mode", "+640x480x25"), ("width", "1")])),
        (640, 480, 25)
    );
    assert_eq!(parse_launch_resolution(&query(&[("mode", "640x480x120")])), (640, 480, 60));
    assert_eq!(parse_launch_resolution(&query(&[("mode", "640x480x0")])), (640, 480, 1));
    assert_eq!(
        parse_launch_resolution(&query(&[("width", "4294967296")])),
        (1920, 1080, 60)
    );
}

#[test]
fn a_launch_needs_its_keys() {
    let mut slot = None;
    let rtsp = RtspConfig { codec: RtspCodec::H264 };
    let (reply, stop) = launch(&mut slot, &config(), &rtsp, "10.0.0.2", &query(&[("rikey", "k")]));
    assert!(!stop);
    assert!(slot.is_none());
    assert_eq!(
        reply.body,
        concat_all(&[
            "<root protocol_version=\"0.1\" query=\"launch\" status_code=\"400\" ",
            "status_message=\"Missing required launch parameter\">",
            "<gamesession>0</gamesession></root>",
        ])
    );
}

#[test]
fn a_launch_prepares_a_session() {
    let mut slot = None;
    let rtsp = RtspConfig { codec: RtspCodec::H265 };
    let asked = query(&[
        ("rikey", "key"),
        ("rikeyid", "5"),
        ("uniqueid", "u"),
        ("appid", "9"),
        ("mode", "2560x1440x120"),
    ]);
    let (reply, stop) = launch(&mut slot, &config(), &rtsp, "10.0.0.2", &asked);
    assert!(stop);
    assert_eq!(
        reply.body,
        concat_all(&[
            "<root protocol_version=\"0.1\" query=\"launch\" status_code=\"200\" ",
            "status_message=\"OK\"><sessionUrl0>rtsp://10.0.0.2:48010</sessionUrl0>",
            "<gamesession>1</gamesession><resume>1</resume></root>",
        ])
    );
    let made = slot.as_ref().unwrap();
    assert_eq!(made.unique_id, "u");
    assert_eq!(made.app_id, 9);
    assert_eq!((made.width, made.height, made.fps), (2560, 1440, 60));
    assert_eq!((made.ri_key.as_str(), made.ri_key_id.as_str()), ("key", "5"));
    assert_eq!(made.codec, RtspCodec::H265);
    assert_eq!(made.video_packet_size, 1024);
    assert!(made.video_client.is_none());
    assert_eq!(made.av_ping_payload.len(), 16);
    assert!(made.av_ping_payload.bytes().all(|b| b.is_ascii_hexdigit()));

    let first = made.av_ping_payload.clone();
    let mut draws = Vec::new();
    for _ in 0..4 {
        launch(&mut slot, &config(), &rtsp, "10.0.0.2", &asked);
        draws.push(slot.as_ref().unwrap().av_ping_payload.clone());
    }
    assert!(draws.iter().any(|payload| *payload != first));

    assert!(stop_session(&mut slot));
    assert!(slot.is_none());
    assert!(!stop_session(&mut slot));
    assert_eq!(cancel_response().body, "<root status_code=\"200\"><cancel>1</cancel></root>");
}

#[test]
fn a_session_takes_what_was_drawn() {
    let made = session();
    assert_eq!(made.av_ping_payload, "abababababababab");
    assert_eq!(made.control_connect_data, 77);
    assert_eq!(made.app_id, 1);
    assert_eq!(made.unique_id, "");
}

#[test]
fn a_message_ends_behind_its_body() {
    let mut buffer = request("OPTIONS a RTSP/1.0\r\nContent-LENGTH: 3\r\n\r\nabcNEXT");
    assert_eq!(find_head_end(&buffer), Some(41));
    assert_eq!(rtsp_message_bounds(&buffer), Some((41, 3)));
    let taken = take_rtsp_message(&mut buffer).unwrap();
    assert_eq!(taken.len(), 44);
    assert_eq!(buffer, request("NEXT"));
    assert!(take_rtsp_message(&mut buffer).is_none());
    assert_eq!(buffer, request("NEXT"));

    assert_eq!(rtsp_message_bounds(b"no end"), None);
    assert_eq!(rtsp_message_bounds(b"A: 1\r\n\r\n"), Some((8, 0)));
    assert_eq!(rtsp_message_bounds(b"content-length: x\r\n\r\n"), Some((21, 0)));
    assert_eq!(
        rtsp_message_bounds(b"content-length: x\r\ncontent-length: 7\r\n\r\n"),
        Some((40, 7))
    );
    assert_eq!(rtsp_message_bounds(b"\xff\r\n\r\n"), None);
}

#[test]
fn a_body_that_is_too_long_never_completes() {
    let mut buffer = request("A b\r\ncontent-length: 18446744073709551615\r\n\r\n");
    assert!(take_rtsp_message(&mut buffer).is_none());
}

#[test]
fn a_connection_may_not_pend_too_much() {
    let mut buffer = Vec::new();
    assert_eq!(receive_rtsp_bytes(&mut buffer, b"abc"), Ok(true));
    assert_eq!(receive_rtsp_bytes(&mut buffer, b""), Ok(false));
    assert_eq!(buffer, b"abc");
    assert_eq!(
        receive_rtsp_bytes(&mut buffer, &vec![0u8; 262142]),
        Err(AppError::BadRequest("GameStream RTSP request too large".to_string()))
    );
}

#[test]
fn requests_are_parsed() {
    let parsed = parse_gamestream_rtsp_request(
        b"describe  rtsp://x RTSP/1.0\r\nCSeq :  4 \r\nnothing\r\nX: a:b\r\n\r\nbody",
    )
    .unwrap();
    assert_eq!(parsed.method, "DESCRIBE");
    assert_eq!(parsed.uri, "rtsp://x");
    assert_eq!(parsed.cseq, "4");
    assert_eq!(parsed.headers.get("x").unwrap(), "a:b");
    assert!(parsed.headers.get("nothing").is_none());
    assert_eq!(parsed.body, b"body");

    let plain = parse_gamestream_rtsp_request(b"A b\r\n\r\n").unwrap();
    assert_eq!(plain.cseq, "1");
    assert!(parse_gamestream_rtsp_request(b"A\r\n\r\n").is_none());
    assert!(parse_gamestream_rtsp_request(b"A b").is_none());
    assert!(parse_gamestream_rtsp_request(b"\xff b\r\n\r\n").is_none());
}

#[test]
fn responses_state_the_length_of_their_body() {
    let headers = vec![("A".to_string(), "b".to_string())];
    assert_eq!(
        rtsp_response("7", &headers, "é"),
        "RTSP/1.0 200 OK\r\nCSeq: 7\r\nA: b\r\nContent-Length: 2\r\n\r\né"
    );
    assert_eq!(
        rtsp_response("1", &Vec::new(), ""),
        "RTSP/1.0 200 OK\r\nCSeq: 1\r\nContent-Length: 0\r\n\r\n"
    );
}

#[test]
fn the_description_follows_the_session() {
    let expected = |probe: &str, w: u32, h: u32, fps: u32, kind: u32, name: &str| {
        format!(
            "v=0\r\no=One-KVM 0 0 IN IP4 127.0.0.1\r\ns=One-KVM HDMI Input\r\nt=0 0\r\n\
             a=x-ss-general.featureFlags:135\r\na=x-ss-general.encryptionSupported:0\r\n\
             a=x-ss-general.encryptionRequested:0\r\n{probe}\
             a=x-nv-video[0].clientViewportWd:{w}\r\na=x-nv-video[0].clientViewportHt:{h}\r\n\
             a=x-nv-video[0].maxFPS:{fps}\r\nm=video 47998 RTP/AVP {kind}\r\n\
             a=rtpmap:{kind} {name}/90000\r\na=control:streamid=video\r\n\
             m=audio 48000 RTP/AVP 97\r\na=rtpmap:97 OPUS/48000/2\r\n\
             a=control:streamid=audio\r\nm=application 47999 udp 0\r\n\
             a=control:streamid=control\r\n"
        )
    };
    assert_eq!(
        build_gamestream_sdp(&None, RtspCodec::H264),
        expected("", 1920, 1080, 60, 96, "H264")
    );
    assert_eq!(
        build_gamestream_sdp(&Some(session()), RtspCodec::H264),
        expected("sprop-parameter-sets=AAAAAU\r\n", 1280, 720, 30, 99, "H265")
    );
}

#[test]
fn attributes_are_read_from_a_description() {
    let body = "v=0\r\na=size: 12 \na=size:13\r\n";
    assert_eq!(parse_sdp_usize_attr(body, "size"), Some(12));
    assert_eq!(parse_sdp_usize_attr("a=size:x\na=size:13", "size"), None);
    assert_eq!(parse_sdp_usize_attr(body, "other"), None);
    assert_eq!(packet_size_of("a=x-nv-video[0].packetSize:1392"), Some(1392));
    assert_eq!(packet_size_of("a=x-nv-video[0].packetSize:16"), None);
    assert_eq!(packet_size_of("a=x-nv-video[0].packetSize:17"), Some(17));
}

#[test]
fn set_ups_are_told_apart() {
    assert_eq!(gamestream_setup_kind("streamid=AUDIO/0/0"), StreamKind::Audio);
    assert_eq!(gamestream_setup_kind("streamid=control/1/0"), StreamKind::Control);
    assert_eq!(gamestream_setup_kind("streamid=video/0/0"), StreamKind::Video);
    assert_eq!(gamestream_setup_kind("audio/control"), StreamKind::Audio);
    assert_eq!(gamestream_setup_kind(""), StreamKind::Video);
}

#[test]
fn client_ports_are_read() {
    let port = |text: &str| parse_client_port(Some(&text.to_string()));
    assert_eq!(port("unicast;X-GS-ClientPort=50000-50001"), Some(50000));
    assert_eq!(port("unicast; Client_Port = 7"), None);
    assert_eq!(port("client_port=7"), Some(7));
    assert_eq!(port("client_port=70000;client_port=8"), Some(8));
    assert_eq!(port("unicast"), None);
    assert_eq!(parse_client_port(None), None);
}

#[test]
fn the_methods_are_answered() {
    let mut slot = Some(session());
    let (text, next) = answer(&mut slot, "OPTIONS x\r\nCSeq: 2\r\n\r\n");
    assert_eq!(
        text,
        "RTSP/1.0 200 OK\r\nCSeq: 2\r\n\
         Public: OPTIONS, DESCRIBE, SETUP, ANNOUNCE, PLAY, TEARDOWN\r\nContent-Length: 0\r\n\r\n"
    );
    assert_eq!(next, RtspFollowUp::Nothing);

    let sdp = build_gamestream_sdp(&slot, RtspCodec::H264);
    let (text, _) = answer(&mut slot, "DESCRIBE x\r\n\r\n");
    assert_eq!(
        text,
        format!(
            "RTSP/1.0 200 OK\r\nCSeq: 1\r\nContent-Type: application/sdp\r\n\
             Content-Length: {}\r\n\r\n{sdp}",
            sdp.len()
        )
    );

    let (_, next) = answer(&mut slot, "PLAY x\r\n\r\n");
    assert_eq!(next, RtspFollowUp::StartVideo);
    let (_, next) = answer(&mut slot, "teardown x\r\n\r\n");
    assert_eq!(next, RtspFollowUp::StopSession);
    let (text, next) = answer(&mut slot, "OTHER x\r\n\r\n");
    assert_eq!(text, "RTSP/1.0 200 OK\r\nCSeq: 1\r\nContent-Length: 0\r\n\r\n");
    assert_eq!(next, RtspFollowUp::Nothing);
    assert!(slot.is_some());
}

#[test]
fn announcing_sets_the_packet_size() {
    let mut slot = Some(session());
    answer(&mut slot, "ANNOUNCE x\r\n\r\na=x-nv-video[0].packetSize:1392\r\n");
    assert_eq!(slot.as_ref().unwrap().video_packet_size, 1392);
    answer(&mut slot, "ANNOUNCE x\r\n\r\na=x-nv-video[0].packetSize:9\r\n");
    assert_eq!(slot.as_ref().unwrap().video_packet_size, 1392);

    let mut raw =
        b"ANNOUNCE x\r\ncontent-length: 34\r\n\r\n\xff\r\na=x-nv-video[0].packetSize:1000".to_vec();
    let turn = serve_rtsp(&mut raw, &mut slot, RtspCodec::H264, "10.0.0.9");
    assert!(matches!(turn, RtspTurn::Respond(_, RtspFollowUp::Nothing)));
    assert!(raw.is_empty());
    assert_eq!(slot.as_ref().unwrap().video_packet_size, 1000);
}

#[test]
fn setting_up_learns_the_port() {
    let mut slot = Some(session());
    let (text, _) = answer(
        &mut slot,
        "SETUP streamid=video\r\nTransport: unicast;client_port=5000-5001\r\n\r\n",
    );
    assert_eq!(
        text,
        "RTSP/1.0 200 OK\r\nCSeq: 1\r\nSession: DEADBEEFCAFE;timeout = 90\r\n\
         Transport: server_port=47998\r\nX-SS-Ping-Payload: abababababababab\r\n\
         Content-Length: 0\r\n\r\n"
    );
    let target = video_target(&slot).unwrap();
    assert_eq!((target.host.as_str(), target.port), ("10.0.0.9", 5000));

    let (text, _) = answer(&mut slot, "SETUP control\r\n\r\n");
    assert!(text.contains("Transport: server_port=47999\r\nX-SS-Connect-Data: 77\r\n"));
    let mut none = None;
    let (text, _) = answer(&mut none, "SETUP audio\r\nTransport: client_port=5000\r\n\r\n");
    assert!(text.contains("server_port=48000\r\nX-SS-Ping-Payload: 0000000000000000\r\n"));
    let (text, _) = answer(&mut none, "SETUP control\r\n\r\n");
    assert!(text.contains("X-SS-Connect-Data: 0\r\n"));
    assert!(none.is_none());
    assert!(video_target(&None).is_none());
    assert!(video_target(&Some(session())).is_none());
}

#[test]
fn a_connection_is_served_once_a_request_is_whole() {
    let mut slot = Some(session());
    let mut buffer = request("OPTIONS x\r\nCSeq: 3\r\n\r");
    let turn = serve_rtsp(&mut buffer, &mut slot, RtspCodec::H264, "h");
    assert!(matches!(turn, RtspTurn::ReadMore));
    assert_eq!(buffer.len(), 21);

    let mut buffer = request("bad\r\n\r\nPLAY x\r\nCSeq: 5\r\n\r\nrest");
    match serve_rtsp(&mut buffer, &mut slot, RtspCodec::H264, "h") {
        RtspTurn::Respond(text, next) => {
            assert!(text.starts_with("RTSP/1.0 200 OK\r\nCSeq: 5\r\n"));
            assert_eq!(next, RtspFollowUp::StartVideo);
        }
        other => panic!("{other:?}"),
    }
    assert_eq!(buffer, request("rest"));
}

#[test]
fn framing_ignores_what_follows() {
    let whole = request("A b\r\ncontent-length: 2\r\n\r\nxy");
    let mut longer = whole.clone();
    longer.extend_from_slice(b"content-length: 9\r\n\r\n");
    assert_eq!(rtsp_message_bounds(&whole), rtsp_message_bounds(&longer));
}

#[test]
fn control_packets_are_classified() {
    assert_eq!(
        classify_control_packet(&[1, 0, 4, 1, 9, 0, 0, 1, 7]),
        ControlPacket::Encrypted { packet_len: 0x0104, seq: 0x0100_0009 }
    );
    assert_eq!(
        classify_control_packet(&[1, 0, 4, 1, 9, 0, 0]),
        ControlPacket::Plain { packet_type: Some(1) }
    );
    assert_eq!(
        classify_control_packet(&[7, 3]),
        ControlPacket::Plain { packet_type: Some(0x0307) }
    );
    assert_eq!(classify_control_packet(&[7]), ControlPacket::Plain { packet_type: None });
}

#[test]
fn only_the_launched_client_may_control() {
    let mut slot = Some(session());
    let refused = handle_control_event(&mut slot, &ControlEvent::Connect(76));
    assert!(matches!(refused, ControlAction::Reject));
    let kept = handle_control_event(&mut slot, &ControlEvent::Connect(77));
    assert!(matches!(
        kept,
        ControlAction::Accept { retries: 2, min_timeout_ms: 10000, max_timeout_ms: 10000 }
    ));
    assert!(slot.is_some());
    let mut none = None;
    let kept = handle_control_event(&mut none, &ControlEvent::Connect(1));
    assert!(matches!(kept, ControlAction::Accept { .. }));
}

#[test]
fn the_control_channel_ends_the_session() {
    let mut slot = Some(session());
    let noted = handle_control_event(&mut slot, &ControlEvent::Receive(vec![5, 0]));
    assert!(matches!(
        noted,
        ControlAction::Note(ControlPacket::Plain { packet_type: Some(5) })
    ));
    let idle = handle_control_event(&mut slot, &ControlEvent::Idle);
    assert!(matches!(idle, ControlAction::Wait(2)));
    let failed = handle_control_event(&mut slot, &ControlEvent::Failed);
    assert!(matches!(failed, ControlAction::Wait(20)));
    assert!(slot.is_some());
    let over = handle_control_event(&mut slot, &ControlEvent::Disconnect);
    assert!(matches!(over, ControlAction::StopVideo));
    assert!(slot.is_none());
}
