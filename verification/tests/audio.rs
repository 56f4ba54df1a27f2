//! Audio capture endpoints.
use one_kvm::audio::device::{
    best_position, channel_counts, common_rates, endpoint_info, enumerate_audio_devices,
    enumerate_audio_devices_with_current, find_best_audio_device, friendly_audio_description,
    get_pcm_description, get_usb_bus_info, is_aml_audio_card, is_hdmi_capture_device,
    is_hdmi_rx_description, is_hdmi_rx_device, plan_endpoint, query_device_caps,
    should_expose_capture_device, usb_place, AudioCard, AudioClass, AudioDeviceInfo, CardProbes,
    EndpointProbe,
};
use one_kvm::types::AppError;

fn card(index: i32, longname: &str, link: Option<&str>) -> AudioCard {
    AudioCard {
        index,
        name: Some("short".to_string()),
        longname: Some(longname.to_string()),
        device_link: link.map(|l| l.to_string()),
    }
}

fn opened() -> EndpointProbe {
    EndpointProbe::Opened { sample_rates: vec![48000], channels: vec![2] }
}

fn probes(card: AudioCard, first: EndpointProbe) -> CardProbes {
    let mut endpoints = vec![first];
    while endpoints.len() < 9 {
        endpoints.push(EndpointProbe::Unavailable);
    }
    CardProbes { card, endpoints }
}

fn device(description: &str, is_hdmi: bool, rate: u32) -> AudioDeviceInfo {
    AudioDeviceInfo {
        name: "hw:0,0".to_string(),
        description: description.to_string(),
        card_index: 0,
        device_index: 0,
        sample_rates: vec![rate],
        channels: vec![2],
        is_capture: true,
        is_hdmi,
        usb_bus: None,
    }
}

#[test]
fn test_hdmi_rx_description_is_friendly() {
    let description = friendly_audio_description(
        "AML-AUGESOUND",
        "hw:0,0",
        Some("TDM-B-dummy-alsaPORT-i2s-i2s4hdmirx soc:dummy-0"),
        None,
    );

    assert_eq!(description, "HDMI IN Audio (hw:0,0)");
}

#[test]
fn test_aml_internal_endpoint_is_hidden() {
    assert!(!should_expose_capture_device(
        "AML-AUGESOUND",
        Some("SPDIF-dummy-alsaPORT-spdif soc:dummy-1"),
        None,
    ));
}

#[test]
fn test_usb_capture_endpoint_is_visible() {
    assert!(should_expose_capture_device(
        "USB Audio",
        Some("USB Audio Capture"),
        Some("1-1"),
    ));
}

#[test]
fn test_enumerate_devices() {
    let result = enumerate_audio_devices(&Vec::new(), &None);
    println!("Audio devices: {:?}", result);
    assert!(result.is_ok());
}

#[test]
fn descriptions_tell_where_the_sound_comes_from() {
    assert_eq!(
        friendly_audio_description("Card", "hw:1,0", None, Some("1-2")),
        "USB Audio Capture 1-2 (hw:1,0)"
    );
    assert_eq!(
        friendly_audio_description("Card", "hw:1,0", Some("PCM"), None),
        "Card - PCM (hw:1,0)"
    );
    assert_eq!(friendly_audio_description("Card", "hw:1,0", None, None), "Card (hw:1,0)");
}

#[test]
fn case_does_not_matter_in_names() {
    assert!(is_aml_audio_card("Aml-AugeSound"));
    assert!(is_aml_audio_card("AMLOGIC card"));
    assert!(!is_aml_audio_card("USB"));
    assert!(is_hdmi_rx_description("HDMI-RX"));
    assert!(is_hdmi_rx_description("xI2S4HDMIRXx"));
    assert!(!is_hdmi_rx_description("HDMI"));
    assert!(is_hdmi_capture_device("card", Some("HDMI out")));
    assert!(!is_hdmi_capture_device("card", Some("HDMI SPDIF")));
    assert!(is_hdmi_capture_device("USB card", None));
    assert!(is_hdmi_capture_device("card", Some("USB")));
    assert!(!is_hdmi_capture_device("card", None));
}

#[test]
fn usb_places_are_found_in_links() {
    assert_eq!(usb_place("../../usb1/1-1/1-1:1.0"), Some("1-1".to_string()));
    assert_eq!(usb_place("../../a-1/x"), None);
    assert_eq!(usb_place(""), None);
    assert_eq!(get_usb_bus_info(&card(0, "x", Some("usb1/3-4.1"))), Some("3-4.1".to_string()));
    assert_eq!(get_usb_bus_info(&card(-1, "x", Some("usb1/3-4.1"))), None);
    assert_eq!(get_usb_bus_info(&card(0, "x", None)), None);
}

#[test]
fn descriptions_are_read_from_the_list() {
    let list = "00-00: TDM-B : x : playback 1\n01-02:  USB Audio : USB : capture 1\n02-00:  \n";
    assert_eq!(get_pcm_description(list, 0, 0), Some("TDM-B".to_string()));
    assert_eq!(get_pcm_description(list, 1, 2), Some("USB Audio".to_string()));
    assert_eq!(get_pcm_description(list, 2, 0), None);
    assert_eq!(get_pcm_description(list, 3, 0), None);
    assert_eq!(get_pcm_description("-1-00: x", -1, 0), Some("x".to_string()));
    assert_eq!(get_pcm_description("123-10: y", 123, 10), Some("y".to_string()));
}

#[test]
fn what_a_device_answers_is_kept() {
    assert_eq!(common_rates(), vec![8000, 16000, 22050, 44100, 48000, 96000]);
    assert_eq!(channel_counts(), vec![1, 2, 3, 4, 5, 6, 7, 8]);
    assert_eq!(
        query_device_caps(&vec![1, 2, 3], &vec![true, false, true]),
        vec![1, 3]
    );
}

#[test]
fn hidden_endpoints_are_not_probed() {
    let list = Some("00-00: SPDIF : x\n00-01: i2s4hdmirx : y".to_string());
    let aml = card(0, "AML-AUGESOUND", None);
    assert!(plan_endpoint(&aml, 0, &list, &None).is_none());
    let wanted = plan_endpoint(&aml, 0, &list, &Some("hw:0,0".to_string())).unwrap();
    assert!(wanted.is_current);
    let rx = plan_endpoint(&aml, 1, &list, &None).unwrap();
    assert_eq!(rx.name, "hw:0,1");
    assert_eq!(rx.description, "HDMI IN Audio (hw:0,1)");
    assert!(rx.is_hdmi);
    assert!(!rx.is_current);
}

#[test]
fn a_busy_current_endpoint_has_default_capabilities() {
    let plain = card(2, "Card", None);
    let current = Some("hw:2,0".to_string());
    let plan = plan_endpoint(&plain, 0, &None, &current).unwrap();
    let info = endpoint_info(plan, &EndpointProbe::Unavailable).unwrap();
    assert_eq!(info.description, "Card (hw:2,0) (in use)");
    assert_eq!(info.sample_rates, vec![44100, 48000]);
    assert_eq!(info.channels, vec![2]);

    let plan = plan_endpoint(&plain, 0, &None, &None).unwrap();
    assert!(endpoint_info(plan, &EndpointProbe::Unavailable).is_none());
    let plan = plan_endpoint(&plain, 0, &None, &None).unwrap();
    let none = EndpointProbe::Opened { sample_rates: Vec::new(), channels: vec![2] };
    assert!(endpoint_info(plan, &none).is_none());
}

#[test]
fn cards_are_listed_in_order() {
    let cards = vec![
        probes(card(0, "AML-AUGESOUND", None), opened()),
        probes(card(1, "USB card", Some("usb/1-1")), opened()),
        probes(
            AudioCard { index: 2, name: None, longname: None, device_link: None },
            opened(),
        ),
    ];
    let list = Some("00-00: SPDIF : x".to_string());
    let devices = enumerate_audio_devices(&cards, &list).unwrap();
    let names: Vec<&str> = devices.iter().map(|d| d.name.as_str()).collect();
    assert_eq!(names, vec!["hw:1,0", "hw:2,0"]);
    assert_eq!(devices[0].usb_bus.as_deref(), Some("1-1"));
    assert_eq!(devices[0].description, "USB Audio Capture 1-1 (hw:1,0)");
    assert_eq!(devices[1].description, "Unknown (hw:2,0)");

    let current = Some("hw:0,3".to_string());
    let devices = enumerate_audio_devices_with_current(&cards, &list, &current).unwrap();
    assert_eq!(devices.len(), 3);
    assert_eq!(devices[0].name, "hw:0,3");
    assert_eq!(devices[0].description, "AML-AUGESOUND (hw:0,3) (in use)");
}

#[test]
fn the_best_endpoint_is_the_hdmi_input() {
    let best = |devices: Vec<AudioDeviceInfo>| find_best_audio_device(devices).map(|d| d.description);
    assert_eq!(
        best(Vec::new()),
        Err(AppError::AudioError("No audio capture devices found".to_string()))
    );
    assert_eq!(
        best(vec![
            device("mic", false, 48000),
            device("usb", true, 48000),
            device("HDMI IN Audio (hw:0,0)", true, 48000),
        ]),
        Ok("HDMI IN Audio (hw:0,0)".to_string())
    );
    assert_eq!(
        best(vec![device("mic", false, 48000), device("usb", true, 48000)]),
        Ok("usb".to_string())
    );
    assert_eq!(
        best(vec![device("slow", true, 44100), device("mic", false, 48000)]),
        Ok("mic".to_string())
    );
    assert_eq!(best(vec![device("slow", true, 44100)]), Ok("slow".to_string()));
    assert!(is_hdmi_rx_device(&device("hdmi in AUDIO", false, 1)));
    assert!(!is_hdmi_rx_device(&device("mic", true, 1)));
}

#[test]
fn classes_are_ranked() {
    let class = |suits, is_rx, is_hdmi| AudioClass { suits, is_rx, is_hdmi };
    assert_eq!(best_position(&vec![class(false, true, true), class(true, false, false)]), 1);
    assert_eq!(
        best_position(&vec![class(true, false, false), class(true, true, false)]),
        1
    );
    assert_eq!(
        best_position(&vec![class(true, false, false), class(true, false, true)]),
        1
    );
    assert_eq!(best_position(&vec![class(false, false, false), class(false, true, true)]), 0);
}
