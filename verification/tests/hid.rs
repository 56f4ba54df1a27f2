//! HID functions of the USB gadget.
use one_kvm::otg::hid::{HidFunction, HidFunctionType, ReportDescriptors};

fn descriptors() -> ReportDescriptors {
    ReportDescriptors {
        keyboard: vec![1],
        keyboard_with_led: vec![2, 2],
        mouse_relative: vec![3],
        mouse_absolute: vec![4],
        consumer_control: vec![5],
        composite_keyboard_pointer: vec![6],
    }
}

#[test]
fn test_hid_function_types() {
    assert_eq!(HidFunctionType::Keyboard.endpoints(true), 2);
    assert_eq!(HidFunctionType::Keyboard.endpoints(false), 1);
    assert_eq!(HidFunctionType::MouseRelative.endpoints(false), 1);
    assert_eq!(HidFunctionType::MouseAbsolute.endpoints(false), 1);
    assert_eq!(
        HidFunctionType::CompositeKeyboardPointer.endpoints(false),
        1
    );

    assert_eq!(HidFunctionType::Keyboard.report_length(false), 8);
    assert_eq!(HidFunctionType::Keyboard.report_length(true), 8);
    assert_eq!(HidFunctionType::MouseRelative.report_length(false), 4);
    assert_eq!(HidFunctionType::MouseAbsolute.report_length(false), 6);
    assert_eq!(
        HidFunctionType::CompositeKeyboardPointer.report_length(false),
        9
    );
}

#[test]
fn test_hid_function_names() {
    let kb = HidFunction::keyboard(0, false);
    assert_eq!(kb.name(), "hid.keyboard");
    assert_eq!(kb.device_path(), "/dev/hidg0");

    let mouse = HidFunction::mouse_relative(1);
    assert_eq!(mouse.name(), "hid.mouse");
    assert_eq!(mouse.device_path(), "/dev/hidg1");

    let composite = HidFunction::composite_keyboard_pointer(0);
    assert_eq!(composite.name(), "hid.keyboard");
    assert_eq!(composite.device_path(), "/dev/hidg0");
}

#[test]
fn only_keyboard_lights_need_a_second_endpoint() {
    let all = [
        HidFunctionType::Keyboard,
        HidFunctionType::MouseRelative,
        HidFunctionType::MouseAbsolute,
        HidFunctionType::ConsumerControl,
        HidFunctionType::CompositeKeyboardPointer,
    ];
    for kind in all {
        for leds in [false, true] {
            assert_eq!(kind.uses_out_endpoint(leds), kind.endpoints(leds) == 2);
        }
    }
    assert_eq!(HidFunction::keyboard(0, true).endpoints_required(), 2);
    assert_eq!(HidFunction::mouse_absolute(3).endpoints_required(), 1);
    assert_eq!(HidFunction::consumer_control(4).device_path(), "/dev/hidg4");
}

#[test]
fn lights_choose_the_report_descriptor() {
    let all = descriptors();
    assert_eq!(HidFunctionType::Keyboard.report_desc(false, &all), &[1][..]);
    assert_eq!(HidFunctionType::Keyboard.report_desc(true, &all), &[2, 2][..]);
    assert_eq!(HidFunctionType::MouseAbsolute.report_desc(true, &all), &[4][..]);
}

#[test]
fn a_function_is_created_by_these_writes() {
    let all = descriptors();
    let mouse = HidFunction::mouse_absolute(2);
    assert_eq!(mouse.name(), "hid.usb2");
    assert_eq!(mouse.function_path("/cfg/g1"), "/cfg/g1/functions/hid.usb2");
    assert_eq!(mouse.link_path("/cfg/g1/configs/c.1"), "/cfg/g1/configs/c.1/hid.usb2");

    let writes = mouse.create_writes("/cfg/g1", &all);
    let written: Vec<(String, Vec<u8>, bool)> = writes
        .into_iter()
        .map(|w| (w.path.replace("/cfg/g1/functions/hid.usb2/", ""), w.content, w.required))
        .collect();
    assert_eq!(
        written,
        vec![
            ("protocol".to_string(), b"2".to_vec(), true),
            ("subclass".to_string(), b"0".to_vec(), true),
            ("report_length".to_string(), b"6".to_vec(), true),
            ("no_out_endpoint".to_string(), b"1".to_vec(), false),
            ("report_desc".to_string(), vec![4], true),
        ]
    );
}

#[test]
fn a_keyboard_with_lights_keeps_its_out_endpoint() {
    let all = descriptors();
    let keyboard = HidFunction::keyboard(0, true);
    let writes = keyboard.create_writes("/cfg", &all);
    assert!(writes.iter().all(|w| !w.path.ends_with("/no_out_endpoint")));
    assert_eq!(writes[writes.len() - 1].content, vec![2, 2]);

    let meta = keyboard.meta();
    assert_eq!(meta.name, "hid.keyboard");
    assert_eq!(meta.description, "Keyboard");
    assert_eq!(meta.endpoints, 2);
    assert!(meta.enabled);
}
