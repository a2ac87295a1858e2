use maschine3_hal::ffi::{
    convert_button_id, convert_events, convert_input_event, input_element_to_id, CInputEvent,
    EventType, PadEvent,
};
use maschine3_hal::{
    ButtonLedState, InputElement, InputEvent, InputTracker, MK3Error, MaschineLEDColor,
    MaschineMK3, PadLedState, ParameterError, Rgb565,
};

fn button_packet_with(offset: usize, value: u8) -> Vec<u8> {
    let mut data = vec![0u8; 42];
    data[0] = 0x01;
    data[offset] = value;
    data
}

#[test]
fn new_device_has_leds_off_and_no_frames() {
    let device = MaschineMK3::new(true);
    assert!(device.is_display_available());
    assert!(!MaschineMK3::new(false).is_display_available());
    assert_eq!(device.frame_count(), 0);
    assert_eq!(device.get_button_led_state(InputElement::Play), 0);
    assert_eq!(device.get_pad_led_color(3), MaschineLEDColor::black());
    let flush = device.flush_led_changes();
    assert_eq!(flush.button, ButtonLedState::default().to_packet());
    assert_eq!(flush.pad, PadLedState::default().to_packet());
}

#[test]
fn polling_routes_packets_by_tag() {
    let mut device = MaschineMK3::new(true);
    assert_eq!(device.poll_input_events(&[]).unwrap(), vec![]);
    assert_eq!(
        device.poll_input_events(&button_packet_with(6, 0x20)).unwrap(),
        vec![InputEvent::ButtonPressed(InputElement::Play)]
    );
    assert_eq!(
        device.poll_input_events(&[0x02, 0x05, 0x40, 0x7F, 0x00, 0x00, 0x00, 0x10, 0x30, 0x20])
            .unwrap(),
        vec![InputEvent::PadHit { pad_number: 5, velocity: 0x40, pressure: 0x7F }]
    );
    assert_eq!(device.poll_input_events(&[0x07, 1, 2, 3]).unwrap(), vec![]);
    // a short button packet is dropped without an error and without an update
    assert_eq!(device.poll_input_events(&[0x01, 0xFF, 0xFF]).unwrap(), vec![]);
    assert_eq!(device.frame_count(), 1);
    assert_eq!(
        device.poll_input_events(&button_packet_with(6, 0x00)).unwrap(),
        vec![InputEvent::ButtonReleased(InputElement::Play)]
    );
    assert_eq!(device.frame_count(), 2);
}

#[test]
fn process_input_packet_uses_the_given_tracker() {
    let mut tracker = InputTracker::new();
    let mut first = button_packet_with(12, 10);
    assert_eq!(MaschineMK3::process_input_packet(&mut tracker, &first).unwrap(), vec![]);
    first[12] = 4;
    assert_eq!(
        MaschineMK3::process_input_packet(&mut tracker, &first).unwrap(),
        vec![InputEvent::KnobChanged { element: InputElement::Knob1, value: 4, delta: -6 }]
    );
    assert_eq!(MaschineMK3::process_input_packet(&mut tracker, &[]).unwrap(), vec![]);
}

#[test]
fn set_button_led_flushes_both_packets() {
    let mut device = MaschineMK3::new(true);
    let flush = device.set_button_led(InputElement::Play, 127).unwrap();
    assert_eq!(flush.button.len(), 63);
    assert_eq!(flush.button[0], 0x80);
    assert_eq!(flush.button[42], 127);
    assert_eq!(flush.pad.len(), 42);
    assert_eq!(flush.pad[0], 0x81);
    assert_eq!(device.get_button_led_state(InputElement::Play), 127);
    assert_eq!(device.get_button_led_state(InputElement::Rec), 0);
    let flush = device.set_button_led(InputElement::Macro, 9).unwrap();
    assert_eq!(flush.button[12], 9);
    assert_eq!(flush.button[42], 127);
    device.led_state_written();
}

#[test]
fn set_button_led_on_rgb_led_uses_a_grey_level() {
    let mut device = MaschineMK3::new(true);
    let flush = device.set_button_led(InputElement::GroupA, 200).unwrap();
    assert_eq!(flush.button[30], 74);
    let flush = device.set_button_led(InputElement::EncoderDown, 100).unwrap();
    assert_eq!(flush.button[62], 72);
    let flush = device.set_button_led(InputElement::BrowserPlugin, 0).unwrap();
    assert_eq!(flush.button[5], 0);
}

#[test]
fn elements_without_led_change_nothing() {
    let mut device = MaschineMK3::new(true);
    assert_eq!(device.set_button_led(InputElement::Knob1, 50), None);
    assert_eq!(device.set_button_led(InputElement::EncoderPush, 50), None);
    assert_eq!(device.set_button_led(InputElement::MicGain, 50), None);
    assert_eq!(
        device.set_button_led_color(InputElement::Play, MaschineLEDColor::red(true)),
        None
    );
    assert_eq!(device.flush_led_changes().button, ButtonLedState::default().to_packet());
}

#[test]
fn set_button_led_color_sets_rgb_leds() {
    let mut device = MaschineMK3::new(true);
    let flush = device
        .set_button_led_color(InputElement::GroupC, MaschineLEDColor::blue(true))
        .unwrap();
    assert_eq!(flush.button[32], 42);
    let flush = device
        .set_button_led_color(InputElement::EncoderUp, MaschineLEDColor::green(false))
        .unwrap();
    assert_eq!(flush.button[59], 24);
    assert_eq!(flush.button[32], 42);
}

#[test]
fn set_pad_led_flushes_only_on_change() {
    let mut device = MaschineMK3::new(true);
    let red = MaschineLEDColor::red(true);
    let flush = device.set_pad_led(0, red).unwrap().unwrap();
    assert_eq!(flush.pad[26], 6);
    assert_eq!(device.get_pad_led_color(0), red);
    assert_eq!(device.set_pad_led(0, red).unwrap(), None);
    let flush = device.set_pad_led(15, MaschineLEDColor::white(false)).unwrap().unwrap();
    assert_eq!(flush.pad[41], 72);
    assert_eq!(flush.pad[26], 6);
    assert_eq!(device.set_pad_led(3, MaschineLEDColor::black()).unwrap(), None);
}

#[test]
fn pad_number_out_of_range_is_rejected() {
    let mut device = MaschineMK3::new(true);
    assert_eq!(
        device.set_pad_led(16, MaschineLEDColor::red(true)),
        Err(MK3Error::InvalidParameter(ParameterError::PadNumber { pad_number: 16 }))
    );
    assert_eq!(device.get_pad_led_color(16), MaschineLEDColor::black());
    assert_eq!(device.flush_led_changes().pad, PadLedState::default().to_packet());
}

#[test]
fn set_all_pad_leds_and_clear() {
    let mut device = MaschineMK3::new(true);
    let cyan = MaschineLEDColor::cyan(true);
    let flush = device.set_all_pad_leds(cyan).unwrap();
    assert!(flush.pad[26..42].iter().all(|b| *b == 34));
    assert!(flush.pad[1..26].iter().all(|b| *b == 0));
    assert_eq!(device.set_all_pad_leds(cyan), None);
    device.set_pad_led(7, MaschineLEDColor::black()).unwrap();
    assert!(device.set_all_pad_leds(cyan).is_some());
    assert_eq!(device.set_all_button_leds(0), None);
    let flush = device.set_all_button_leds(5).unwrap();
    assert_eq!(flush.button[42], 5);
    assert_eq!(device.set_all_button_leds(5), None);
    let flush = device.clear_all_leds();
    assert_eq!(flush.button, ButtonLedState::default().to_packet());
    assert_eq!(flush.pad, PadLedState::default().to_packet());
    assert_eq!(device.get_pad_led_color(7), MaschineLEDColor::black());
}

#[test]
fn display_writes_return_region_packets() {
    let device = MaschineMK3::new(true);
    let data = vec![0xABu8; 4 * 2 * 2];
    let packet = device.write_display_region(1, 8, 8, 4, 2, &data).unwrap();
    assert_eq!(packet.len(), 28 + 16);
    assert_eq!(&packet[..4], &[0x84, 0, 1, 0x60]);
    assert_eq!(
        device.write_display_region(0, 478, 0, 4, 2, &data),
        Err(MK3Error::InvalidParameter(ParameterError::RegionBounds {
            x: 478,
            y: 0,
            width: 4,
            height: 2,
        }))
    );
    let full = vec![0u8; 480 * 272 * 2];
    assert_eq!(device.write_display_framebuffer(0, &full).unwrap().len(), 28 + 480 * 272 * 2);
    assert_eq!(
        device.write_display_framebuffer(0, &data),
        Err(MK3Error::InvalidParameter(ParameterError::DataLength {
            expected: 261120,
            actual: 16,
        }))
    );
}

#[test]
fn rgb888_region_is_converted_without_flip() {
    let device = MaschineMK3::new(true);
    let rgb = [255, 0, 0, 0, 255, 0, 0, 0, 255, 0x12, 0x34, 0x56];
    let packet = device.write_display_region_rgb888(0, 0, 0, 2, 2, &rgb).unwrap();
    assert_eq!(&packet[20..28], &[0x07, 0xE0, 0x00, 0x1F, 0xF8, 0x00, 0x52, 0x06]);
    assert_eq!(
        device.write_display_region_rgb888(5, 0, 0, 2, 2, &rgb[1..]),
        Err(MK3Error::InvalidParameter(ParameterError::Rgb888Length { expected: 12, actual: 11 }))
    );
    assert_eq!(
        device.write_display_region_rgb888(5, 0, 0, 2, 2, &rgb),
        Err(MK3Error::InvalidParameter(ParameterError::DisplayId { display_id: 5 }))
    );
}

#[test]
fn rgb888_framebuffer_is_flipped() {
    let device = MaschineMK3::new(true);
    let mut frame = vec![0u8; 480 * 272 * 3];
    // first source row, first pixel: ends up at the bottom-left
    frame[0] = 255;
    let packet = device.write_display_framebuffer_rgb888(0, &frame).unwrap();
    let bottom_left = 20 + (271 * 480) * 2;
    assert_eq!(&packet[bottom_left..bottom_left + 2], &[0x07, 0xE0]);
    assert_eq!(&packet[20..22], &[0, 0]);
    assert!(device.write_display_framebuffer_rgb888(0, &frame[3..]).is_err());
}

#[test]
fn dirty_updates_keep_one_frame_per_display() {
    let mut device = MaschineMK3::new(true);
    let frame = vec![4u8; 480 * 272 * 3];
    assert_eq!(
        device.write_display_framebuffer_rgb888_dirty(0, &frame).unwrap().len(),
        28 + 480 * 272 * 2
    );
    assert_eq!(device.write_display_framebuffer_rgb888_dirty(0, &frame).unwrap().len(), 0);
    // the right display has seen nothing yet
    assert_eq!(
        device.write_display_framebuffer_rgb888_dirty(1, &frame).unwrap().len(),
        28 + 480 * 272 * 2
    );
    assert_eq!(device.write_display_framebuffer_rgb888_dirty(1, &frame).unwrap().len(), 0);
    assert_eq!(
        device.write_display_framebuffer_rgb888_dirty(2, &frame),
        Err(MK3Error::InvalidParameter(ParameterError::DisplayId { display_id: 2 }))
    );
}

#[test]
fn full_screen_images_need_the_right_size() {
    let device = MaschineMK3::new(true);
    let packet = device.send_display_image(1, vec![Rgb565::red(); 480 * 272]).unwrap();
    assert_eq!(packet.len(), 28 + 480 * 272 * 2);
    assert_eq!(&packet[20..22], &[0x07, 0xE0]);
    assert_eq!(
        device.send_display_image(1, vec![Rgb565::red(); 10]),
        Err(MK3Error::InvalidParameter(ParameterError::PixelCount {
            expected: 130560,
            actual: 10,
        }))
    );
    let mut rgb = vec![0u8; 480 * 272 * 3];
    rgb[3] = 255;
    let packet = device.send_display_rgb888(0, &rgb).unwrap();
    assert_eq!(&packet[20..24], &[0x00, 0x00, 0x07, 0xE0]);
    assert_eq!(
        device.send_display_rgb888(0, &rgb[..9]),
        Err(MK3Error::InvalidParameter(ParameterError::Rgb888Length {
            expected: 391680,
            actual: 9,
        }))
    );
    let cleared = device.clear_display(0, 0, 0, 255).unwrap();
    assert_eq!(cleared.len(), 28 + 480 * 272 * 2);
    assert_eq!(&cleared[20..22], &[0xF8, 0x00]);
    assert_eq!(&cleared[cleared.len() - 10..cleared.len() - 8], &[0xF8, 0x00]);
}

#[test]
fn element_ids_round_trip_for_buttons() {
    assert_eq!(input_element_to_id(&InputElement::Play), 0);
    assert_eq!(input_element_to_id(&InputElement::GroupH), 14);
    assert_eq!(input_element_to_id(&InputElement::Knob1), 15);
    assert_eq!(input_element_to_id(&InputElement::MasterVolume), 26);
    assert_eq!(input_element_to_id(&InputElement::EncoderRight), 73);
    assert_eq!(input_element_to_id(&InputElement::Shift), 74);
    assert_eq!(input_element_to_id(&InputElement::Knob1Touched), 999);
    assert_eq!(input_element_to_id(&InputElement::PedalConnected), 999);
    assert_eq!(convert_button_id(0), Some(InputElement::Play));
    assert_eq!(convert_button_id(69), Some(InputElement::EncoderPush));
    assert_eq!(convert_button_id(74), Some(InputElement::Shift));
    assert_eq!(convert_button_id(15), None);
    assert_eq!(convert_button_id(70), None);
    assert_eq!(convert_button_id(-1), None);
    assert_eq!(convert_button_id(999), None);
    for id in -5..1005 {
        if let Some(element) = convert_button_id(id) {
            assert_eq!(input_element_to_id(&element), id);
        }
    }
}

#[test]
fn events_convert_to_plain_values() {
    assert_eq!(
        convert_input_event(&InputEvent::ButtonHeld(InputElement::Stop)),
        CInputEvent {
            event_type: EventType::ButtonHeld,
            element_id: 2,
            value: 0,
            delta: 0,
            pad_event_type: PadEvent::Hit,
        }
    );
    assert_eq!(
        convert_input_event(&InputEvent::KnobChanged {
            element: InputElement::Knob3,
            value: 700,
            delta: -12,
        }),
        CInputEvent {
            event_type: EventType::KnobChanged,
            element_id: 17,
            value: 700,
            delta: -12,
            pad_event_type: PadEvent::Hit,
        }
    );
    assert_eq!(
        convert_input_event(&InputEvent::PadHit { pad_number: 9, velocity: 88, pressure: 3 }),
        CInputEvent {
            event_type: EventType::PadEvent,
            element_id: 9,
            value: 88,
            delta: 0,
            pad_event_type: PadEvent::Hit,
        }
    );
    let events = vec![
        InputEvent::ButtonPressed(InputElement::Play),
        InputEvent::ButtonReleased(InputElement::Rec),
        InputEvent::AudioChanged { element: InputElement::MicGain, value: 5, delta: 5 },
    ];
    let two = convert_events(&events, 2);
    assert_eq!(two.len(), 2);
    assert_eq!(two[1].event_type, EventType::ButtonReleased);
    assert_eq!(two[1].element_id, 1);
    assert_eq!(convert_events(&events, 10).len(), 3);
    assert_eq!(convert_events(&events, 10)[2].event_type, EventType::AudioChanged);
    assert_eq!(convert_events(&events, 0).len(), 0);
    assert_eq!(EventType::PadEvent.code(), 5);
    assert_eq!(EventType::ButtonPressed.code(), 0);
    assert_eq!(PadEvent::Aftertouch.code(), 3);
    assert_eq!(PadEvent::TouchRelease.code(), 1);
}
