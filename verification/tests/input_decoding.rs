use maschine3_hal::{
    ButtonState, InputElement, InputState, KnobState, MK3Error, PadHit, PadState,
};

fn button_packet() -> Vec<u8> {
    let mut data = vec![0u8; 42];
    data[0] = 0x01;
    data
}

#[test]
fn play_bit_decodes_to_play_only() {
    let data: [u8; 42] = [
        0x01, 0x00, 0x00, 0, 0, 0, 0x20, 0, 0, 0, 0, 0, 0, 0, 0, 0, 0, 0, 0, 0, 0, 0, 0, 0, 0, 0, 0,
        0, 0, 0, 0, 0, 0, 0, 0, 0, 0, 0, 0, 0, 0, 0,
    ];
    let state = InputState::from_button_packet(&data).unwrap();
    let mut expected = InputState::default();
    expected.buttons.play = true;
    assert_eq!(state, expected);
    assert!(state.buttons.play);
    assert_eq!(state.get_active_buttons(), vec![InputElement::Play]);
}

#[test]
fn play_bit_with_group_a_bit_decodes_to_both() {
    let data: [u8; 42] = [
        0x01, 0x00, 0x01, 0, 0, 0, 0x20, 0, 0, 0, 0, 0, 0, 0, 0, 0, 0, 0, 0, 0, 0, 0, 0, 0, 0, 0, 0,
        0, 0, 0, 0, 0, 0, 0, 0, 0, 0, 0, 0, 0, 0, 0,
    ];
    let state = InputState::from_button_packet(&data).unwrap();
    let mut expected = InputState::default();
    expected.buttons.play = true;
    expected.buttons.group_a = true;
    assert_eq!(state, expected);
    assert_eq!(state.get_active_buttons(), vec![InputElement::Play, InputElement::GroupA]);
}

#[test]
fn all_zero_button_packet_is_the_resting_state() {
    let state = InputState::from_button_packet(&button_packet()).unwrap();
    assert_eq!(state, InputState::default());
    assert_eq!(state.buttons, ButtonState::default());
    assert_eq!(state.knobs, KnobState::default());
}

#[test]
fn decoding_twice_gives_the_same_state() {
    let mut data = button_packet();
    for (i, byte) in data.iter_mut().enumerate().skip(1) {
        *byte = (i as u8).wrapping_mul(37).wrapping_add(11);
    }
    let first = InputState::from_button_packet(&data).unwrap();
    let second = InputState::from_button_packet(&data).unwrap();
    assert_eq!(first, second);
}

#[test]
fn short_button_packet_is_invalid() {
    let data = vec![0x01u8; 41];
    assert_eq!(InputState::from_button_packet(&data), Err(MK3Error::InvalidPacket));
    assert_eq!(InputState::from_button_packet(&[]), Err(MK3Error::InvalidPacket));
}

#[test]
fn wrong_tag_button_packet_is_invalid() {
    let mut data = button_packet();
    data[0] = 0x02;
    assert_eq!(InputState::from_button_packet(&data), Err(MK3Error::InvalidPacket));
}

#[test]
fn longer_button_packet_is_accepted() {
    let mut data = vec![0u8; 64];
    data[0] = 0x01;
    data[6] = 0x40;
    data[50] = 0xFF;
    let state = InputState::from_button_packet(&data).unwrap();
    assert!(state.buttons.rec);
    assert_eq!(state.get_active_buttons(), vec![InputElement::Rec]);
}

#[test]
fn every_flag_sits_at_its_bit() {
    let table: [(usize, u8, InputElement); 74] = [
        (1, 0x01, InputElement::EncoderPush),
        (1, 0x02, InputElement::PedalConnected),
        (1, 0x04, InputElement::EncoderUp),
        (1, 0x08, InputElement::EncoderRight),
        (1, 0x10, InputElement::EncoderDown),
        (1, 0x20, InputElement::EncoderLeft),
        (1, 0x40, InputElement::Shift),
        (1, 0x80, InputElement::DisplayButton8),
        (2, 0x01, InputElement::GroupA),
        (2, 0x02, InputElement::GroupB),
        (2, 0x04, InputElement::GroupC),
        (2, 0x08, InputElement::GroupD),
        (2, 0x10, InputElement::GroupE),
        (2, 0x20, InputElement::GroupF),
        (2, 0x40, InputElement::GroupG),
        (2, 0x80, InputElement::GroupH),
        (3, 0x01, InputElement::Notes),
        (3, 0x02, InputElement::Volume),
        (3, 0x04, InputElement::Swing),
        (3, 0x08, InputElement::Tempo),
        (3, 0x10, InputElement::NoteRepeat),
        (3, 0x20, InputElement::Lock),
        (4, 0x01, InputElement::PadMode),
        (4, 0x02, InputElement::Keyboard),
        (4, 0x04, InputElement::Chords),
        (4, 0x08, InputElement::Step),
        (4, 0x10, InputElement::FixedVel),
        (4, 0x20, InputElement::Scene),
        (4, 0x40, InputElement::Pattern),
        (4, 0x80, InputElement::Events),
        (5, 0x01, InputElement::MicrophoneConnected),
        (5, 0x02, InputElement::Variation),
        (5, 0x04, InputElement::Duplicate),
        (5, 0x08, InputElement::Select),
        (5, 0x10, InputElement::Solo),
        (5, 0x20, InputElement::Mute),
        (5, 0x40, InputElement::Pitch),
        (5, 0x80, InputElement::Mod),
        (6, 0x01, InputElement::Perform),
        (6, 0x02, InputElement::Restart),
        (6, 0x04, InputElement::Erase),
        (6, 0x08, InputElement::Tap),
        (6, 0x10, InputElement::Follow),
        (6, 0x20, InputElement::Play),
        (6, 0x40, InputElement::Rec),
        (6, 0x80, InputElement::Stop),
        (7, 0x01, InputElement::Macro),
        (7, 0x02, InputElement::Settings),
        (7, 0x04, InputElement::ArrowRight),
        (7, 0x08, InputElement::Sampling),
        (7, 0x10, InputElement::Mixer),
        (7, 0x20, InputElement::Plugin),
        (8, 0x01, InputElement::ChannelMidi),
        (8, 0x02, InputElement::Arranger),
        (8, 0x04, InputElement::BrowserPlugin),
        (8, 0x08, InputElement::ArrowLeft),
        (8, 0x10, InputElement::FileSave),
        (8, 0x20, InputElement::Auto),
        (9, 0x01, InputElement::DisplayButton1),
        (9, 0x02, InputElement::DisplayButton2),
        (9, 0x04, InputElement::DisplayButton3),
        (9, 0x08, InputElement::DisplayButton4),
        (9, 0x10, InputElement::DisplayButton5),
        (9, 0x20, InputElement::DisplayButton6),
        (9, 0x40, InputElement::DisplayButton7),
        (9, 0x80, InputElement::MainKnobTouched),
        (10, 0x01, InputElement::Knob8Touched),
        (10, 0x02, InputElement::Knob7Touched),
        (10, 0x04, InputElement::Knob6Touched),
        (10, 0x08, InputElement::Knob5Touched),
        (10, 0x10, InputElement::Knob4Touched),
        (10, 0x20, InputElement::Knob3Touched),
        (10, 0x40, InputElement::Knob2Touched),
        (10, 0x80, InputElement::Knob1Touched),
    ];
    for (offset, mask, element) in table {
        let mut data = button_packet();
        data[offset] = mask;
        let state = InputState::from_button_packet(&data).unwrap();
        assert!(state.get_button(&element), "{:?}", element);
        assert_eq!(state.get_active_buttons(), vec![element]);
        // every other bit of the byte set, this one clear
        data[offset] = !mask;
        let state = InputState::from_button_packet(&data).unwrap();
        assert!(!state.get_button(&element), "{:?}", element);
    }
}

#[test]
fn unused_bits_decode_to_nothing() {
    let mut data = button_packet();
    data[3] = 0xC0;
    data[7] = 0xC0;
    data[8] = 0xC0;
    let state = InputState::from_button_packet(&data).unwrap();
    assert_eq!(state, InputState::default());
}

#[test]
fn knob_takes_two_high_bits_from_the_second_byte() {
    let mut data = button_packet();
    data[12] = 0xFF;
    data[13] = 0x07;
    data[14] = 0x34;
    data[15] = 0xFE;
    data[26] = 0x01;
    data[27] = 0x01;
    let state = InputState::from_button_packet(&data).unwrap();
    assert_eq!(state.knobs.knob_1, 1023);
    assert_eq!(state.knobs.knob_2, 0x234);
    assert_eq!(state.knobs.knob_8, 257);
    assert_eq!(state.get_value(&InputElement::Knob1), 1023);
    assert_eq!(state.get_value(&InputElement::Knob2), 0x234);
    assert_eq!(state.get_value(&InputElement::Play), 0);
}

#[test]
fn main_encoder_keeps_the_low_four_bits() {
    let mut data = button_packet();
    data[11] = 0xF7;
    let state = InputState::from_button_packet(&data).unwrap();
    assert_eq!(state.knobs.main_encoder, 7);
    assert_eq!(state.get_value(&InputElement::MainEncoder), 7);
}

#[test]
fn touch_strip_and_audio_are_read_at_fixed_offsets() {
    let mut data = button_packet();
    for i in 28..36 {
        data[i] = i as u8;
    }
    data[36] = 0x34;
    data[37] = 0x12;
    data[38] = 0xFF;
    data[39] = 0xFF;
    data[40] = 0x01;
    data[41] = 0x00;
    let state = InputState::from_button_packet(&data).unwrap();
    assert_eq!(state.touch_strip.finger_1.data_a, 28);
    assert_eq!(state.touch_strip.finger_1.data_d, 31);
    assert_eq!(state.touch_strip.finger_2.data_a, 32);
    assert_eq!(state.touch_strip.finger_2.data_d, 35);
    assert_eq!(state.audio.mic_gain, 0x1234);
    assert_eq!(state.audio.headphone_volume, 0xFFFF);
    assert_eq!(state.audio.master_volume, 1);
    assert_eq!(
        state.get_touch_strip_data(),
        Some(((28, 29, 30, 31), (32, 33, 34, 35)))
    );
    assert_eq!(
        state.get_active_audio(),
        vec![
            (InputElement::MicGain, 0x1234),
            (InputElement::HeadphoneVolume, 0xFFFF),
            (InputElement::MasterVolume, 1),
        ]
    );
}

#[test]
fn touch_strip_data_needs_an_active_finger() {
    let mut data = button_packet();
    data[29] = 9;
    data[33] = 9;
    let state = InputState::from_button_packet(&data).unwrap();
    assert_eq!(state.get_touch_strip_data(), None);
    data[32] = 1;
    let state = InputState::from_button_packet(&data).unwrap();
    assert_eq!(state.get_touch_strip_data(), Some(((0, 9, 0, 0), (1, 9, 0, 0))));
}

#[test]
fn active_knobs_lists_touched_knobs_with_values() {
    let mut data = button_packet();
    data[10] = 0x80 | 0x01; // knob 1 and knob 8 touched
    data[9] = 0x80; // main knob touched
    data[12] = 5;
    data[26] = 9;
    data[11] = 3;
    data[14] = 200; // knob 2 moved but not touched
    let state = InputState::from_button_packet(&data).unwrap();
    assert_eq!(
        state.get_active_knobs(),
        vec![
            (InputElement::Knob1, 5),
            (InputElement::Knob8, 9),
            (InputElement::MainEncoder, 3),
        ]
    );
}

#[test]
fn active_audio_skips_zero_levels() {
    let mut data = button_packet();
    data[38] = 7;
    let state = InputState::from_button_packet(&data).unwrap();
    assert_eq!(state.get_active_audio(), vec![(InputElement::HeadphoneVolume, 7)]);
}

#[test]
fn active_buttons_follow_reporting_order() {
    let mut data = button_packet();
    data[10] = 0x80; // Knob1Touched
    data[6] = 0x80 | 0x20; // Stop, Play
    data[1] = 0x40; // Shift
    let state = InputState::from_button_packet(&data).unwrap();
    assert_eq!(
        state.get_active_buttons(),
        vec![
            InputElement::Play,
            InputElement::Stop,
            InputElement::Shift,
            InputElement::Knob1Touched,
        ]
    );
}

#[test]
fn pad_packet_stops_at_first_out_of_range_pad() {
    let data = [0x02, 0x05, 0x40, 0x7F, 0x00, 0x00, 0x00, 0x10, 0x30, 0x20];
    let state = PadState::from_pad_packet(&data).unwrap();
    assert_eq!(state.hits, vec![PadHit { pad_number: 5, data_a: 0x40, data_b: 0x7F }]);
}

#[test]
fn pad_packet_skips_padding_and_continues() {
    let data = [0x02, 0, 0, 0, 0x03, 0x01, 0x02, 0, 0, 0, 0x0F, 0xAA, 0xBB, 0x00, 0x00, 0x09];
    let state = PadState::from_pad_packet(&data).unwrap();
    assert_eq!(
        state.hits,
        vec![
            PadHit { pad_number: 3, data_a: 1, data_b: 2 },
            PadHit { pad_number: 15, data_a: 0xAA, data_b: 0xBB },
            PadHit { pad_number: 0, data_a: 0, data_b: 9 },
        ]
    );
}

#[test]
fn pad_packet_drops_hits_after_the_end_marker() {
    let data = [0x02, 0x01, 0x10, 0x20, 0xFF, 0x00, 0x00, 0x02, 0x10, 0x20];
    let state = PadState::from_pad_packet(&data).unwrap();
    assert_eq!(state.hits, vec![PadHit { pad_number: 1, data_a: 0x10, data_b: 0x20 }]);
}

#[test]
fn pad_packet_ignores_a_trailing_fragment() {
    let data = [0x02, 0x01, 0x10, 0x20, 0x02, 0x10];
    let state = PadState::from_pad_packet(&data).unwrap();
    assert_eq!(state.hits.len(), 1);
    let only_tag = [0x02];
    assert_eq!(PadState::from_pad_packet(&only_tag).unwrap().hits, vec![]);
}

#[test]
fn empty_or_mistagged_pad_packet_is_invalid() {
    assert_eq!(PadState::from_pad_packet(&[]), Err(MK3Error::InvalidPacket));
    assert_eq!(
        PadState::from_pad_packet(&[0x01, 0x05, 0x40, 0x7F]),
        Err(MK3Error::InvalidPacket)
    );
}

#[test]
fn element_names_and_colors() {
    assert_eq!(InputElement::Play.name(), "Play");
    assert_eq!(InputElement::GroupA.name(), "Group A");
    assert_eq!(InputElement::ChannelMidi.name(), "Channel/MIDI");
    assert_eq!(InputElement::Knob1Touched.name(), "Knob 1 Touch");
    assert_eq!(InputElement::MasterVolume.name(), "Master Volume");
    assert!(InputElement::GroupH.has_color());
    assert!(InputElement::BrowserPlugin.has_color());
    assert!(InputElement::EncoderDown.has_color());
    assert!(!InputElement::Play.has_color());
    assert!(!InputElement::EncoderPush.has_color());
}

#[test]
fn element_index_round_trips() {
    for i in 0..86u8 {
        let element = InputElement::from_index(i);
        assert_eq!(element.index(), i);
    }
    assert_eq!(InputElement::Play.index(), 0);
    assert_eq!(InputElement::MasterVolume.index(), 85);
    assert_eq!(InputElement::from_index(86), InputElement::MasterVolume);
    assert_eq!(InputElement::from_index(255), InputElement::MasterVolume);
    assert_eq!(InputElement::button_at(0), InputElement::Play);
    assert_eq!(InputElement::button_at(64), InputElement::MicrophoneConnected);
    assert_eq!(InputElement::button_at(65), InputElement::Knob1Touched);
    assert_eq!(InputElement::button_at(73), InputElement::MainKnobTouched);
}

#[test]
fn element_names_are_distinct_and_not_empty() {
    let names: Vec<&str> = (0..86u8).map(|i| InputElement::from_index(i).name()).collect();
    for (i, name) in names.iter().enumerate() {
        assert!(!name.is_empty());
        for other in &names[i + 1..] {
            assert_ne!(name, other);
        }
    }
}
