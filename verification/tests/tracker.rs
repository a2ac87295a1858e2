use maschine3_hal::{InputElement, InputEvent, InputState, InputTracker, PadHit, PadState};

fn with_play(pressed: bool) -> InputState {
    let mut state = InputState::default();
    state.buttons.play = pressed;
    state
}

#[test]
fn play_toggle_gives_press_then_release() {
    let mut tracker = InputTracker::new();
    let mut events = Vec::new();
    events.extend(tracker.update(with_play(false)));
    events.extend(tracker.update(with_play(true)));
    events.extend(tracker.update(with_play(false)));
    assert_eq!(
        events,
        vec![
            InputEvent::ButtonPressed(InputElement::Play),
            InputEvent::ButtonReleased(InputElement::Play),
        ]
    );
}

#[test]
fn first_update_reports_no_value_changes() {
    let mut tracker = InputTracker::new();
    let mut state = InputState::default();
    state.knobs.knob_1 = 512;
    state.knobs.knob_8 = 1023;
    state.knobs.main_encoder = 7;
    state.audio.mic_gain = 300;
    state.audio.master_volume = 65535;
    let events = tracker.update(state);
    assert_eq!(events, vec![]);
}

#[test]
fn first_update_still_reports_button_edges() {
    let mut tracker = InputTracker::new();
    let mut state = with_play(true);
    state.knobs.knob_1 = 512;
    state.knobs.knob_1_touched = true;
    let events = tracker.update(state);
    assert_eq!(
        events,
        vec![
            InputEvent::ButtonPressed(InputElement::Play),
            InputEvent::ButtonPressed(InputElement::Knob1Touched),
        ]
    );
}

#[test]
fn value_changes_carry_new_value_and_signed_delta() {
    let mut tracker = InputTracker::new();
    let mut first = InputState::default();
    first.knobs.knob_2 = 100;
    first.audio.headphone_volume = 1000;
    tracker.update(first);
    let mut second = first;
    second.knobs.knob_2 = 90;
    second.knobs.main_encoder = 15;
    second.audio.headphone_volume = 65535;
    second.audio.mic_gain = 1;
    let events = tracker.update(second);
    assert_eq!(
        events,
        vec![
            InputEvent::KnobChanged { element: InputElement::Knob2, value: 90, delta: -10 },
            InputEvent::KnobChanged { element: InputElement::MainEncoder, value: 15, delta: 15 },
            InputEvent::AudioChanged { element: InputElement::MicGain, value: 1, delta: 1 },
            InputEvent::AudioChanged {
                element: InputElement::HeadphoneVolume,
                value: 65535,
                delta: 64535,
            },
        ]
    );
    let mut third = second;
    third.audio.headphone_volume = 0;
    assert_eq!(
        tracker.update(third),
        vec![InputEvent::AudioChanged {
            element: InputElement::HeadphoneVolume,
            value: 0,
            delta: -65535,
        }]
    );
}

#[test]
fn unchanged_state_gives_no_events() {
    let mut tracker = InputTracker::new();
    let mut state = with_play(true);
    state.knobs.knob_3 = 44;
    tracker.update(state);
    assert_eq!(tracker.update(state), vec![]);
    assert_eq!(tracker.update(state), vec![]);
}

#[test]
fn button_events_come_before_value_events_in_element_order() {
    let mut tracker = InputTracker::new();
    let mut first = InputState::default();
    first.buttons.stop = true;
    tracker.update(first);
    let mut second = InputState::default();
    second.knobs.knob_8_touched = true;
    second.buttons.microphone_connected = true;
    second.buttons.rec = true;
    second.buttons.play = true;
    second.knobs.knob_1 = 3;
    second.audio.master_volume = 2;
    let events = tracker.update(second);
    assert_eq!(
        events,
        vec![
            InputEvent::ButtonPressed(InputElement::Play),
            InputEvent::ButtonPressed(InputElement::Rec),
            InputEvent::ButtonReleased(InputElement::Stop),
            InputEvent::ButtonPressed(InputElement::MicrophoneConnected),
            InputEvent::ButtonPressed(InputElement::Knob8Touched),
            InputEvent::KnobChanged { element: InputElement::Knob1, value: 3, delta: 3 },
            InputEvent::AudioChanged { element: InputElement::MasterVolume, value: 2, delta: 2 },
        ]
    );
}

#[test]
fn held_is_reported_on_every_update_past_thirty() {
    let mut tracker = InputTracker::new();
    let pressed = with_play(true);
    assert_eq!(tracker.update(pressed), vec![InputEvent::ButtonPressed(InputElement::Play)]);
    // pressed at update 1; updates 2..=30 come fewer than 30 updates later
    for _ in 2..=30 {
        assert_eq!(tracker.update(pressed), vec![]);
    }
    // update 31 is the 30th after the press
    for _ in 0..5 {
        assert_eq!(tracker.update(pressed), vec![InputEvent::ButtonHeld(InputElement::Play)]);
    }
    assert_eq!(
        tracker.update(with_play(false)),
        vec![InputEvent::ButtonReleased(InputElement::Play)]
    );
    assert_eq!(tracker.update(with_play(false)), vec![]);
    assert_eq!(tracker.frame_count(), 37);
}

#[test]
fn held_starts_after_thirty_updates_with_the_button_down() {
    for kept_down in 1..40u32 {
        let mut tracker = InputTracker::new();
        for _ in 0..kept_down {
            tracker.update(with_play(true));
        }
        let expected = if kept_down >= 30 {
            vec![InputEvent::ButtonHeld(InputElement::Play)]
        } else {
            vec![]
        };
        assert_eq!(tracker.update(with_play(true)), expected, "{}", kept_down);
    }
}

#[test]
fn hold_count_restarts_after_release() {
    let mut tracker = InputTracker::new();
    tracker.update(with_play(true));
    for _ in 0..40 {
        tracker.update(with_play(true));
    }
    tracker.update(with_play(false));
    assert_eq!(
        tracker.update(with_play(true)),
        vec![InputEvent::ButtonPressed(InputElement::Play)]
    );
    for _ in 0..29 {
        assert_eq!(tracker.update(with_play(true)), vec![]);
    }
    assert_eq!(
        tracker.update(with_play(true)),
        vec![InputEvent::ButtonHeld(InputElement::Play)]
    );
}

#[test]
fn held_state_queries() {
    let mut tracker = InputTracker::new();
    assert!(!tracker.is_held(&InputElement::Play));
    assert!(!tracker.was_pressed(&InputElement::Play));
    assert!(!tracker.was_released(&InputElement::Play));
    tracker.update(with_play(true));
    assert!(tracker.is_held(&InputElement::Play));
    assert!(!tracker.is_held(&InputElement::Rec));
    assert!(!tracker.was_pressed(&InputElement::Play));
    assert!(!tracker.was_released(&InputElement::Rec));
    tracker.update(with_play(false));
    assert!(!tracker.is_held(&InputElement::Play));
    assert!(!tracker.was_released(&InputElement::Play));
}

#[test]
fn cloned_tracker_continues_independently() {
    let mut tracker = InputTracker::new();
    tracker.update(with_play(true));
    let mut copy = tracker.clone();
    assert_eq!(
        copy.update(with_play(false)),
        vec![InputEvent::ButtonReleased(InputElement::Play)]
    );
    assert!(tracker.is_held(&InputElement::Play));
    assert!(!copy.is_held(&InputElement::Play));
    assert_eq!(tracker.frame_count(), 1);
    assert_eq!(copy.frame_count(), 2);
    let fresh = InputTracker::default();
    assert_eq!(fresh.frame_count(), 0);
}

#[test]
fn pads_pass_through_one_event_per_hit() {
    let mut tracker = InputTracker::new();
    let state = PadState {
        hits: vec![
            PadHit { pad_number: 5, data_a: 0x40, data_b: 0x7F },
            PadHit { pad_number: 0, data_a: 1, data_b: 2 },
            PadHit { pad_number: 5, data_a: 0x41, data_b: 0x7E },
        ],
    };
    assert_eq!(
        tracker.update_pads(state),
        vec![
            InputEvent::PadHit { pad_number: 5, velocity: 0x40, pressure: 0x7F },
            InputEvent::PadHit { pad_number: 0, velocity: 1, pressure: 2 },
            InputEvent::PadHit { pad_number: 5, velocity: 0x41, pressure: 0x7E },
        ]
    );
    assert_eq!(tracker.update_pads(PadState::default()), vec![]);
    assert_eq!(tracker.frame_count(), 0);
}

#[test]
fn descriptions_read_as_text() {
    assert_eq!(InputEvent::ButtonPressed(InputElement::Play).description(), "Play pressed");
    assert_eq!(
        InputEvent::ButtonReleased(InputElement::GroupA).description(),
        "Group A released"
    );
    assert_eq!(InputEvent::ButtonHeld(InputElement::Shift).description(), "Shift held");
    assert_eq!(
        InputEvent::KnobChanged { element: InputElement::Knob1, value: 1023, delta: -7 }
            .description(),
        "Knob 1 → 1023 (Δ-7)"
    );
    assert_eq!(
        InputEvent::KnobChanged { element: InputElement::MainEncoder, value: 0, delta: 0 }
            .description(),
        "Main Encoder → 0 (Δ0)"
    );
    assert_eq!(
        InputEvent::AudioChanged {
            element: InputElement::MasterVolume,
            value: 65535,
            delta: 65535,
        }
        .description(),
        "Master Volume → 65535 (Δ65535)"
    );
    assert_eq!(
        InputEvent::AudioChanged {
            element: InputElement::MicGain,
            value: 10,
            delta: i32::MIN,
        }
        .description(),
        "Mic Gain → 10 (Δ-2147483648)"
    );
    assert_eq!(
        InputEvent::PadHit { pad_number: 0, velocity: 64, pressure: 127 }.description(),
        "Pad 1 (TR) - velocity:64 pressure:127"
    );
    assert_eq!(
        InputEvent::PadHit { pad_number: 15, velocity: 0, pressure: 9 }.description(),
        "Pad 16 (BL) - velocity:0 pressure:9"
    );
    assert_eq!(
        InputEvent::PadHit { pad_number: 255, velocity: 100, pressure: 200 }.description(),
        "Pad 256 (??) - velocity:100 pressure:200"
    );
}

#[test]
fn pad_positions_name_the_grid() {
    let names = [
        "TR", "T2", "T3", "TL", "2R", "22", "23", "2L", "3R", "32", "33", "3L", "BR", "B2", "B3",
        "BL",
    ];
    for (pad, name) in names.iter().enumerate() {
        assert_eq!(InputEvent::get_pad_position(pad as u8), *name);
    }
    assert_eq!(InputEvent::get_pad_position(16), "??");
}

#[test]
fn held_table_matches_the_latest_state() {
    let mut tracker = InputTracker::new();
    let mut states = Vec::new();
    let mut a = InputState::default();
    a.buttons.play = true;
    a.buttons.group_c = true;
    a.knobs.knob_4_touched = true;
    states.push(a);
    let mut b = a;
    b.buttons.play = false;
    b.buttons.shift = true;
    states.push(b);
    states.push(b);
    states.push(InputState::default());
    let mut c = InputState::default();
    c.knobs.main_knob_touched = true;
    c.buttons.microphone_connected = true;
    states.push(c);
    for state in states {
        tracker.update(state);
        for i in 0..86u8 {
            let element = InputElement::from_index(i);
            assert_eq!(tracker.is_held(&element), state.get_button(&element), "{:?}", element);
            assert!(!tracker.was_pressed(&element));
            assert!(!tracker.was_released(&element));
        }
    }
}
