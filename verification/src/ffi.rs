//! Plain-value forms of events and control ids for C callers.

use vstd::prelude::*;
use crate::element::InputElement;
use crate::event::InputEvent;

verus! {

// Status codes
pub const MK3_SUCCESS: i32 = 0;

pub const MK3_ERROR_NULL_POINTER: i32 = -1;

pub const MK3_ERROR_DEVICE_NOT_FOUND: i32 = -2;

pub const MK3_ERROR_USB_ERROR: i32 = -3;

pub const MK3_ERROR_TIMEOUT: i32 = -4;

pub const MK3_ERROR_COMMUNICATION: i32 = -5;

pub const MK3_ERROR_INVALID_PARAMETER: i32 = -6;

pub const MK3_ERROR_NO_EVENTS: i32 = -7;

/// Id of an element that has no id of its own.
pub const UNKNOWN_ELEMENT_ID: i32 = 999;

/// Kind of an event, numbered from 0 in declaration order.
#[derive(Debug, Clone, Copy, PartialEq, Eq, Structural)]
pub enum EventType {
    ButtonPressed,
    ButtonReleased,
    ButtonHeld,
    KnobChanged,
    AudioChanged,
    PadEvent,
}

/// Kind of a pad event, numbered from 0 in declaration order.
#[derive(Debug, Clone, Copy, PartialEq, Eq, Structural)]
pub enum PadEvent {
    Hit,
    TouchRelease,
    HitRelease,
    Aftertouch,
}

/// An input event as plain values.
#[derive(Debug, Clone, Copy, PartialEq, Eq, Structural)]
pub struct CInputEvent {
    pub event_type: EventType,
    /// Button, knob or pad id.
    pub element_id: i32,
    /// Velocity or knob value.
    pub value: u16,
    /// For knobs and audio controls.
    pub delta: i32,
    /// Only meaningful for pad events.
    pub pad_event_type: PadEvent,
}

/// An RGB colour as plain values.
#[derive(Debug, Clone, Copy, PartialEq, Eq, Structural)]
pub struct CRgbColor {
    pub r: u8,
    pub g: u8,
    pub b: u8,
}

impl EventType {
    /// The number of this kind.
    pub fn code(&self) -> (c: i32)
        ensures
            0 <= c <= 5,
            c == 0 <==> self is ButtonPressed,
            c == 1 <==> self is ButtonReleased,
            c == 2 <==> self is ButtonHeld,
            c == 3 <==> self is KnobChanged,
            c == 4 <==> self is AudioChanged,
            c == 5 <==> self is PadEvent,
    {
        match self {
            EventType::ButtonPressed => 0,
            EventType::ButtonReleased => 1,
            EventType::ButtonHeld => 2,
            EventType::KnobChanged => 3,
            EventType::AudioChanged => 4,
            EventType::PadEvent => 5,
        }
    }
}

impl PadEvent {
    /// The number of this kind.
    pub fn code(&self) -> (c: i32)
        ensures
            0 <= c <= 3,
            c == 0 <==> self is Hit,
            c == 1 <==> self is TouchRelease,
            c == 2 <==> self is HitRelease,
            c == 3 <==> self is Aftertouch,
    {
        match self {
            PadEvent::Hit => 0,
            PadEvent::TouchRelease => 1,
            PadEvent::HitRelease => 2,
            PadEvent::Aftertouch => 3,
        }
    }
}

/// The id of an element; 999 for an element without one.
pub open spec fn element_id(element: InputElement) -> i32 {
    match element {
        // Transport (0-6)
        InputElement::Play => 0,
        InputElement::Rec => 1,
        InputElement::Stop => 2,
        InputElement::Restart => 3,
        InputElement::Erase => 4,
        InputElement::Tap => 5,
        InputElement::Follow => 6,
        // Groups (7-14)
        InputElement::GroupA => 7,
        InputElement::GroupB => 8,
        InputElement::GroupC => 9,
        InputElement::GroupD => 10,
        InputElement::GroupE => 11,
        InputElement::GroupF => 12,
        InputElement::GroupG => 13,
        InputElement::GroupH => 14,
        // Knobs (15-23)
        InputElement::Knob1 => 15,
        InputElement::Knob2 => 16,
        InputElement::Knob3 => 17,
        InputElement::Knob4 => 18,
        InputElement::Knob5 => 19,
        InputElement::Knob6 => 20,
        InputElement::Knob7 => 21,
        InputElement::Knob8 => 22,
        InputElement::MainEncoder => 23,
        // Audio controls (24-26)
        InputElement::MicGain => 24,
        InputElement::HeadphoneVolume => 25,
        InputElement::MasterVolume => 26,
        // Mode buttons (27-40)
        InputElement::Notes => 27,
        InputElement::Volume => 28,
        InputElement::Swing => 29,
        InputElement::Tempo => 30,
        InputElement::NoteRepeat => 31,
        InputElement::Lock => 32,
        InputElement::PadMode => 33,
        InputElement::Keyboard => 34,
        InputElement::Chords => 35,
        InputElement::Step => 36,
        InputElement::FixedVel => 37,
        InputElement::Scene => 38,
        InputElement::Pattern => 39,
        InputElement::Events => 40,
        // Navigation (41-48)
        InputElement::Variation => 41,
        InputElement::Duplicate => 42,
        InputElement::Select => 43,
        InputElement::Solo => 44,
        InputElement::Mute => 45,
        InputElement::Pitch => 46,
        InputElement::Mod => 47,
        InputElement::Perform => 48,
        // Display buttons (49-56)
        InputElement::DisplayButton1 => 49,
        InputElement::DisplayButton2 => 50,
        InputElement::DisplayButton3 => 51,
        InputElement::DisplayButton4 => 52,
        InputElement::DisplayButton5 => 53,
        InputElement::DisplayButton6 => 54,
        InputElement::DisplayButton7 => 55,
        InputElement::DisplayButton8 => 56,
        // System buttons (57-68)
        InputElement::ChannelMidi => 57,
        InputElement::Arranger => 58,
        InputElement::BrowserPlugin => 59,
        InputElement::ArrowLeft => 60,
        InputElement::ArrowRight => 61,
        InputElement::FileSave => 62,
        InputElement::Settings => 63,
        InputElement::Macro => 64,
        InputElement::Plugin => 65,
        InputElement::Mixer => 66,
        InputElement::Sampling => 67,
        InputElement::Auto => 68,
        // Encoder push and directions (69-73)
        InputElement::EncoderPush => 69,
        InputElement::EncoderUp => 70,
        InputElement::EncoderDown => 71,
        InputElement::EncoderLeft => 72,
        InputElement::EncoderRight => 73,
        // Other (74)
        InputElement::Shift => 74,
        _ => UNKNOWN_ELEMENT_ID,
    }
}

/// The button named by an id, if the id names one.
pub open spec fn button_of_id(id: i32) -> Option<InputElement> {
    if id == 0 {
        Some(InputElement::Play)
    } else if id == 1 {
        Some(InputElement::Rec)
    } else if id == 2 {
        Some(InputElement::Stop)
    } else if id == 3 {
        Some(InputElement::Restart)
    } else if id == 4 {
        Some(InputElement::Erase)
    } else if id == 5 {
        Some(InputElement::Tap)
    } else if id == 6 {
        Some(InputElement::Follow)
    } else if id == 7 {
        Some(InputElement::GroupA)
    } else if id == 8 {
        Some(InputElement::GroupB)
    } else if id == 9 {
        Some(InputElement::GroupC)
    } else if id == 10 {
        Some(InputElement::GroupD)
    } else if id == 11 {
        Some(InputElement::GroupE)
    } else if id == 12 {
        Some(InputElement::GroupF)
    } else if id == 13 {
        Some(InputElement::GroupG)
    } else if id == 14 {
        Some(InputElement::GroupH)
    } else if id == 27 {
        Some(InputElement::Notes)
    } else if id == 28 {
        Some(InputElement::Volume)
    } else if id == 29 {
        Some(InputElement::Swing)
    } else if id == 30 {
        Some(InputElement::Tempo)
    } else if id == 31 {
        Some(InputElement::NoteRepeat)
    } else if id == 32 {
        Some(InputElement::Lock)
    } else if id == 33 {
        Some(InputElement::PadMode)
    } else if id == 34 {
        Some(InputElement::Keyboard)
    } else if id == 35 {
        Some(InputElement::Chords)
    } else if id == 36 {
        Some(InputElement::Step)
    } else if id == 37 {
        Some(InputElement::FixedVel)
    } else if id == 38 {
        Some(InputElement::Scene)
    } else if id == 39 {
        Some(InputElement::Pattern)
    } else if id == 40 {
        Some(InputElement::Events)
    } else if id == 41 {
        Some(InputElement::Variation)
    } else if id == 42 {
        Some(InputElement::Duplicate)
    } else if id == 43 {
        Some(InputElement::Select)
    } else if id == 44 {
        Some(InputElement::Solo)
    } else if id == 45 {
        Some(InputElement::Mute)
    } else if id == 46 {
        Some(InputElement::Pitch)
    } else if id == 47 {
        Some(InputElement::Mod)
    } else if id == 48 {
        Some(InputElement::Perform)
    } else if id == 49 {
        Some(InputElement::DisplayButton1)
    } else if id == 50 {
        Some(InputElement::DisplayButton2)
    } else if id == 51 {
        Some(InputElement::DisplayButton3)
    } else if id == 52 {
        Some(InputElement::DisplayButton4)
    } else if id == 53 {
        Some(InputElement::DisplayButton5)
    } else if id == 54 {
        Some(InputElement::DisplayButton6)
    } else if id == 55 {
        Some(InputElement::DisplayButton7)
    } else if id == 56 {
        Some(InputElement::DisplayButton8)
    } else if id == 57 {
        Some(InputElement::ChannelMidi)
    } else if id == 58 {
        Some(InputElement::Arranger)
    } else if id == 59 {
        Some(InputElement::BrowserPlugin)
    } else if id == 60 {
        Some(InputElement::ArrowLeft)
    } else if id == 61 {
        Some(InputElement::ArrowRight)
    } else if id == 62 {
        Some(InputElement::FileSave)
    } else if id == 63 {
        Some(InputElement::Settings)
    } else if id == 64 {
        Some(InputElement::Macro)
    } else if id == 65 {
        Some(InputElement::Plugin)
    } else if id == 66 {
        Some(InputElement::Mixer)
    } else if id == 67 {
        Some(InputElement::Sampling)
    } else if id == 68 {
        Some(InputElement::Auto)
    } else if id == 69 {
        Some(InputElement::EncoderPush)
    } else if id == 74 {
        Some(InputElement::Shift)
    } else {
        None
    }
}

/// The plain-value form of an event. A button event carries the button's
/// id; a value change carries the element's id, the new value and the
/// change; a pad hit carries the pad number and the velocity.
pub open spec fn c_event(event: InputEvent) -> CInputEvent {
    match event {
        InputEvent::ButtonPressed(element) => CInputEvent {
            event_type: EventType::ButtonPressed,
            element_id: element_id(element),
            value: 0,
            delta: 0,
            pad_event_type: PadEvent::Hit,
        },
        InputEvent::ButtonReleased(element) => CInputEvent {
            event_type: EventType::ButtonReleased,
            element_id: element_id(element),
            value: 0,
            delta: 0,
            pad_event_type: PadEvent::Hit,
        },
        InputEvent::ButtonHeld(element) => CInputEvent {
            event_type: EventType::ButtonHeld,
            element_id: element_id(element),
            value: 0,
            delta: 0,
            pad_event_type: PadEvent::Hit,
        },
        InputEvent::KnobChanged { element, value, delta } => CInputEvent {
            event_type: EventType::KnobChanged,
            element_id: element_id(element),
            value,
            delta,
            pad_event_type: PadEvent::Hit,
        },
        InputEvent::AudioChanged { element, value, delta } => CInputEvent {
            event_type: EventType::AudioChanged,
            element_id: element_id(element),
            value,
            delta,
            pad_event_type: PadEvent::Hit,
        },
        InputEvent::PadHit { pad_number, velocity, pressure } => CInputEvent {
            event_type: EventType::PadEvent,
            element_id: pad_number as i32,
            value: velocity as u16,
            delta: 0,
            pad_event_type: PadEvent::Hit,
        },
    }
}

/// Converts an event to its plain-value form.
pub fn convert_input_event(event: &InputEvent) -> (c: CInputEvent)
    ensures
        c == c_event(*event),
{
    match event {
        InputEvent::ButtonPressed(element) => CInputEvent {
            event_type: EventType::ButtonPressed,
            element_id: input_element_to_id(element),
            value: 0,
            delta: 0,
            pad_event_type: PadEvent::Hit,
        },
        InputEvent::ButtonReleased(element) => CInputEvent {
            event_type: EventType::ButtonReleased,
            element_id: input_element_to_id(element),
            value: 0,
            delta: 0,
            pad_event_type: PadEvent::Hit,
        },
        InputEvent::ButtonHeld(element) => CInputEvent {
            event_type: EventType::ButtonHeld,
            element_id: input_element_to_id(element),
            value: 0,
            delta: 0,
            pad_event_type: PadEvent::Hit,
        },
        InputEvent::KnobChanged { element, value, delta } => CInputEvent {
            event_type: EventType::KnobChanged,
            element_id: input_element_to_id(element),
            value: *value,
            delta: *delta,
            pad_event_type: PadEvent::Hit,
        },
        InputEvent::AudioChanged { element, value, delta } => CInputEvent {
            event_type: EventType::AudioChanged,
            element_id: input_element_to_id(element),
            value: *value,
            delta: *delta,
            pad_event_type: PadEvent::Hit,
        },
        InputEvent::PadHit { pad_number, velocity, pressure } => CInputEvent {
            event_type: EventType::PadEvent,
            element_id: *pad_number as i32,
            value: *velocity as u16,
            delta: 0,
            pad_event_type: PadEvent::Hit,
        },
    }
}

/// Converts the first `max_events` events to their plain-value form.
pub fn convert_events(events: &Vec<InputEvent>, max_events: u32) -> (out: Vec<CInputEvent>)
    ensures
        out@.len() == (if events@.len() <= max_events {
            events@.len() as int
        } else {
            max_events as int
        }),
        forall|i: int| 0 <= i < out@.len() ==> out@[i] == c_event(events@[i]),
{
    let mut out: Vec<CInputEvent> = Vec::new();
    let mut i: usize = 0;
    while i < events.len() && i < max_events as usize
        invariant
            i <= events@.len(),
            i <= max_events,
            out@.len() == i,
            forall|k: int| 0 <= k < i ==> out@[k] == c_event(events@[k]),
        decreases events@.len() - i,
    {
        out.push(convert_input_event(&events[i]));
        i = i + 1;
    }
    out
}

/// Maps an element to its id; 999 for an element without one.
pub fn input_element_to_id(element: &InputElement) -> (id: i32)
    ensures
        id == element_id(*element),
{
    match element {

        // Transport (0-6)
        InputElement::Play => 0,
        InputElement::Rec => 1,
        InputElement::Stop => 2,
        InputElement::Restart => 3,
        InputElement::Erase => 4,
        InputElement::Tap => 5,
        InputElement::Follow => 6,

        // Groups (7-14)
        InputElement::GroupA => 7,
        InputElement::GroupB => 8,
        InputElement::GroupC => 9,
        InputElement::GroupD => 10,
        InputElement::GroupE => 11,
        InputElement::GroupF => 12,
        InputElement::GroupG => 13,
        InputElement::GroupH => 14,

        // Knobs (15-23)
        InputElement::Knob1 => 15,
        InputElement::Knob2 => 16,
        InputElement::Knob3 => 17,
        InputElement::Knob4 => 18,
        InputElement::Knob5 => 19,
        InputElement::Knob6 => 20,
        InputElement::Knob7 => 21,
        InputElement::Knob8 => 22,
        InputElement::MainEncoder => 23,

        // Audio controls (24-26)
        InputElement::MicGain => 24,
        InputElement::HeadphoneVolume => 25,
        InputElement::MasterVolume => 26,

        // Mode buttons (27-40)
        InputElement::Notes => 27,
        InputElement::Volume => 28,
        InputElement::Swing => 29,
        InputElement::Tempo => 30,
        InputElement::NoteRepeat => 31,
        InputElement::Lock => 32,
        InputElement::PadMode => 33,
        InputElement::Keyboard => 34,
        InputElement::Chords => 35,
        InputElement::Step => 36,
        InputElement::FixedVel => 37,
        InputElement::Scene => 38,
        InputElement::Pattern => 39,
        InputElement::Events => 40,

        // Navigation (41-48)
        InputElement::Variation => 41,
        InputElement::Duplicate => 42,
        InputElement::Select => 43,
        InputElement::Solo => 44,
        InputElement::Mute => 45,
        InputElement::Pitch => 46,
        InputElement::Mod => 47,
        InputElement::Perform => 48,

        // Display buttons (49-56)
        InputElement::DisplayButton1 => 49,
        InputElement::DisplayButton2 => 50,
        InputElement::DisplayButton3 => 51,
        InputElement::DisplayButton4 => 52,
        InputElement::DisplayButton5 => 53,
        InputElement::DisplayButton6 => 54,
        InputElement::DisplayButton7 => 55,
        InputElement::DisplayButton8 => 56,

        // System buttons (57-68)
        InputElement::ChannelMidi => 57,
        InputElement::Arranger => 58,
        InputElement::BrowserPlugin => 59,
        InputElement::ArrowLeft => 60,
        InputElement::ArrowRight => 61,
        InputElement::FileSave => 62,
        InputElement::Settings => 63,
        InputElement::Macro => 64,
        InputElement::Plugin => 65,
        InputElement::Mixer => 66,
        InputElement::Sampling => 67,
        InputElement::Auto => 68,

        // Encoder push and directions (69-73)
        InputElement::EncoderPush => 69,
        InputElement::EncoderUp => 70,
        InputElement::EncoderDown => 71,
        InputElement::EncoderLeft => 72,
        InputElement::EncoderRight => 73,

        // Other (74)
        InputElement::Shift => 74,

        _ => UNKNOWN_ELEMENT_ID,  // Unknown
    }
}

/// Maps an id back to the button it names, if it names one.
pub fn convert_button_id(id: i32) -> (button: Option<InputElement>)
    ensures
        button == button_of_id(id),
        button matches Some(element) ==> element_id(element) == id,
{
    match id {
        0 => Some(InputElement::Play),
        1 => Some(InputElement::Rec),
        2 => Some(InputElement::Stop),
        3 => Some(InputElement::Restart),
        4 => Some(InputElement::Erase),
        5 => Some(InputElement::Tap),
        6 => Some(InputElement::Follow),
        7 => Some(InputElement::GroupA),
        8 => Some(InputElement::GroupB),
        9 => Some(InputElement::GroupC),
        10 => Some(InputElement::GroupD),
        11 => Some(InputElement::GroupE),
        12 => Some(InputElement::GroupF),
        13 => Some(InputElement::GroupG),
        14 => Some(InputElement::GroupH),
        27 => Some(InputElement::Notes),
        28 => Some(InputElement::Volume),
        29 => Some(InputElement::Swing),
        30 => Some(InputElement::Tempo),
        31 => Some(InputElement::NoteRepeat),
        32 => Some(InputElement::Lock),
        33 => Some(InputElement::PadMode),
        34 => Some(InputElement::Keyboard),
        35 => Some(InputElement::Chords),
        36 => Some(InputElement::Step),
        37 => Some(InputElement::FixedVel),
        38 => Some(InputElement::Scene),
        39 => Some(InputElement::Pattern),
        40 => Some(InputElement::Events),
        41 => Some(InputElement::Variation),
        42 => Some(InputElement::Duplicate),
        43 => Some(InputElement::Select),
        44 => Some(InputElement::Solo),
        45 => Some(InputElement::Mute),
        46 => Some(InputElement::Pitch),
        47 => Some(InputElement::Mod),
        48 => Some(InputElement::Perform),
        49 => Some(InputElement::DisplayButton1),
        50 => Some(InputElement::DisplayButton2),
        51 => Some(InputElement::DisplayButton3),
        52 => Some(InputElement::DisplayButton4),
        53 => Some(InputElement::DisplayButton5),
        54 => Some(InputElement::DisplayButton6),
        55 => Some(InputElement::DisplayButton7),
        56 => Some(InputElement::DisplayButton8),
        57 => Some(InputElement::ChannelMidi),
        58 => Some(InputElement::Arranger),
        59 => Some(InputElement::BrowserPlugin),
        60 => Some(InputElement::ArrowLeft),
        61 => Some(InputElement::ArrowRight),
        62 => Some(InputElement::FileSave),
        63 => Some(InputElement::Settings),
        64 => Some(InputElement::Macro),
        65 => Some(InputElement::Plugin),
        66 => Some(InputElement::Mixer),
        67 => Some(InputElement::Sampling),
        68 => Some(InputElement::Auto),
        69 => Some(InputElement::EncoderPush),
        74 => Some(InputElement::Shift),
        _ => None,
    }
}

/// An id that names a button is the id of that button.
pub proof fn lemma_button_id_round_trip(id: i32)
    ensures
        button_of_id(id) matches Some(element) ==> element_id(element) == id,
{
}

} // verus!
