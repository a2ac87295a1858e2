//! The vocabulary of addressable controls.

use vstd::prelude::*;

verus! {

/// Every addressable control of the device: buttons, presence flags, knobs,
/// knob touch sensors and audio controls.
///
/// The declaration order is the order in which events are reported.
#[derive(Debug, Clone, Copy, PartialEq, Eq, Hash, Structural)]
pub enum InputElement {
    // Buttons
    Play,
    Rec,
    Stop,
    Restart,
    Erase,
    Tap,
    Follow,
    GroupA,
    GroupB,
    GroupC,
    GroupD,
    GroupE,
    GroupF,
    GroupG,
    GroupH,
    Notes,
    Volume,
    Swing,
    Tempo,
    NoteRepeat,
    Lock,
    PadMode,
    Keyboard,
    Chords,
    Step,
    FixedVel,
    Scene,
    Pattern,
    Events,
    Variation,
    Duplicate,
    Select,
    Solo,
    Mute,
    Pitch,
    Mod,
    Perform,
    Shift,
    EncoderPush,
    EncoderUp,
    EncoderDown,
    EncoderLeft,
    EncoderRight,
    DisplayButton1,
    DisplayButton2,
    DisplayButton3,
    DisplayButton4,
    DisplayButton5,
    DisplayButton6,
    DisplayButton7,
    DisplayButton8,
    ChannelMidi,
    Arranger,
    BrowserPlugin,
    ArrowLeft,
    ArrowRight,
    FileSave,
    Settings,
    Macro,
    Plugin,
    Mixer,
    Sampling,
    Auto,
    PedalConnected,
    MicrophoneConnected,
    // Knobs
    Knob1,
    Knob2,
    Knob3,
    Knob4,
    Knob5,
    Knob6,
    Knob7,
    Knob8,
    MainEncoder,
    // Knob touch sensors
    Knob1Touched,
    Knob2Touched,
    Knob3Touched,
    Knob4Touched,
    Knob5Touched,
    Knob6Touched,
    Knob7Touched,
    Knob8Touched,
    MainKnobTouched,
    // Audio controls
    MicGain,
    HeadphoneVolume,
    MasterVolume,
}

/// Number of input elements.
pub const ELEMENT_COUNT: u8 = 86;

/// Number of elements that report an on/off state: the 65 buttons and
/// presence flags, followed by the 9 knob touch sensors.
pub const BUTTON_COUNT: u8 = 74;

impl InputElement {
    /// The position of this element in the declaration order.
    pub open spec fn spec_index(self) -> u8 {
        match self {
            InputElement::Play => 0,
            InputElement::Rec => 1,
            InputElement::Stop => 2,
            InputElement::Restart => 3,
            InputElement::Erase => 4,
            InputElement::Tap => 5,
            InputElement::Follow => 6,
            InputElement::GroupA => 7,
            InputElement::GroupB => 8,
            InputElement::GroupC => 9,
            InputElement::GroupD => 10,
            InputElement::GroupE => 11,
            InputElement::GroupF => 12,
            InputElement::GroupG => 13,
            InputElement::GroupH => 14,
            InputElement::Notes => 15,
            InputElement::Volume => 16,
            InputElement::Swing => 17,
            InputElement::Tempo => 18,
            InputElement::NoteRepeat => 19,
            InputElement::Lock => 20,
            InputElement::PadMode => 21,
            InputElement::Keyboard => 22,
            InputElement::Chords => 23,
            InputElement::Step => 24,
            InputElement::FixedVel => 25,
            InputElement::Scene => 26,
            InputElement::Pattern => 27,
            InputElement::Events => 28,
            InputElement::Variation => 29,
            InputElement::Duplicate => 30,
            InputElement::Select => 31,
            InputElement::Solo => 32,
            InputElement::Mute => 33,
            InputElement::Pitch => 34,
            InputElement::Mod => 35,
            InputElement::Perform => 36,
            InputElement::Shift => 37,
            InputElement::EncoderPush => 38,
            InputElement::EncoderUp => 39,
            InputElement::EncoderDown => 40,
            InputElement::EncoderLeft => 41,
            InputElement::EncoderRight => 42,
            InputElement::DisplayButton1 => 43,
            InputElement::DisplayButton2 => 44,
            InputElement::DisplayButton3 => 45,
            InputElement::DisplayButton4 => 46,
            InputElement::DisplayButton5 => 47,
            InputElement::DisplayButton6 => 48,
            InputElement::DisplayButton7 => 49,
            InputElement::DisplayButton8 => 50,
            InputElement::ChannelMidi => 51,
            InputElement::Arranger => 52,
            InputElement::BrowserPlugin => 53,
            InputElement::ArrowLeft => 54,
            InputElement::ArrowRight => 55,
            InputElement::FileSave => 56,
            InputElement::Settings => 57,
            InputElement::Macro => 58,
            InputElement::Plugin => 59,
            InputElement::Mixer => 60,
            InputElement::Sampling => 61,
            InputElement::Auto => 62,
            InputElement::PedalConnected => 63,
            InputElement::MicrophoneConnected => 64,
            InputElement::Knob1 => 65,
            InputElement::Knob2 => 66,
            InputElement::Knob3 => 67,
            InputElement::Knob4 => 68,
            InputElement::Knob5 => 69,
            InputElement::Knob6 => 70,
            InputElement::Knob7 => 71,
            InputElement::Knob8 => 72,
            InputElement::MainEncoder => 73,
            InputElement::Knob1Touched => 74,
            InputElement::Knob2Touched => 75,
            InputElement::Knob3Touched => 76,
            InputElement::Knob4Touched => 77,
            InputElement::Knob5Touched => 78,
            InputElement::Knob6Touched => 79,
            InputElement::Knob7Touched => 80,
            InputElement::Knob8Touched => 81,
            InputElement::MainKnobTouched => 82,
            InputElement::MicGain => 83,
            InputElement::HeadphoneVolume => 84,
            InputElement::MasterVolume => 85,
        }
    }

    /// The position of this element in the declaration order.
    #[verifier::when_used_as_spec(spec_index)]
    pub fn index(self) -> (i: u8)
        ensures
            i == self.spec_index(),
            i < ELEMENT_COUNT,
    {
        match self {
            InputElement::Play => 0,
            InputElement::Rec => 1,
            InputElement::Stop => 2,
            InputElement::Restart => 3,
            InputElement::Erase => 4,
            InputElement::Tap => 5,
            InputElement::Follow => 6,
            InputElement::GroupA => 7,
            InputElement::GroupB => 8,
            InputElement::GroupC => 9,
            InputElement::GroupD => 10,
            InputElement::GroupE => 11,
            InputElement::GroupF => 12,
            InputElement::GroupG => 13,
            InputElement::GroupH => 14,
            InputElement::Notes => 15,
            InputElement::Volume => 16,
            InputElement::Swing => 17,
            InputElement::Tempo => 18,
            InputElement::NoteRepeat => 19,
            InputElement::Lock => 20,
            InputElement::PadMode => 21,
            InputElement::Keyboard => 22,
            InputElement::Chords => 23,
            InputElement::Step => 24,
            InputElement::FixedVel => 25,
            InputElement::Scene => 26,
            InputElement::Pattern => 27,
            InputElement::Events => 28,
            InputElement::Variation => 29,
            InputElement::Duplicate => 30,
            InputElement::Select => 31,
            InputElement::Solo => 32,
            InputElement::Mute => 33,
            InputElement::Pitch => 34,
            InputElement::Mod => 35,
            InputElement::Perform => 36,
            InputElement::Shift => 37,
            InputElement::EncoderPush => 38,
            InputElement::EncoderUp => 39,
            InputElement::EncoderDown => 40,
            InputElement::EncoderLeft => 41,
            InputElement::EncoderRight => 42,
            InputElement::DisplayButton1 => 43,
            InputElement::DisplayButton2 => 44,
            InputElement::DisplayButton3 => 45,
            InputElement::DisplayButton4 => 46,
            InputElement::DisplayButton5 => 47,
            InputElement::DisplayButton6 => 48,
            InputElement::DisplayButton7 => 49,
            InputElement::DisplayButton8 => 50,
            InputElement::ChannelMidi => 51,
            InputElement::Arranger => 52,
            InputElement::BrowserPlugin => 53,
            InputElement::ArrowLeft => 54,
            InputElement::ArrowRight => 55,
            InputElement::FileSave => 56,
            InputElement::Settings => 57,
            InputElement::Macro => 58,
            InputElement::Plugin => 59,
            InputElement::Mixer => 60,
            InputElement::Sampling => 61,
            InputElement::Auto => 62,
            InputElement::PedalConnected => 63,
            InputElement::MicrophoneConnected => 64,
            InputElement::Knob1 => 65,
            InputElement::Knob2 => 66,
            InputElement::Knob3 => 67,
            InputElement::Knob4 => 68,
            InputElement::Knob5 => 69,
            InputElement::Knob6 => 70,
            InputElement::Knob7 => 71,
            InputElement::Knob8 => 72,
            InputElement::MainEncoder => 73,
            InputElement::Knob1Touched => 74,
            InputElement::Knob2Touched => 75,
            InputElement::Knob3Touched => 76,
            InputElement::Knob4Touched => 77,
            InputElement::Knob5Touched => 78,
            InputElement::Knob6Touched => 79,
            InputElement::Knob7Touched => 80,
            InputElement::Knob8Touched => 81,
            InputElement::MainKnobTouched => 82,
            InputElement::MicGain => 83,
            InputElement::HeadphoneVolume => 84,
            InputElement::MasterVolume => 85,
        }
    }

    /// The element at position `i` of the declaration order; positions past
    /// the end give the last element.
    pub open spec fn spec_from_index(i: u8) -> InputElement {
        match i {
            0 => InputElement::Play,
            1 => InputElement::Rec,
            2 => InputElement::Stop,
            3 => InputElement::Restart,
            4 => InputElement::Erase,
            5 => InputElement::Tap,
            6 => InputElement::Follow,
            7 => InputElement::GroupA,
            8 => InputElement::GroupB,
            9 => InputElement::GroupC,
            10 => InputElement::GroupD,
            11 => InputElement::GroupE,
            12 => InputElement::GroupF,
            13 => InputElement::GroupG,
            14 => InputElement::GroupH,
            15 => InputElement::Notes,
            16 => InputElement::Volume,
            17 => InputElement::Swing,
            18 => InputElement::Tempo,
            19 => InputElement::NoteRepeat,
            20 => InputElement::Lock,
            21 => InputElement::PadMode,
            22 => InputElement::Keyboard,
            23 => InputElement::Chords,
            24 => InputElement::Step,
            25 => InputElement::FixedVel,
            26 => InputElement::Scene,
            27 => InputElement::Pattern,
            28 => InputElement::Events,
            29 => InputElement::Variation,
            30 => InputElement::Duplicate,
            31 => InputElement::Select,
            32 => InputElement::Solo,
            33 => InputElement::Mute,
            34 => InputElement::Pitch,
            35 => InputElement::Mod,
            36 => InputElement::Perform,
            37 => InputElement::Shift,
            38 => InputElement::EncoderPush,
            39 => InputElement::EncoderUp,
            40 => InputElement::EncoderDown,
            41 => InputElement::EncoderLeft,
            42 => InputElement::EncoderRight,
            43 => InputElement::DisplayButton1,
            44 => InputElement::DisplayButton2,
            45 => InputElement::DisplayButton3,
            46 => InputElement::DisplayButton4,
            47 => InputElement::DisplayButton5,
            48 => InputElement::DisplayButton6,
            49 => InputElement::DisplayButton7,
            50 => InputElement::DisplayButton8,
            51 => InputElement::ChannelMidi,
            52 => InputElement::Arranger,
            53 => InputElement::BrowserPlugin,
            54 => InputElement::ArrowLeft,
            55 => InputElement::ArrowRight,
            56 => InputElement::FileSave,
            57 => InputElement::Settings,
            58 => InputElement::Macro,
            59 => InputElement::Plugin,
            60 => InputElement::Mixer,
            61 => InputElement::Sampling,
            62 => InputElement::Auto,
            63 => InputElement::PedalConnected,
            64 => InputElement::MicrophoneConnected,
            65 => InputElement::Knob1,
            66 => InputElement::Knob2,
            67 => InputElement::Knob3,
            68 => InputElement::Knob4,
            69 => InputElement::Knob5,
            70 => InputElement::Knob6,
            71 => InputElement::Knob7,
            72 => InputElement::Knob8,
            73 => InputElement::MainEncoder,
            74 => InputElement::Knob1Touched,
            75 => InputElement::Knob2Touched,
            76 => InputElement::Knob3Touched,
            77 => InputElement::Knob4Touched,
            78 => InputElement::Knob5Touched,
            79 => InputElement::Knob6Touched,
            80 => InputElement::Knob7Touched,
            81 => InputElement::Knob8Touched,
            82 => InputElement::MainKnobTouched,
            83 => InputElement::MicGain,
            84 => InputElement::HeadphoneVolume,
            _ => InputElement::MasterVolume,
        }
    }

    /// The element at position `i` of the declaration order; positions past
    /// the end give the last element.
    pub fn from_index(i: u8) -> (e: InputElement)
        ensures
            e == Self::spec_from_index(i),
            i < ELEMENT_COUNT ==> e.spec_index() == i,
    {
        let e = match i {
            0 => InputElement::Play,
            1 => InputElement::Rec,
            2 => InputElement::Stop,
            3 => InputElement::Restart,
            4 => InputElement::Erase,
            5 => InputElement::Tap,
            6 => InputElement::Follow,
            7 => InputElement::GroupA,
            8 => InputElement::GroupB,
            9 => InputElement::GroupC,
            10 => InputElement::GroupD,
            11 => InputElement::GroupE,
            12 => InputElement::GroupF,
            13 => InputElement::GroupG,
            14 => InputElement::GroupH,
            15 => InputElement::Notes,
            16 => InputElement::Volume,
            17 => InputElement::Swing,
            18 => InputElement::Tempo,
            19 => InputElement::NoteRepeat,
            20 => InputElement::Lock,
            21 => InputElement::PadMode,
            22 => InputElement::Keyboard,
            23 => InputElement::Chords,
            24 => InputElement::Step,
            25 => InputElement::FixedVel,
            26 => InputElement::Scene,
            27 => InputElement::Pattern,
            28 => InputElement::Events,
            29 => InputElement::Variation,
            30 => InputElement::Duplicate,
            31 => InputElement::Select,
            32 => InputElement::Solo,
            33 => InputElement::Mute,
            34 => InputElement::Pitch,
            35 => InputElement::Mod,
            36 => InputElement::Perform,
            37 => InputElement::Shift,
            38 => InputElement::EncoderPush,
            39 => InputElement::EncoderUp,
            40 => InputElement::EncoderDown,
            41 => InputElement::EncoderLeft,
            42 => InputElement::EncoderRight,
            43 => InputElement::DisplayButton1,
            44 => InputElement::DisplayButton2,
            45 => InputElement::DisplayButton3,
            46 => InputElement::DisplayButton4,
            47 => InputElement::DisplayButton5,
            48 => InputElement::DisplayButton6,
            49 => InputElement::DisplayButton7,
            50 => InputElement::DisplayButton8,
            51 => InputElement::ChannelMidi,
            52 => InputElement::Arranger,
            53 => InputElement::BrowserPlugin,
            54 => InputElement::ArrowLeft,
            55 => InputElement::ArrowRight,
            56 => InputElement::FileSave,
            57 => InputElement::Settings,
            58 => InputElement::Macro,
            59 => InputElement::Plugin,
            60 => InputElement::Mixer,
            61 => InputElement::Sampling,
            62 => InputElement::Auto,
            63 => InputElement::PedalConnected,
            64 => InputElement::MicrophoneConnected,
            65 => InputElement::Knob1,
            66 => InputElement::Knob2,
            67 => InputElement::Knob3,
            68 => InputElement::Knob4,
            69 => InputElement::Knob5,
            70 => InputElement::Knob6,
            71 => InputElement::Knob7,
            72 => InputElement::Knob8,
            73 => InputElement::MainEncoder,
            74 => InputElement::Knob1Touched,
            75 => InputElement::Knob2Touched,
            76 => InputElement::Knob3Touched,
            77 => InputElement::Knob4Touched,
            78 => InputElement::Knob5Touched,
            79 => InputElement::Knob6Touched,
            80 => InputElement::Knob7Touched,
            81 => InputElement::Knob8Touched,
            82 => InputElement::MainKnobTouched,
            83 => InputElement::MicGain,
            84 => InputElement::HeadphoneVolume,
            _ => InputElement::MasterVolume,
        };
        e
    }

    /// Whether this element reports an on/off state: a button, a presence
    /// flag or a knob touch sensor.
    pub open spec fn is_button(self) -> bool {
        self.spec_index() < 65 || 74 <= self.spec_index() < 83
    }

    /// The `i`-th on/off element in reporting order: the buttons and presence
    /// flags first, then the knob touch sensors.
    pub open spec fn spec_button_at(i: int) -> InputElement {
        if i < 65 {
            Self::spec_from_index(i as u8)
        } else {
            Self::spec_from_index((i + 9) as u8)
        }
    }

    /// The `i`-th on/off element in reporting order.
    pub fn button_at(i: u8) -> (e: InputElement)
        requires
            i < BUTTON_COUNT,
        ensures
            e == Self::spec_button_at(i as int),
            e.is_button(),
            e.spec_index() == (if i < 65 { i as int } else { i + 9 }),
    {
        if i < 65 {
            Self::from_index(i)
        } else {
            Self::from_index(i + 9)
        }
    }

    /// The display name of this element.
    pub open spec fn spec_name(&self) -> Seq<char> {
        match self {
            InputElement::Play => "Play"@,
            InputElement::Rec => "Rec"@,
            InputElement::Stop => "Stop"@,
            InputElement::Restart => "Restart"@,
            InputElement::Erase => "Erase"@,
            InputElement::Tap => "Tap"@,
            InputElement::Follow => "Follow"@,
            InputElement::GroupA => "Group A"@,
            InputElement::GroupB => "Group B"@,
            InputElement::GroupC => "Group C"@,
            InputElement::GroupD => "Group D"@,
            InputElement::GroupE => "Group E"@,
            InputElement::GroupF => "Group F"@,
            InputElement::GroupG => "Group G"@,
            InputElement::GroupH => "Group H"@,
            InputElement::Notes => "Notes"@,
            InputElement::Volume => "Volume"@,
            InputElement::Swing => "Swing"@,
            InputElement::Tempo => "Tempo"@,
            InputElement::NoteRepeat => "Note Repeat"@,
            InputElement::Lock => "Lock"@,
            InputElement::PadMode => "Pad Mode"@,
            InputElement::Keyboard => "Keyboard"@,
            InputElement::Chords => "Chords"@,
            InputElement::Step => "Step"@,
            InputElement::FixedVel => "Fixed Vel"@,
            InputElement::Scene => "Scene"@,
            InputElement::Pattern => "Pattern"@,
            InputElement::Events => "Events"@,
            InputElement::Variation => "Variation"@,
            InputElement::Duplicate => "Duplicate"@,
            InputElement::Select => "Select"@,
            InputElement::Solo => "Solo"@,
            InputElement::Mute => "Mute"@,
            InputElement::Pitch => "Pitch"@,
            InputElement::Mod => "Mod"@,
            InputElement::Perform => "Perform"@,
            InputElement::Shift => "Shift"@,
            InputElement::EncoderPush => "Encoder Push"@,
            InputElement::EncoderUp => "Encoder Up"@,
            InputElement::EncoderDown => "Encoder Down"@,
            InputElement::EncoderLeft => "Encoder Left"@,
            InputElement::EncoderRight => "Encoder Right"@,
            InputElement::DisplayButton1 => "Display 1"@,
            InputElement::DisplayButton2 => "Display 2"@,
            InputElement::DisplayButton3 => "Display 3"@,
            InputElement::DisplayButton4 => "Display 4"@,
            InputElement::DisplayButton5 => "Display 5"@,
            InputElement::DisplayButton6 => "Display 6"@,
            InputElement::DisplayButton7 => "Display 7"@,
            InputElement::DisplayButton8 => "Display 8"@,
            InputElement::ChannelMidi => "Channel/MIDI"@,
            InputElement::Arranger => "Arranger"@,
            InputElement::BrowserPlugin => "Browser/Plugin"@,
            InputElement::ArrowLeft => "Arrow Left"@,
            InputElement::ArrowRight => "Arrow Right"@,
            InputElement::FileSave => "File/Save"@,
            InputElement::Settings => "Settings"@,
            InputElement::Macro => "Macro"@,
            InputElement::Plugin => "Plugin"@,
            InputElement::Mixer => "Mixer"@,
            InputElement::Sampling => "Sampling"@,
            InputElement::Auto => "Auto"@,
            InputElement::PedalConnected => "Pedal Connected"@,
            InputElement::MicrophoneConnected => "Microphone Connected"@,
            InputElement::Knob1 => "Knob 1"@,
            InputElement::Knob2 => "Knob 2"@,
            InputElement::Knob3 => "Knob 3"@,
            InputElement::Knob4 => "Knob 4"@,
            InputElement::Knob5 => "Knob 5"@,
            InputElement::Knob6 => "Knob 6"@,
            InputElement::Knob7 => "Knob 7"@,
            InputElement::Knob8 => "Knob 8"@,
            InputElement::MainEncoder => "Main Encoder"@,
            InputElement::Knob1Touched => "Knob 1 Touch"@,
            InputElement::Knob2Touched => "Knob 2 Touch"@,
            InputElement::Knob3Touched => "Knob 3 Touch"@,
            InputElement::Knob4Touched => "Knob 4 Touch"@,
            InputElement::Knob5Touched => "Knob 5 Touch"@,
            InputElement::Knob6Touched => "Knob 6 Touch"@,
            InputElement::Knob7Touched => "Knob 7 Touch"@,
            InputElement::Knob8Touched => "Knob 8 Touch"@,
            InputElement::MainKnobTouched => "Main Knob Touch"@,
            InputElement::MicGain => "Mic Gain"@,
            InputElement::HeadphoneVolume => "Headphone Volume"@,
            InputElement::MasterVolume => "Master Volume"@,
        }
    }

    /// The display name of this element.
    pub fn name(&self) -> (s: &'static str)
        ensures
            s@ == self.spec_name(),
    {
        match self {
            InputElement::Play => "Play",
            InputElement::Rec => "Rec",
            InputElement::Stop => "Stop",
            InputElement::Restart => "Restart",
            InputElement::Erase => "Erase",
            InputElement::Tap => "Tap",
            InputElement::Follow => "Follow",
            InputElement::GroupA => "Group A",
            InputElement::GroupB => "Group B",
            InputElement::GroupC => "Group C",
            InputElement::GroupD => "Group D",
            InputElement::GroupE => "Group E",
            InputElement::GroupF => "Group F",
            InputElement::GroupG => "Group G",
            InputElement::GroupH => "Group H",
            InputElement::Notes => "Notes",
            InputElement::Volume => "Volume",
            InputElement::Swing => "Swing",
            InputElement::Tempo => "Tempo",
            InputElement::NoteRepeat => "Note Repeat",
            InputElement::Lock => "Lock",
            InputElement::PadMode => "Pad Mode",
            InputElement::Keyboard => "Keyboard",
            InputElement::Chords => "Chords",
            InputElement::Step => "Step",
            InputElement::FixedVel => "Fixed Vel",
            InputElement::Scene => "Scene",
            InputElement::Pattern => "Pattern",
            InputElement::Events => "Events",
            InputElement::Variation => "Variation",
            InputElement::Duplicate => "Duplicate",
            InputElement::Select => "Select",
            InputElement::Solo => "Solo",
            InputElement::Mute => "Mute",
            InputElement::Pitch => "Pitch",
            InputElement::Mod => "Mod",
            InputElement::Perform => "Perform",
            InputElement::Shift => "Shift",
            InputElement::EncoderPush => "Encoder Push",
            InputElement::EncoderUp => "Encoder Up",
            InputElement::EncoderDown => "Encoder Down",
            InputElement::EncoderLeft => "Encoder Left",
            InputElement::EncoderRight => "Encoder Right",
            InputElement::DisplayButton1 => "Display 1",
            InputElement::DisplayButton2 => "Display 2",
            InputElement::DisplayButton3 => "Display 3",
            InputElement::DisplayButton4 => "Display 4",
            InputElement::DisplayButton5 => "Display 5",
            InputElement::DisplayButton6 => "Display 6",
            InputElement::DisplayButton7 => "Display 7",
            InputElement::DisplayButton8 => "Display 8",
            InputElement::ChannelMidi => "Channel/MIDI",
            InputElement::Arranger => "Arranger",
            InputElement::BrowserPlugin => "Browser/Plugin",
            InputElement::ArrowLeft => "Arrow Left",
            InputElement::ArrowRight => "Arrow Right",
            InputElement::FileSave => "File/Save",
            InputElement::Settings => "Settings",
            InputElement::Macro => "Macro",
            InputElement::Plugin => "Plugin",
            InputElement::Mixer => "Mixer",
            InputElement::Sampling => "Sampling",
            InputElement::Auto => "Auto",
            InputElement::PedalConnected => "Pedal Connected",
            InputElement::MicrophoneConnected => "Microphone Connected",
            InputElement::Knob1 => "Knob 1",
            InputElement::Knob2 => "Knob 2",
            InputElement::Knob3 => "Knob 3",
            InputElement::Knob4 => "Knob 4",
            InputElement::Knob5 => "Knob 5",
            InputElement::Knob6 => "Knob 6",
            InputElement::Knob7 => "Knob 7",
            InputElement::Knob8 => "Knob 8",
            InputElement::MainEncoder => "Main Encoder",
            InputElement::Knob1Touched => "Knob 1 Touch",
            InputElement::Knob2Touched => "Knob 2 Touch",
            InputElement::Knob3Touched => "Knob 3 Touch",
            InputElement::Knob4Touched => "Knob 4 Touch",
            InputElement::Knob5Touched => "Knob 5 Touch",
            InputElement::Knob6Touched => "Knob 6 Touch",
            InputElement::Knob7Touched => "Knob 7 Touch",
            InputElement::Knob8Touched => "Knob 8 Touch",
            InputElement::MainKnobTouched => "Main Knob Touch",
            InputElement::MicGain => "Mic Gain",
            InputElement::HeadphoneVolume => "Headphone Volume",
            InputElement::MasterVolume => "Master Volume",
        }
    }

    /// Whether the element's LED is RGB-capable: the eight group buttons, the
    /// browser button and the four encoder directions.
    pub open spec fn spec_has_color(&self) -> bool {
        match self {
            InputElement::GroupA
            | InputElement::GroupB
            | InputElement::GroupC
            | InputElement::GroupD
            | InputElement::GroupE
            | InputElement::GroupF
            | InputElement::GroupG
            | InputElement::GroupH
            | InputElement::BrowserPlugin
            | InputElement::EncoderUp
            | InputElement::EncoderLeft
            | InputElement::EncoderRight
            | InputElement::EncoderDown => true,
            _ => false,
        }
    }

    /// Whether the element's LED is RGB-capable.
    #[verifier::when_used_as_spec(spec_has_color)]
    pub fn has_color(&self) -> (b: bool)
        ensures
            b == self.spec_has_color(),
    {
        match self {
            InputElement::GroupA => true,
            InputElement::GroupB => true,
            InputElement::GroupC => true,
            InputElement::GroupD => true,
            InputElement::GroupE => true,
            InputElement::GroupF => true,
            InputElement::GroupG => true,
            InputElement::GroupH => true,
            InputElement::BrowserPlugin => true,
            InputElement::EncoderUp => true,
            InputElement::EncoderLeft => true,
            InputElement::EncoderRight => true,
            InputElement::EncoderDown => true,
            _ => false,
        }
    }
}

/// The declaration order numbers the elements one to one: an element is
/// recovered from its position, and two elements at the same position are the
/// same element.
pub proof fn lemma_index_is_a_bijection(a: InputElement, b: InputElement)
    ensures
        a.spec_index() < ELEMENT_COUNT,
        a.spec_index() == b.spec_index() ==> a == b,
        InputElement::spec_from_index(a.spec_index()).spec_index() == a.spec_index(),
        InputElement::spec_from_index(a.spec_index()) == a,
{
}

/// Every position below the element count is the position of exactly one
/// element.
pub proof fn lemma_from_index(i: u8)
    requires
        i < ELEMENT_COUNT,
    ensures
        InputElement::spec_from_index(i).spec_index() == i,
        InputElement::spec_from_index(i).is_button() <==> (i < 65 || 74 <= i < 83),
{
}

/// The `i`-th on/off element stands at position `i` of the declaration
/// order if it is a button or a presence flag, and nine positions further if
/// it is a knob touch sensor.
pub proof fn lemma_button_at(i: int)
    requires
        0 <= i < BUTTON_COUNT,
    ensures
        InputElement::spec_button_at(i).is_button(),
        InputElement::spec_button_at(i).spec_index() == (if i < 65 {
            i
        } else {
            i + 9
        }),
{
    if i < 65 {
        lemma_from_index(i as u8);
    } else {
        lemma_from_index((i + 9) as u8);
    }
}

/// The character at position `i` of a name, or `#` past its end.
spec fn name_char(name: Seq<char>, i: int) -> char {
    if i < name.len() {
        name[i]
    } else {
        '#'
    }
}

/// The length of a name and its characters at five positions; enough to tell
/// any two element names apart.
spec fn name_signature(name: Seq<char>) -> (int, char, char, char, char, char) {
    (
        name.len() as int,
        name_char(name, 2),
        name_char(name, 3),
        name_char(name, 5),
        name_char(name, 6),
        name_char(name, 8),
    )
}

/// Every element has a name of its own: names are not empty, and two
/// elements with the same name are the same element.
pub proof fn lemma_names_are_distinct(a: InputElement, b: InputElement)
    ensures
        a.spec_name().len() > 0,
        a.spec_name() == b.spec_name() ==> a == b,
{
    reveal_strlit("Play");
    assert(name_signature("Play"@) == (4int, 'a', 'y', '#', '#', '#'));
    reveal_strlit("Rec");
    assert(name_signature("Rec"@) == (3int, 'c', '#', '#', '#', '#'));
    reveal_strlit("Stop");
    assert(name_signature("Stop"@) == (4int, 'o', 'p', '#', '#', '#'));
    reveal_strlit("Restart");
    assert(name_signature("Restart"@) == (7int, 's', 't', 'r', 't', '#'));
    reveal_strlit("Erase");
    assert(name_signature("Erase"@) == (5int, 'a', 's', '#', '#', '#'));
    reveal_strlit("Tap");
    assert(name_signature("Tap"@) == (3int, 'p', '#', '#', '#', '#'));
    reveal_strlit("Follow");
    assert(name_signature("Follow"@) == (6int, 'l', 'l', 'w', '#', '#'));
    reveal_strlit("Group A");
    assert(name_signature("Group A"@) == (7int, 'o', 'u', ' ', 'A', '#'));
    reveal_strlit("Group B");
    assert(name_signature("Group B"@) == (7int, 'o', 'u', ' ', 'B', '#'));
    reveal_strlit("Group C");
    assert(name_signature("Group C"@) == (7int, 'o', 'u', ' ', 'C', '#'));
    reveal_strlit("Group D");
    assert(name_signature("Group D"@) == (7int, 'o', 'u', ' ', 'D', '#'));
    reveal_strlit("Group E");
    assert(name_signature("Group E"@) == (7int, 'o', 'u', ' ', 'E', '#'));
    reveal_strlit("Group F");
    assert(name_signature("Group F"@) == (7int, 'o', 'u', ' ', 'F', '#'));
    reveal_strlit("Group G");
    assert(name_signature("Group G"@) == (7int, 'o', 'u', ' ', 'G', '#'));
    reveal_strlit("Group H");
    assert(name_signature("Group H"@) == (7int, 'o', 'u', ' ', 'H', '#'));
    reveal_strlit("Notes");
    assert(name_signature("Notes"@) == (5int, 't', 'e', '#', '#', '#'));
    reveal_strlit("Volume");
    assert(name_signature("Volume"@) == (6int, 'l', 'u', 'e', '#', '#'));
    reveal_strlit("Swing");
    assert(name_signature("Swing"@) == (5int, 'i', 'n', '#', '#', '#'));
    reveal_strlit("Tempo");
    assert(name_signature("Tempo"@) == (5int, 'm', 'p', '#', '#', '#'));
    reveal_strlit("Note Repeat");
    assert(name_signature("Note Repeat"@) == (11int, 't', 'e', 'R', 'e', 'e'));
    reveal_strlit("Lock");
    assert(name_signature("Lock"@) == (4int, 'c', 'k', '#', '#', '#'));
    reveal_strlit("Pad Mode");
    assert(name_signature("Pad Mode"@) == (8int, 'd', ' ', 'o', 'd', '#'));
    reveal_strlit("Keyboard");
    assert(name_signature("Keyboard"@) == (8int, 'y', 'b', 'a', 'r', '#'));
    reveal_strlit("Chords");
    assert(name_signature("Chords"@) == (6int, 'o', 'r', 's', '#', '#'));
    reveal_strlit("Step");
    assert(name_signature("Step"@) == (4int, 'e', 'p', '#', '#', '#'));
    reveal_strlit("Fixed Vel");
    assert(name_signature("Fixed Vel"@) == (9int, 'x', 'e', ' ', 'V', 'l'));
    reveal_strlit("Scene");
    assert(name_signature("Scene"@) == (5int, 'e', 'n', '#', '#', '#'));
    reveal_strlit("Pattern");
    assert(name_signature("Pattern"@) == (7int, 't', 't', 'r', 'n', '#'));
    reveal_strlit("Events");
    assert(name_signature("Events"@) == (6int, 'e', 'n', 's', '#', '#'));
    reveal_strlit("Variation");
    assert(name_signature("Variation"@) == (9int, 'r', 'i', 't', 'i', 'n'));
    reveal_strlit("Duplicate");
    assert(name_signature("Duplicate"@) == (9int, 'p', 'l', 'c', 'a', 'e'));
    reveal_strlit("Select");
    assert(name_signature("Select"@) == (6int, 'l', 'e', 't', '#', '#'));
    reveal_strlit("Solo");
    assert(name_signature("Solo"@) == (4int, 'l', 'o', '#', '#', '#'));
    reveal_strlit("Mute");
    assert(name_signature("Mute"@) == (4int, 't', 'e', '#', '#', '#'));
    reveal_strlit("Pitch");
    assert(name_signature("Pitch"@) == (5int, 't', 'c', '#', '#', '#'));
    reveal_strlit("Mod");
    assert(name_signature("Mod"@) == (3int, 'd', '#', '#', '#', '#'));
    reveal_strlit("Perform");
    assert(name_signature("Perform"@) == (7int, 'r', 'f', 'r', 'm', '#'));
    reveal_strlit("Shift");
    assert(name_signature("Shift"@) == (5int, 'i', 'f', '#', '#', '#'));
    reveal_strlit("Encoder Push");
    assert(name_signature("Encoder Push"@) == (12int, 'c', 'o', 'e', 'r', 'P'));
    reveal_strlit("Encoder Up");
    assert(name_signature("Encoder Up"@) == (10int, 'c', 'o', 'e', 'r', 'U'));
    reveal_strlit("Encoder Down");
    assert(name_signature("Encoder Down"@) == (12int, 'c', 'o', 'e', 'r', 'D'));
    reveal_strlit("Encoder Left");
    assert(name_signature("Encoder Left"@) == (12int, 'c', 'o', 'e', 'r', 'L'));
    reveal_strlit("Encoder Right");
    assert(name_signature("Encoder Right"@) == (13int, 'c', 'o', 'e', 'r', 'R'));
    reveal_strlit("Display 1");
    assert(name_signature("Display 1"@) == (9int, 's', 'p', 'a', 'y', '1'));
    reveal_strlit("Display 2");
    assert(name_signature("Display 2"@) == (9int, 's', 'p', 'a', 'y', '2'));
    reveal_strlit("Display 3");
    assert(name_signature("Display 3"@) == (9int, 's', 'p', 'a', 'y', '3'));
    reveal_strlit("Display 4");
    assert(name_signature("Display 4"@) == (9int, 's', 'p', 'a', 'y', '4'));
    reveal_strlit("Display 5");
    assert(name_signature("Display 5"@) == (9int, 's', 'p', 'a', 'y', '5'));
    reveal_strlit("Display 6");
    assert(name_signature("Display 6"@) == (9int, 's', 'p', 'a', 'y', '6'));
    reveal_strlit("Display 7");
    assert(name_signature("Display 7"@) == (9int, 's', 'p', 'a', 'y', '7'));
    reveal_strlit("Display 8");
    assert(name_signature("Display 8"@) == (9int, 's', 'p', 'a', 'y', '8'));
    reveal_strlit("Channel/MIDI");
    assert(name_signature("Channel/MIDI"@) == (12int, 'a', 'n', 'e', 'l', 'M'));
    reveal_strlit("Arranger");
    assert(name_signature("Arranger"@) == (8int, 'r', 'a', 'g', 'e', '#'));
    reveal_strlit("Browser/Plugin");
    assert(name_signature("Browser/Plugin"@) == (14int, 'o', 'w', 'e', 'r', 'P'));
    reveal_strlit("Arrow Left");
    assert(name_signature("Arrow Left"@) == (10int, 'r', 'o', ' ', 'L', 'f'));
    reveal_strlit("Arrow Right");
    assert(name_signature("Arrow Right"@) == (11int, 'r', 'o', ' ', 'R', 'g'));
    reveal_strlit("File/Save");
    assert(name_signature("File/Save"@) == (9int, 'l', 'e', 'S', 'a', 'e'));
    reveal_strlit("Settings");
    assert(name_signature("Settings"@) == (8int, 't', 't', 'n', 'g', '#'));
    reveal_strlit("Macro");
    assert(name_signature("Macro"@) == (5int, 'c', 'r', '#', '#', '#'));
    reveal_strlit("Plugin");
    assert(name_signature("Plugin"@) == (6int, 'u', 'g', 'n', '#', '#'));
    reveal_strlit("Mixer");
    assert(name_signature("Mixer"@) == (5int, 'x', 'e', '#', '#', '#'));
    reveal_strlit("Sampling");
    assert(name_signature("Sampling"@) == (8int, 'm', 'p', 'i', 'n', '#'));
    reveal_strlit("Auto");
    assert(name_signature("Auto"@) == (4int, 't', 'o', '#', '#', '#'));
    reveal_strlit("Pedal Connected");
    assert(name_signature("Pedal Connected"@) == (15int, 'd', 'a', ' ', 'C', 'n'));
    reveal_strlit("Microphone Connected");
    assert(name_signature("Microphone Connected"@) == (20int, 'c', 'r', 'p', 'h', 'n'));
    reveal_strlit("Knob 1");
    assert(name_signature("Knob 1"@) == (6int, 'o', 'b', '1', '#', '#'));
    reveal_strlit("Knob 2");
    assert(name_signature("Knob 2"@) == (6int, 'o', 'b', '2', '#', '#'));
    reveal_strlit("Knob 3");
    assert(name_signature("Knob 3"@) == (6int, 'o', 'b', '3', '#', '#'));
    reveal_strlit("Knob 4");
    assert(name_signature("Knob 4"@) == (6int, 'o', 'b', '4', '#', '#'));
    reveal_strlit("Knob 5");
    assert(name_signature("Knob 5"@) == (6int, 'o', 'b', '5', '#', '#'));
    reveal_strlit("Knob 6");
    assert(name_signature("Knob 6"@) == (6int, 'o', 'b', '6', '#', '#'));
    reveal_strlit("Knob 7");
    assert(name_signature("Knob 7"@) == (6int, 'o', 'b', '7', '#', '#'));
    reveal_strlit("Knob 8");
    assert(name_signature("Knob 8"@) == (6int, 'o', 'b', '8', '#', '#'));
    reveal_strlit("Main Encoder");
    assert(name_signature("Main Encoder"@) == (12int, 'i', 'n', 'E', 'n', 'o'));
    reveal_strlit("Knob 1 Touch");
    assert(name_signature("Knob 1 Touch"@) == (12int, 'o', 'b', '1', ' ', 'o'));
    reveal_strlit("Knob 2 Touch");
    assert(name_signature("Knob 2 Touch"@) == (12int, 'o', 'b', '2', ' ', 'o'));
    reveal_strlit("Knob 3 Touch");
    assert(name_signature("Knob 3 Touch"@) == (12int, 'o', 'b', '3', ' ', 'o'));
    reveal_strlit("Knob 4 Touch");
    assert(name_signature("Knob 4 Touch"@) == (12int, 'o', 'b', '4', ' ', 'o'));
    reveal_strlit("Knob 5 Touch");
    assert(name_signature("Knob 5 Touch"@) == (12int, 'o', 'b', '5', ' ', 'o'));
    reveal_strlit("Knob 6 Touch");
    assert(name_signature("Knob 6 Touch"@) == (12int, 'o', 'b', '6', ' ', 'o'));
    reveal_strlit("Knob 7 Touch");
    assert(name_signature("Knob 7 Touch"@) == (12int, 'o', 'b', '7', ' ', 'o'));
    reveal_strlit("Knob 8 Touch");
    assert(name_signature("Knob 8 Touch"@) == (12int, 'o', 'b', '8', ' ', 'o'));
    reveal_strlit("Main Knob Touch");
    assert(name_signature("Main Knob Touch"@) == (15int, 'i', 'n', 'K', 'n', 'b'));
    reveal_strlit("Mic Gain");
    assert(name_signature("Mic Gain"@) == (8int, 'c', ' ', 'a', 'i', '#'));
    reveal_strlit("Headphone Volume");
    assert(name_signature("Headphone Volume"@) == (16int, 'a', 'd', 'h', 'o', 'e'));
    reveal_strlit("Master Volume");
    assert(name_signature("Master Volume"@) == (13int, 's', 't', 'r', ' ', 'o'));
    assert(name_signature(a.spec_name()) == name_signature(b.spec_name()) ==> a == b);
}

} // verus!
