//! Discrete input events.

use vstd::prelude::*;
use vstd::string::StringExecFns;
use crate::element::{InputElement, ELEMENT_COUNT};

verus! {

/// An event derived from the input packets. Events are produced once per
/// update and not retained.
#[derive(Debug, Clone, Copy, PartialEq, Eq)]
pub enum InputEvent {
    /// The element went from released to pressed.
    ButtonPressed(InputElement),
    /// The element went from pressed to released.
    ButtonReleased(InputElement),
    /// The element has stayed pressed for at least the hold threshold.
    ButtonHeld(InputElement),
    /// A knob or the main encoder moved; `delta` is the new value minus the old.
    KnobChanged { element: InputElement, value: u16, delta: i32 },
    /// An audio control moved; `delta` is the new value minus the old.
    AudioChanged { element: InputElement, value: u16, delta: i32 },
    /// A pad record of a pad packet.
    PadHit { pad_number: u8, velocity: u8, pressure: u8 },
}

impl InputEvent {
    /// Whether this is a press, release or hold event.
    pub open spec fn is_button_event(&self) -> bool {
        self is ButtonPressed || self is ButtonReleased || self is ButtonHeld
    }

    /// Whether this is a knob or audio value change.
    pub open spec fn is_value_event(&self) -> bool {
        self is KnobChanged || self is AudioChanged
    }

    /// The position in the declaration order of the element that this event
    /// is about; for a pad hit, which is about no element, the number of
    /// elements.
    pub open spec fn element_index(&self) -> int {
        match self {
            InputEvent::ButtonPressed(element) => element.spec_index() as int,
            InputEvent::ButtonReleased(element) => element.spec_index() as int,
            InputEvent::ButtonHeld(element) => element.spec_index() as int,
            InputEvent::KnobChanged { element, .. } => element.spec_index() as int,
            InputEvent::AudioChanged { element, .. } => element.spec_index() as int,
            InputEvent::PadHit { .. } => ELEMENT_COUNT as int,
        }
    }
}

/// Whether the events are about elements in strictly ascending declaration
/// order, all of them before position `bound`.
pub open spec fn in_element_order(events: Seq<InputEvent>, bound: int) -> bool {
    &&& forall|i: int| 0 <= i < events.len() ==> (#[trigger] events[i]).element_index() < bound
    &&& forall|i: int, j: int|
        0 <= i < j < events.len() ==> (#[trigger] events[i]).element_index() < (
        #[trigger] events[j]).element_index()
}

/// The character of a decimal digit.
pub open spec fn digit_char(d: int) -> char {
    if d == 0 {
        '0'
    } else if d == 1 {
        '1'
    } else if d == 2 {
        '2'
    } else if d == 3 {
        '3'
    } else if d == 4 {
        '4'
    } else if d == 5 {
        '5'
    } else if d == 6 {
        '6'
    } else if d == 7 {
        '7'
    } else if d == 8 {
        '8'
    } else {
        '9'
    }
}

/// A natural number in decimal notation, without leading zeros.
pub open spec fn decimal(n: nat) -> Seq<char>
    decreases n,
{
    if n < 10 {
        seq![digit_char(n as int)]
    } else {
        decimal(n / 10).push(digit_char((n % 10) as int))
    }
}

/// An integer in decimal notation, with a minus sign if it is negative.
pub open spec fn signed_decimal(i: int) -> Seq<char> {
    if i < 0 {
        seq!['-'] + decimal((-i) as nat)
    } else {
        decimal(i as nat)
    }
}

fn digit_str(d: u64) -> (s: &'static str)
    requires
        d < 10,
    ensures
        s@ == seq![digit_char(d as int)],
{
    match d {
        0 => {
            proof {
                reveal_strlit("0");
            }
            "0"
        },
        1 => {
            proof {
                reveal_strlit("1");
            }
            "1"
        },
        2 => {
            proof {
                reveal_strlit("2");
            }
            "2"
        },
        3 => {
            proof {
                reveal_strlit("3");
            }
            "3"
        },
        4 => {
            proof {
                reveal_strlit("4");
            }
            "4"
        },
        5 => {
            proof {
                reveal_strlit("5");
            }
            "5"
        },
        6 => {
            proof {
                reveal_strlit("6");
            }
            "6"
        },
        7 => {
            proof {
                reveal_strlit("7");
            }
            "7"
        },
        8 => {
            proof {
                reveal_strlit("8");
            }
            "8"
        },
        _ => {
            proof {
                reveal_strlit("9");
            }
            "9"
        },
    }
}

fn append_decimal(text: &mut String, n: u64)
    ensures
        final(text)@ == old(text)@ + decimal(n as nat),
    decreases n,
{
    if n >= 10 {
        append_decimal(text, n / 10);
    }
    text.append(digit_str(n % 10));
    proof {
        assert(text@ =~= old(text)@ + decimal(n as nat));
    }
}

fn append_signed_decimal(text: &mut String, i: i32)
    ensures
        final(text)@ == old(text)@ + signed_decimal(i as int),
{
    if i < 0 {
        proof {
            reveal_strlit("-");
        }
        text.append("-");
        append_decimal(text, (-(i as i64)) as u64);
        proof {
            assert(text@ =~= old(text)@ + signed_decimal(i as int));
        }
    } else {
        append_decimal(text, i as u64);
    }
}

impl InputEvent {
    /// The grid position of a pad: row (top, 2, 3, bottom) and column
    /// (right, 2, 3, left). Pads count from the top-right to the bottom-left.
    pub open spec fn pad_position(pad_num: u8) -> Seq<char> {
        if pad_num == 0 {
            "TR"@
        } else if pad_num == 1 {
            "T2"@
        } else if pad_num == 2 {
            "T3"@
        } else if pad_num == 3 {
            "TL"@
        } else if pad_num == 4 {
            "2R"@
        } else if pad_num == 5 {
            "22"@
        } else if pad_num == 6 {
            "23"@
        } else if pad_num == 7 {
            "2L"@
        } else if pad_num == 8 {
            "3R"@
        } else if pad_num == 9 {
            "32"@
        } else if pad_num == 10 {
            "33"@
        } else if pad_num == 11 {
            "3L"@
        } else if pad_num == 12 {
            "BR"@
        } else if pad_num == 13 {
            "B2"@
        } else if pad_num == 14 {
            "B3"@
        } else if pad_num == 15 {
            "BL"@
        } else {
            "??"@
        }
    }

    /// The grid position name of a pad number (0 to 15).
    pub fn get_pad_position(pad_num: u8) -> (s: &'static str)
        ensures
            s@ == Self::pad_position(pad_num),
    {
        match pad_num {
            0 => "TR",  // Top Right
            1 => "T2",
            2 => "T3",
            3 => "TL",  // Top Left
            4 => "2R",
            5 => "22",
            6 => "23",
            7 => "2L",
            8 => "3R",
            9 => "32",
            10 => "33",
            11 => "3L",
            12 => "BR",  // Bottom Right
            13 => "B2",
            14 => "B3",
            15 => "BL",  // Bottom Left
            _ => "??",
        }
    }

    /// A human-readable description of this event.
    pub open spec fn spec_description(&self) -> Seq<char> {
        match self {
            InputEvent::ButtonPressed(element) => element.spec_name() + " pressed"@,
            InputEvent::ButtonReleased(element) => element.spec_name() + " released"@,
            InputEvent::ButtonHeld(element) => element.spec_name() + " held"@,
            InputEvent::KnobChanged { element, value, delta } => element.spec_name() + " → "@
                + decimal(*value as nat) + " (Δ"@ + signed_decimal(*delta as int) + ")"@,
            InputEvent::AudioChanged { element, value, delta } => element.spec_name() + " → "@
                + decimal(*value as nat) + " (Δ"@ + signed_decimal(*delta as int) + ")"@,
            InputEvent::PadHit { pad_number, velocity, pressure } => "Pad "@ + decimal(
                (*pad_number + 1) as nat,
            ) + " ("@ + Self::pad_position(*pad_number) + ") - velocity:"@ + decimal(
                *velocity as nat,
            ) + " pressure:"@ + decimal(*pressure as nat),
        }
    }

    /// A human-readable description of this event. Pads are numbered from 1.
    pub fn description(&self) -> (text: String)
        ensures
            text@ == self.spec_description(),
    {
        match self {
            InputEvent::ButtonPressed(element) => {
                let mut text = String::from_str(element.name());
                text.append(" pressed");
                text
            },
            InputEvent::ButtonReleased(element) => {
                let mut text = String::from_str(element.name());
                text.append(" released");
                text
            },
            InputEvent::ButtonHeld(element) => {
                let mut text = String::from_str(element.name());
                text.append(" held");
                text
            },
            InputEvent::KnobChanged { element, value, delta } => {
                let mut text = String::from_str(element.name());
                text.append(" → ");
                append_decimal(&mut text, *value as u64);
                text.append(" (Δ");
                append_signed_decimal(&mut text, *delta);
                text.append(")");
                text
            },
            InputEvent::AudioChanged { element, value, delta } => {
                let mut text = String::from_str(element.name());
                text.append(" → ");
                append_decimal(&mut text, *value as u64);
                text.append(" (Δ");
                append_signed_decimal(&mut text, *delta);
                text.append(")");
                text
            },
            InputEvent::PadHit { pad_number, velocity, pressure } => {
                let mut text = String::from_str("Pad ");
                append_decimal(&mut text, *pad_number as u64 + 1);
                text.append(" (");
                text.append(Self::get_pad_position(*pad_number));
                text.append(") - velocity:");
                append_decimal(&mut text, *velocity as u64);
                text.append(" pressure:");
                append_decimal(&mut text, *pressure as u64);
                text
            },
        }
    }
}

} // verus!