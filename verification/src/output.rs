//! LED colour model and LED state packets.

use vstd::prelude::*;

verus! {

/// LED brightness level (0 to 127 for most LEDs).
pub type LedBrightness = u8;

/// RGB colour for RGB LEDs.
#[derive(Debug, Clone, Copy, PartialEq, Eq)]
pub struct RgbColor {
    pub r: u8,
    pub g: u8,
    pub b: u8,
}

impl RgbColor {
    pub fn new(r: u8, g: u8, b: u8) -> (c: Self)
        ensures
            c == (RgbColor { r, g, b }),
    {
        Self { r, g, b }
    }

    pub fn black() -> (c: Self)
        ensures
            c == (RgbColor { r: 0, g: 0, b: 0 }),
    {
        Self::new(0, 0, 0)
    }

    pub fn white() -> (c: Self)
        ensures
            c == (RgbColor { r: 255, g: 255, b: 255 }),
    {
        Self::new(255, 255, 255)
    }

    pub fn red() -> (c: Self)
        ensures
            c == (RgbColor { r: 255, g: 0, b: 0 }),
    {
        Self::new(255, 0, 0)
    }

    pub fn green() -> (c: Self)
        ensures
            c == (RgbColor { r: 0, g: 255, b: 0 }),
    {
        Self::new(0, 255, 0)
    }

    pub fn blue() -> (c: Self)
        ensures
            c == (RgbColor { r: 0, g: 0, b: 255 }),
    {
        Self::new(0, 0, 255)
    }
}

impl Default for RgbColor {
    fn default() -> (c: Self)
        ensures
            c == (RgbColor { r: 0, g: 0, b: 0 }),
    {
        RgbColor { r: 0, g: 0, b: 0 }
    }
}

/// Number of palette entries.
pub const PALETTE_SIZE: u8 = 17;

/// Highest palette index.
pub const MAX_PALETTE_INDEX: u8 = 16;

/// Highest byte that a colour encodes to.
pub const MAX_LED_VALUE: u8 = 74;

/// The RGB value of palette entry `i`.
pub open spec fn palette(i: int) -> (u8, u8, u8) {
    if i == 0 {
        (255, 0, 0)  // Red
    } else if i == 1 {
        (255, 165, 0)  // Orange
    } else if i == 2 {
        (255, 200, 0)  // Orange-yellow
    } else if i == 3 {
        (255, 255, 0)  // Yellow
    } else if i == 4 {
        (128, 255, 0)  // Yellow-green
    } else if i == 5 {
        (0, 255, 0)  // Green
    } else if i == 6 {
        (0, 255, 128)  // Cyan-green
    } else if i == 7 {
        (0, 255, 255)  // Cyan
    } else if i == 8 {
        (0, 128, 255)  // Light blue
    } else if i == 9 {
        (0, 0, 255)  // Blue
    } else if i == 10 {
        (128, 0, 255)  // Purple
    } else if i == 11 {
        (255, 0, 255)  // Magenta
    } else if i == 12 {
        (255, 0, 128)  // Pink
    } else if i == 13 {
        (255, 128, 255)  // Hot pink
    } else if i == 14 {
        (64, 0, 128)  // Dark purple
    } else if i == 15 {
        (128, 128, 128)  // Gray
    } else {
        (255, 255, 255)  // White
    }
}

/// The RGB value of palette entry `i`.
fn palette_entry(i: u8) -> (p: (u8, u8, u8))
    requires
        i < PALETTE_SIZE,
    ensures
        p == palette(i as int),
{
    match i {
        0 => (255, 0, 0),
        1 => (255, 165, 0),
        2 => (255, 200, 0),
        3 => (255, 255, 0),
        4 => (128, 255, 0),
        5 => (0, 255, 0),
        6 => (0, 255, 128),
        7 => (0, 255, 255),
        8 => (0, 128, 255),
        9 => (0, 0, 255),
        10 => (128, 0, 255),
        11 => (255, 0, 255),
        12 => (255, 0, 128),
        13 => (255, 128, 255),
        14 => (64, 0, 128),
        15 => (128, 128, 128),
        _ => (255, 255, 255),
    }
}

/// Squared Euclidean distance between two RGB triples. Squared distances
/// order colours exactly as their distances do.
pub open spec fn distance_squared(a: (u8, u8, u8), b: (u8, u8, u8)) -> int {
    (a.0 - b.0) * (a.0 - b.0) + (a.1 - b.1) * (a.1 - b.1) + (a.2 - b.2) * (a.2 - b.2)
}

/// Whether palette entry `i` is the nearest to `rgb`: no entry is closer, and
/// every entry before it is farther away.
pub open spec fn is_nearest(rgb: (u8, u8, u8), i: int) -> bool {
    &&& 0 <= i < PALETTE_SIZE
    &&& forall|j: int|
        0 <= j < PALETTE_SIZE ==> distance_squared(rgb, palette(i)) <= distance_squared(
            rgb,
            #[trigger] palette(j),
        )
    &&& forall|j: int|
        0 <= j < i ==> distance_squared(rgb, palette(i)) < distance_squared(
            rgb,
            #[trigger] palette(j),
        )
}

/// The largest of the three components.
pub open spec fn max_component(rgb: (u8, u8, u8)) -> u8 {
    if rgb.0 >= rgb.1 && rgb.0 >= rgb.2 {
        rgb.0
    } else if rgb.1 >= rgb.2 {
        rgb.1
    } else {
        rgb.2
    }
}

/// The LED byte that the controller expects for a palette index and a
/// brightness flag.
///
/// Index 0 at low brightness is "off" and encodes as 0. Every other pair goes
/// through the vendor's mapping, which jumps by four above 66.
pub open spec fn led_value(index: u8, bright: bool) -> int {
    if index == 0 && !bright {
        0
    } else {
        let base = ((index as int % 17) + 1) * 2;
        let adjusted = if bright {
            base
        } else {
            base - 1
        };
        let result = adjusted * 2 + 2;
        if result > 66 {
            result + 4
        } else {
            result
        }
    }
}

/// A colour of the controller's 17-entry palette, at one of two brightness
/// levels. This is the only form in which the device takes a colour for an
/// LED.
#[derive(Debug, Clone, Copy, PartialEq, Eq, Structural)]
pub struct MaschineLEDColor {
    /// Palette index, 0 to 16.
    pub index: u8,
    /// `true` for bright, `false` for dim.
    pub bright: bool,
}

impl MaschineLEDColor {
    /// The colour that switches an LED off.
    pub open spec fn off() -> MaschineLEDColor {
        MaschineLEDColor { index: 0, bright: false }
    }

    /// Whether this colour is what `rgb` maps to: black maps to off; any
    /// other triple maps to the nearest palette entry, bright exactly when
    /// its largest component exceeds 127.
    pub open spec fn represents(&self, rgb: (u8, u8, u8)) -> bool {
        if rgb == (0u8, 0u8, 0u8) {
            *self == Self::off()
        } else {
            is_nearest(rgb, self.index as int) && self.bright == (max_component(rgb) > 127)
        }
    }

    /// The RGB value shown for this colour: black for off, the palette entry
    /// for a bright colour, and the palette entry at half strength for a dim
    /// one.
    pub open spec fn spec_to_rgb(&self) -> (u8, u8, u8) {
        if self.index == 0 && !self.bright {
            (0, 0, 0)
        } else {
            let p = palette(self.index as int % 17);
            if self.bright {
                p
            } else {
                (p.0 / 2, p.1 / 2, p.2 / 2)
            }
        }
    }

    /// The colour that `rgb` maps to.
    pub open spec fn spec_from_rgb(rgb: (u8, u8, u8)) -> MaschineLEDColor {
        choose|c: MaschineLEDColor| c.represents(rgb)
    }

    pub fn from_rgb_color(color: RgbColor) -> (c: Self)
        ensures
            c == Self::spec_from_rgb((color.r, color.g, color.b)),
            c.represents((color.r, color.g, color.b)),
            c.index <= MAX_PALETTE_INDEX,
    {
        Self::from_rgb(color.r, color.g, color.b)
    }

    /// Maps an RGB triple to the nearest palette colour and derives the
    /// brightness from the largest component.
    pub fn from_rgb(r: u8, g: u8, b: u8) -> (c: Self)
        ensures
            c == Self::spec_from_rgb((r, g, b)),
            c.represents((r, g, b)),
            c.index <= MAX_PALETTE_INDEX,
    {
        // Handle black/off case
        if r == 0 && g == 0 && b == 0 {
            let off = MaschineLEDColor { index: 0, bright: false };
            proof {
                assert(off.represents((r, g, b)));
                lemma_represents_is_functional((r, g, b), off, Self::spec_from_rgb((r, g, b)));
            }
            return off;
        }
        // Find the closest color in the palette
        let mut best_distance: u32 = square_distance(r, g, b, palette_entry(0));
        let mut best_index: u8 = 0;
        let mut index: u8 = 1;
        while index < PALETTE_SIZE
            invariant
                1 <= index <= PALETTE_SIZE,
                best_index < index,
                best_distance == distance_squared((r, g, b), palette(best_index as int)),
                forall|j: int|
                    0 <= j < index ==> best_distance <= distance_squared(
                        (r, g, b),
                        #[trigger] palette(j),
                    ),
                forall|j: int|
                    0 <= j < best_index ==> best_distance < distance_squared(
                        (r, g, b),
                        #[trigger] palette(j),
                    ),
            decreases PALETTE_SIZE - index,
        {
            let distance = square_distance(r, g, b, palette_entry(index));
            if distance < best_distance {
                best_distance = distance;
                best_index = index;
            }
            index = index + 1;
        }
        // Brightness follows the largest component, so that pure colours are
        // bright.
        let mut max_value: u8 = r;
        if g > max_value {
            max_value = g;
        }
        if b > max_value {
            max_value = b;
        }
        let nearest = MaschineLEDColor { index: best_index, bright: max_value > 127 };
        proof {
            assert(nearest.represents((r, g, b)));
            lemma_represents_is_functional((r, g, b), nearest, Self::spec_from_rgb((r, g, b)));
        }
        nearest
    }

    /// A palette colour with the index clamped to the palette's range.
    pub fn new(index: u8, bright: bool) -> (c: Self)
        ensures
            c.index == (if index <= MAX_PALETTE_INDEX {
                index
            } else {
                MAX_PALETTE_INDEX
            }),
            c.bright == bright,
    {
        MaschineLEDColor {
            index: if index <= MAX_PALETTE_INDEX {
                index
            } else {
                MAX_PALETTE_INDEX
            },
            bright,
        }
    }

    /// The byte written to an LED packet for this colour.
    pub fn to_led_value(&self) -> (v: u8)
        ensures
            v == led_value(self.index, self.bright),
            v <= MAX_LED_VALUE,
            v == 0 <==> *self == Self::off(),
    {
        // Special case: black/off
        if self.index == 0 && !self.bright {
            return 0;
        }
        let mut basecolor: u8 = (self.index % 17) + 1;
        basecolor = basecolor * 2;
        let adjusted: u8 = basecolor - if !self.bright {
            1
        } else {
            0
        };
        let mut result: u8 = adjusted * 2 + 2;
        if result > 66 {
            result = result + 4;
        }
        result
    }

    pub fn red(bright: bool) -> (c: Self)
        ensures
            c == (MaschineLEDColor { index: 0, bright }),
    {
        Self::new(0, bright)
    }

    pub fn orange(bright: bool) -> (c: Self)
        ensures
            c == (MaschineLEDColor { index: 1, bright }),
    {
        Self::new(1, bright)
    }

    pub fn yellow(bright: bool) -> (c: Self)
        ensures
            c == (MaschineLEDColor { index: 3, bright }),
    {
        Self::new(3, bright)
    }

    pub fn green(bright: bool) -> (c: Self)
        ensures
            c == (MaschineLEDColor { index: 5, bright }),
    {
        Self::new(5, bright)
    }

    pub fn cyan(bright: bool) -> (c: Self)
        ensures
            c == (MaschineLEDColor { index: 7, bright }),
    {
        Self::new(7, bright)
    }

    pub fn blue(bright: bool) -> (c: Self)
        ensures
            c == (MaschineLEDColor { index: 9, bright }),
    {
        Self::new(9, bright)
    }

    pub fn purple(bright: bool) -> (c: Self)
        ensures
            c == (MaschineLEDColor { index: 10, bright }),
    {
        Self::new(10, bright)
    }

    pub fn magenta(bright: bool) -> (c: Self)
        ensures
            c == (MaschineLEDColor { index: 11, bright }),
    {
        Self::new(11, bright)
    }

    pub fn pink(bright: bool) -> (c: Self)
        ensures
            c == (MaschineLEDColor { index: 12, bright }),
    {
        Self::new(12, bright)
    }

    pub fn white(bright: bool) -> (c: Self)
        ensures
            c == (MaschineLEDColor { index: 16, bright }),
    {
        Self::new(16, bright)
    }

    pub fn black() -> (c: Self)
        ensures
            c == Self::off(),
    {
        Self::new(0, false)
    }

    /// A grey level: off for 0, otherwise white, bright above 127.
    pub fn from_brightness(brightness: u8) -> (c: Self)
        ensures
            c == Self::spec_from_brightness(brightness),
    {
        if brightness == 0 {
            Self::black()
        } else {
            // Use white with brightness control
            Self::new(16, brightness > 127)
        }
    }

    /// A grey level: off for 0, otherwise white, bright above 127.
    pub open spec fn spec_from_brightness(brightness: u8) -> MaschineLEDColor {
        if brightness == 0 {
            Self::off()
        } else {
            MaschineLEDColor { index: 16, bright: brightness > 127 }
        }
    }

    /// The RGB value shown for this colour, for previews.
    pub fn to_rgb(&self) -> (rgb: (u8, u8, u8))
        ensures
            rgb == self.spec_to_rgb(),
    {
        // Special case: black/off
        if self.index == 0 && !self.bright {
            return (0, 0, 0);
        }
        let (r, g, b) = palette_entry(self.index % 17);
        if self.bright {
            (r, g, b)
        } else {
            // Dim version: half strength
            (r / 2, g / 2, b / 2)
        }
    }
}

impl Default for MaschineLEDColor {
    fn default() -> (c: Self)
        ensures
            c == MaschineLEDColor::off(),
    {
        MaschineLEDColor { index: 0, bright: false }
    }
}

impl From<RgbColor> for MaschineLEDColor {
    fn from(rgb: RgbColor) -> (c: Self) {
        Self::from_rgb(rgb.r, rgb.g, rgb.b)
    }
}

impl vstd::std_specs::convert::FromSpecImpl<RgbColor> for MaschineLEDColor {
    open spec fn obeys_from_spec() -> bool {
        true
    }

    open spec fn from_spec(rgb: RgbColor) -> Self {
        Self::spec_from_rgb((rgb.r, rgb.g, rgb.b))
    }
}

fn square_distance(r: u8, g: u8, b: u8, p: (u8, u8, u8)) -> (d: u32)
    ensures
        d == distance_squared((r, g, b), p),
        d <= 3 * 255 * 255,
{
    let dr: u32 = if r >= p.0 {
        (r - p.0) as u32
    } else {
        (p.0 - r) as u32
    };
    let dg: u32 = if g >= p.1 {
        (g - p.1) as u32
    } else {
        (p.1 - g) as u32
    };
    let db: u32 = if b >= p.2 {
        (b - p.2) as u32
    } else {
        (p.2 - b) as u32
    };
    assert(dr * dr <= 255 * 255 && dg * dg <= 255 * 255 && db * db <= 255 * 255) by (nonlinear_arith)
        requires
            dr <= 255,
            dg <= 255,
            db <= 255,
    ;
    assert(dr * dr == (r - p.0) * (r - p.0)) by (nonlinear_arith)
        requires
            dr == r - p.0 || dr == p.0 - r,
    ;
    assert(dg * dg == (g - p.1) * (g - p.1)) by (nonlinear_arith)
        requires
            dg == g - p.1 || dg == p.1 - g,
    ;
    assert(db * db == (b - p.2) * (b - p.2)) by (nonlinear_arith)
        requires
            db == b - p.2 || db == p.2 - b,
    ;
    dr * dr + dg * dg + db * db
}

/// The off colour is the only one that encodes as 0, and no colour encodes
/// above 74.
pub proof fn lemma_led_value_range(index: u8, bright: bool)
    ensures
        0 <= led_value(index, bright) <= MAX_LED_VALUE,
        led_value(0, false) == 0,
        led_value(index, bright) == 0 <==> (index == 0 && !bright),
{
}

/// A colour that represents an RGB triple lies in the palette; and for black
/// and for every triple with a component above 127, the RGB value shown for
/// it is as near to the triple as the nearest palette entry.
pub proof fn lemma_nearest_neighbour(rgb: (u8, u8, u8), c: MaschineLEDColor)
    requires
        c.represents(rgb),
    ensures
        c.index <= MAX_PALETTE_INDEX,
        rgb == (0u8, 0u8, 0u8) || max_component(rgb) > 127 ==> forall|j: int|
            0 <= j < PALETTE_SIZE ==> distance_squared(rgb, c.spec_to_rgb()) <= distance_squared(
                rgb,
                #[trigger] palette(j),
            ),
{
    if rgb == (0u8, 0u8, 0u8) {
        assert(c.spec_to_rgb() == (0u8, 0u8, 0u8));
        assert forall|j: int| 0 <= j < PALETTE_SIZE implies distance_squared(rgb, c.spec_to_rgb())
            <= distance_squared(rgb, #[trigger] palette(j)) by {
            lemma_distance_is_not_negative(rgb, palette(j));
        }
    }
}

/// A squared distance is not negative.
pub proof fn lemma_distance_is_not_negative(a: (u8, u8, u8), b: (u8, u8, u8))
    ensures
        distance_squared(a, b) >= 0,
{
    let x = a.0 - b.0;
    let y = a.1 - b.1;
    let z = a.2 - b.2;
    assert(x * x >= 0 && y * y >= 0 && z * z >= 0) by (nonlinear_arith);
}

/// Exactly one colour represents each RGB triple.
pub proof fn lemma_represents_is_functional(rgb: (u8, u8, u8), a: MaschineLEDColor, b: MaschineLEDColor)
    requires
        a.represents(rgb),
        b.represents(rgb),
    ensures
        a == b,
{
    if rgb != (0u8, 0u8, 0u8) {
        let i = a.index as int;
        let j = b.index as int;
        assert(palette(i) == palette(i) && palette(j) == palette(j));
        if i < j {
            assert(distance_squared(rgb, palette(j)) < distance_squared(rgb, palette(i)));
            assert(distance_squared(rgb, palette(i)) <= distance_squared(rgb, palette(j)));
        } else if j < i {
            assert(distance_squared(rgb, palette(i)) < distance_squared(rgb, palette(j)));
            assert(distance_squared(rgb, palette(j)) <= distance_squared(rgb, palette(i)));
        }
    }
}

/// Type tag of a button LED packet.
pub const BUTTON_LED_PACKET_TAG: u8 = 0x80;

/// Length of a button LED packet.
pub const BUTTON_LED_PACKET_LEN: usize = 63;

/// Type tag of a pad LED packet.
pub const PAD_LED_PACKET_TAG: u8 = 0x81;

/// Length of a pad LED packet.
pub const PAD_LED_PACKET_LEN: usize = 42;

/// Number of touch strip LEDs.
pub const TOUCH_STRIP_LED_COUNT: usize = 25;

/// Number of pad LEDs.
pub const PAD_LED_COUNT: usize = 16;

/// State of all button LEDs: a brightness for each single-colour LED and a
/// palette colour for each RGB LED.
#[derive(Debug, Clone, Copy, PartialEq, Eq)]
pub struct ButtonLedState {
    // Single-color LEDs
    pub channel_midi: LedBrightness,
    pub plugin_instance: LedBrightness,
    pub arranger: LedBrightness,
    pub mixer: LedBrightness,
    pub sampler: LedBrightness,
    pub arrow_left: LedBrightness,
    pub arrow_right: LedBrightness,
    pub file_save: LedBrightness,
    pub settings: LedBrightness,
    pub auto: LedBrightness,
    pub macro_set: LedBrightness,
    pub display_button_1: LedBrightness,
    pub display_button_2: LedBrightness,
    pub display_button_3: LedBrightness,
    pub display_button_4: LedBrightness,
    pub display_button_5: LedBrightness,
    pub display_button_6: LedBrightness,
    pub display_button_7: LedBrightness,
    pub display_button_8: LedBrightness,
    pub volume: LedBrightness,
    pub swing: LedBrightness,
    pub note_repeat: LedBrightness,
    pub tempo: LedBrightness,
    pub lock: LedBrightness,
    pub pitch: LedBrightness,
    pub mod_: LedBrightness,
    pub perform: LedBrightness,
    pub notes: LedBrightness,
    pub restart: LedBrightness,
    pub erase: LedBrightness,
    pub tap: LedBrightness,
    pub follow: LedBrightness,
    pub play: LedBrightness,
    pub rec: LedBrightness,
    pub stop: LedBrightness,
    pub shift: LedBrightness,
    pub fixed_vel: LedBrightness,
    pub pad_mode: LedBrightness,
    pub keyboard: LedBrightness,
    pub chords: LedBrightness,
    pub step: LedBrightness,
    pub scene: LedBrightness,
    pub pattern: LedBrightness,
    pub events: LedBrightness,
    pub variation: LedBrightness,
    pub duplicate: LedBrightness,
    pub select: LedBrightness,
    pub solo: LedBrightness,
    pub mute: LedBrightness,

    // RGB LEDs
    pub browser_plugin: MaschineLEDColor,
    pub group_a: MaschineLEDColor,
    pub group_b: MaschineLEDColor,
    pub group_c: MaschineLEDColor,
    pub group_d: MaschineLEDColor,
    pub group_e: MaschineLEDColor,
    pub group_f: MaschineLEDColor,
    pub group_g: MaschineLEDColor,
    pub group_h: MaschineLEDColor,
    pub nav_up: MaschineLEDColor,
    pub nav_left: MaschineLEDColor,
    pub nav_right: MaschineLEDColor,
    pub nav_down: MaschineLEDColor,
}

/// State of the pad and touch strip LEDs.
#[derive(Debug, Clone, Copy, PartialEq, Eq)]
pub struct PadLedState {
    /// The 25 RGB LEDs of the touch strip.
    pub touch_strip_leds: [MaschineLEDColor; 25],
    /// The 16 RGB pad LEDs.
    pub pad_leds: [MaschineLEDColor; 16],
}

impl ButtonLedState {
    /// The state with every LED off.
    pub open spec fn spec_default() -> ButtonLedState {
        ButtonLedState {
            channel_midi: 0,
            plugin_instance: 0,
            arranger: 0,
            mixer: 0,
            sampler: 0,
            arrow_left: 0,
            arrow_right: 0,
            file_save: 0,
            settings: 0,
            auto: 0,
            macro_set: 0,
            display_button_1: 0,
            display_button_2: 0,
            display_button_3: 0,
            display_button_4: 0,
            display_button_5: 0,
            display_button_6: 0,
            display_button_7: 0,
            display_button_8: 0,
            volume: 0,
            swing: 0,
            note_repeat: 0,
            tempo: 0,
            lock: 0,
            pitch: 0,
            mod_: 0,
            perform: 0,
            notes: 0,
            restart: 0,
            erase: 0,
            tap: 0,
            follow: 0,
            play: 0,
            rec: 0,
            stop: 0,
            shift: 0,
            fixed_vel: 0,
            pad_mode: 0,
            keyboard: 0,
            chords: 0,
            step: 0,
            scene: 0,
            pattern: 0,
            events: 0,
            variation: 0,
            duplicate: 0,
            select: 0,
            solo: 0,
            mute: 0,
            browser_plugin: MaschineLEDColor::off(),
            group_a: MaschineLEDColor::off(),
            group_b: MaschineLEDColor::off(),
            group_c: MaschineLEDColor::off(),
            group_d: MaschineLEDColor::off(),
            group_e: MaschineLEDColor::off(),
            group_f: MaschineLEDColor::off(),
            group_g: MaschineLEDColor::off(),
            group_h: MaschineLEDColor::off(),
            nav_up: MaschineLEDColor::off(),
            nav_left: MaschineLEDColor::off(),
            nav_right: MaschineLEDColor::off(),
            nav_down: MaschineLEDColor::off(),
        }
    }

    /// The byte at `offset` of the button LED packet: the type tag at 0, then
    /// one byte per LED at its fixed offset. An RGB LED's byte is the encoding
    /// of its colour.
    pub open spec fn packet_byte(&self, offset: int) -> u8 {
        if offset == 0 {
            BUTTON_LED_PACKET_TAG
        } else if offset == 1 {
            self.channel_midi
        } else if offset == 2 {
            self.plugin_instance
        } else if offset == 3 {
            self.arranger
        } else if offset == 4 {
            self.mixer
        } else if offset == 5 {
            led_value(self.browser_plugin.index, self.browser_plugin.bright) as u8
        } else if offset == 6 {
            self.sampler
        } else if offset == 7 {
            self.arrow_left
        } else if offset == 8 {
            self.arrow_right
        } else if offset == 9 {
            self.file_save
        } else if offset == 10 {
            self.settings
        } else if offset == 11 {
            self.auto
        } else if offset == 12 {
            self.macro_set
        } else if offset == 13 {
            self.display_button_1
        } else if offset == 14 {
            self.display_button_2
        } else if offset == 15 {
            self.display_button_3
        } else if offset == 16 {
            self.display_button_4
        } else if offset == 17 {
            self.display_button_5
        } else if offset == 18 {
            self.display_button_6
        } else if offset == 19 {
            self.display_button_7
        } else if offset == 20 {
            self.display_button_8
        } else if offset == 21 {
            self.volume
        } else if offset == 22 {
            self.swing
        } else if offset == 23 {
            self.note_repeat
        } else if offset == 24 {
            self.tempo
        } else if offset == 25 {
            self.lock
        } else if offset == 26 {
            self.pitch
        } else if offset == 27 {
            self.mod_
        } else if offset == 28 {
            self.perform
        } else if offset == 29 {
            self.notes
        } else if offset == 30 {
            led_value(self.group_a.index, self.group_a.bright) as u8
        } else if offset == 31 {
            led_value(self.group_b.index, self.group_b.bright) as u8
        } else if offset == 32 {
            led_value(self.group_c.index, self.group_c.bright) as u8
        } else if offset == 33 {
            led_value(self.group_d.index, self.group_d.bright) as u8
        } else if offset == 34 {
            led_value(self.group_e.index, self.group_e.bright) as u8
        } else if offset == 35 {
            led_value(self.group_f.index, self.group_f.bright) as u8
        } else if offset == 36 {
            led_value(self.group_g.index, self.group_g.bright) as u8
        } else if offset == 37 {
            led_value(self.group_h.index, self.group_h.bright) as u8
        } else if offset == 38 {
            self.restart
        } else if offset == 39 {
            self.erase
        } else if offset == 40 {
            self.tap
        } else if offset == 41 {
            self.follow
        } else if offset == 42 {
            self.play
        } else if offset == 43 {
            self.rec
        } else if offset == 44 {
            self.stop
        } else if offset == 45 {
            self.shift
        } else if offset == 46 {
            self.fixed_vel
        } else if offset == 47 {
            self.pad_mode
        } else if offset == 48 {
            self.keyboard
        } else if offset == 49 {
            self.chords
        } else if offset == 50 {
            self.step
        } else if offset == 51 {
            self.scene
        } else if offset == 52 {
            self.pattern
        } else if offset == 53 {
            self.events
        } else if offset == 54 {
            self.variation
        } else if offset == 55 {
            self.duplicate
        } else if offset == 56 {
            self.select
        } else if offset == 57 {
            self.solo
        } else if offset == 58 {
            self.mute
        } else if offset == 59 {
            led_value(self.nav_up.index, self.nav_up.bright) as u8
        } else if offset == 60 {
            led_value(self.nav_left.index, self.nav_left.bright) as u8
        } else if offset == 61 {
            led_value(self.nav_right.index, self.nav_right.bright) as u8
        } else {
            led_value(self.nav_down.index, self.nav_down.bright) as u8
        }
    }

    /// The button LED packet for this state.
    pub open spec fn packet(&self) -> Seq<u8> {
        Seq::new(BUTTON_LED_PACKET_LEN as nat, |offset: int| self.packet_byte(offset))
    }

    /// Encodes this state as a button LED packet.
    pub fn to_packet(&self) -> (packet: Vec<u8>)
        ensures
            packet@ == self.packet(),
            packet@.len() == BUTTON_LED_PACKET_LEN,
            packet@[0] == BUTTON_LED_PACKET_TAG,
    {
        let mut packet: Vec<u8> = Vec::with_capacity(BUTTON_LED_PACKET_LEN);
        packet.push(BUTTON_LED_PACKET_TAG);

        // Single-colour LEDs, in wire order
        packet.push(self.channel_midi);
        packet.push(self.plugin_instance);
        packet.push(self.arranger);
        packet.push(self.mixer);
        packet.push(self.browser_plugin.to_led_value());
        packet.push(self.sampler);
        packet.push(self.arrow_left);
        packet.push(self.arrow_right);
        packet.push(self.file_save);
        packet.push(self.settings);
        packet.push(self.auto);
        packet.push(self.macro_set);
        assert(forall|k: int| 0 <= k < packet@.len() ==> packet@[k] == self.packet_byte(k));
        packet.push(self.display_button_1);
        packet.push(self.display_button_2);
        packet.push(self.display_button_3);
        packet.push(self.display_button_4);
        packet.push(self.display_button_5);
        packet.push(self.display_button_6);
        packet.push(self.display_button_7);
        packet.push(self.display_button_8);
        assert(forall|k: int| 0 <= k < packet@.len() ==> packet@[k] == self.packet_byte(k));
        packet.push(self.volume);
        packet.push(self.swing);
        packet.push(self.note_repeat);
        packet.push(self.tempo);
        packet.push(self.lock);
        packet.push(self.pitch);
        packet.push(self.mod_);
        packet.push(self.perform);
        packet.push(self.notes);
        assert(forall|k: int| 0 <= k < packet@.len() ==> packet@[k] == self.packet_byte(k));

        // Group RGB LEDs
        packet.push(self.group_a.to_led_value());
        packet.push(self.group_b.to_led_value());
        packet.push(self.group_c.to_led_value());
        packet.push(self.group_d.to_led_value());
        packet.push(self.group_e.to_led_value());
        packet.push(self.group_f.to_led_value());
        packet.push(self.group_g.to_led_value());
        packet.push(self.group_h.to_led_value());
        assert(forall|k: int| 0 <= k < packet@.len() ==> packet@[k] == self.packet_byte(k));

        // Transport and pad mode LEDs
        packet.push(self.restart);
        packet.push(self.erase);
        packet.push(self.tap);
        packet.push(self.follow);
        packet.push(self.play);
        packet.push(self.rec);
        packet.push(self.stop);
        packet.push(self.shift);
        assert(forall|k: int| 0 <= k < packet@.len() ==> packet@[k] == self.packet_byte(k));
        packet.push(self.fixed_vel);
        packet.push(self.pad_mode);
        packet.push(self.keyboard);
        packet.push(self.chords);
        packet.push(self.step);
        packet.push(self.scene);
        packet.push(self.pattern);
        packet.push(self.events);
        packet.push(self.variation);
        packet.push(self.duplicate);
        packet.push(self.select);
        packet.push(self.solo);
        packet.push(self.mute);
        assert(forall|k: int| 0 <= k < packet@.len() ==> packet@[k] == self.packet_byte(k));

        // Navigation RGB LEDs
        packet.push(self.nav_up.to_led_value());
        packet.push(self.nav_left.to_led_value());
        packet.push(self.nav_right.to_led_value());
        packet.push(self.nav_down.to_led_value());
        assert(forall|k: int| 0 <= k < packet@.len() ==> packet@[k] == self.packet_byte(k));
        packet
    }
}

impl Default for ButtonLedState {
    fn default() -> (s: Self)
        ensures
            s == ButtonLedState::spec_default(),
    {
        ButtonLedState {
            channel_midi: 0,
            plugin_instance: 0,
            arranger: 0,
            mixer: 0,
            sampler: 0,
            arrow_left: 0,
            arrow_right: 0,
            file_save: 0,
            settings: 0,
            auto: 0,
            macro_set: 0,
            display_button_1: 0,
            display_button_2: 0,
            display_button_3: 0,
            display_button_4: 0,
            display_button_5: 0,
            display_button_6: 0,
            display_button_7: 0,
            display_button_8: 0,
            volume: 0,
            swing: 0,
            note_repeat: 0,
            tempo: 0,
            lock: 0,
            pitch: 0,
            mod_: 0,
            perform: 0,
            notes: 0,
            restart: 0,
            erase: 0,
            tap: 0,
            follow: 0,
            play: 0,
            rec: 0,
            stop: 0,
            shift: 0,
            fixed_vel: 0,
            pad_mode: 0,
            keyboard: 0,
            chords: 0,
            step: 0,
            scene: 0,
            pattern: 0,
            events: 0,
            variation: 0,
            duplicate: 0,
            select: 0,
            solo: 0,
            mute: 0,
            browser_plugin: MaschineLEDColor { index: 0, bright: false },
            group_a: MaschineLEDColor { index: 0, bright: false },
            group_b: MaschineLEDColor { index: 0, bright: false },
            group_c: MaschineLEDColor { index: 0, bright: false },
            group_d: MaschineLEDColor { index: 0, bright: false },
            group_e: MaschineLEDColor { index: 0, bright: false },
            group_f: MaschineLEDColor { index: 0, bright: false },
            group_g: MaschineLEDColor { index: 0, bright: false },
            group_h: MaschineLEDColor { index: 0, bright: false },
            nav_up: MaschineLEDColor { index: 0, bright: false },
            nav_left: MaschineLEDColor { index: 0, bright: false },
            nav_right: MaschineLEDColor { index: 0, bright: false },
            nav_down: MaschineLEDColor { index: 0, bright: false },
        }
    }
}

impl PadLedState {
    /// The pad LED packet for this state: the type tag, the 25 touch strip
    /// LEDs in bytes 1 to 25, and the 16 pad LEDs in bytes 26 to 41.
    pub open spec fn packet(&self) -> Seq<u8> {
        Seq::new(
            PAD_LED_PACKET_LEN as nat,
            |k: int|
                if k == 0 {
                    PAD_LED_PACKET_TAG
                } else if k <= 25 {
                    led_value(
                        self.touch_strip_leds@[k - 1].index,
                        self.touch_strip_leds@[k - 1].bright,
                    ) as u8
                } else {
                    led_value(self.pad_leds@[k - 26].index, self.pad_leds@[k - 26].bright) as u8
                },
        )
    }

    /// Whether every LED is off.
    pub open spec fn all_off(&self) -> bool {
        &&& forall|i: int|
            0 <= i < 25 ==> #[trigger] self.touch_strip_leds@[i] == MaschineLEDColor::off()
        &&& forall|i: int| 0 <= i < 16 ==> #[trigger] self.pad_leds@[i] == MaschineLEDColor::off()
    }

    /// Encodes this state as a pad LED packet.
    pub fn to_packet(&self) -> (packet: Vec<u8>)
        ensures
            packet@ == self.packet(),
            packet@.len() == PAD_LED_PACKET_LEN,
            packet@[0] == PAD_LED_PACKET_TAG,
    {
        let mut packet: Vec<u8> = Vec::with_capacity(PAD_LED_PACKET_LEN);
        packet.push(PAD_LED_PACKET_TAG);
        let mut i: usize = 0;
        while i < TOUCH_STRIP_LED_COUNT
            invariant
                i <= TOUCH_STRIP_LED_COUNT,
                packet@.len() == i + 1,
                forall|k: int| 0 <= k < packet@.len() ==> packet@[k] == self.packet()[k],
            decreases TOUCH_STRIP_LED_COUNT - i,
        {
            packet.push(self.touch_strip_leds[i].to_led_value());
            i = i + 1;
        }
        let mut j: usize = 0;
        while j < PAD_LED_COUNT
            invariant
                j <= PAD_LED_COUNT,
                packet@.len() == j + 26,
                forall|k: int| 0 <= k < packet@.len() ==> packet@[k] == self.packet()[k],
            decreases PAD_LED_COUNT - j,
        {
            packet.push(self.pad_leds[j].to_led_value());
            j = j + 1;
        }
        packet
    }
}

impl Default for PadLedState {
    fn default() -> (s: Self)
        ensures
            s.all_off(),
    {
        PadLedState {
            touch_strip_leds: [MaschineLEDColor { index: 0, bright: false };25],
            pad_leds: [MaschineLEDColor { index: 0, bright: false };16],
        }
    }
}

} // verus!
