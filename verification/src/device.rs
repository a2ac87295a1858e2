//! The device facade without its transport: LED state, input tracker and
//! retained display frames. Every operation returns the bytes to write to
//! the device; writing them is the caller's part.

use vstd::prelude::*;
use crate::display::{
    be24, blit_bytes, display_header, end_bytes, lemma_full_screen_bytes, pixel_bytes,
    DisplayPacket, Rgb565, COMMAND_TRANSMIT, DISPLAY_HEIGHT, DISPLAY_WIDTH,
};
use crate::element::InputElement;
use crate::error::{MK3Error, ParameterError, Result};
use crate::event::InputEvent;
use crate::input::{
    decode_button_packet, decode_pad_packet, InputState, PadState, BUTTON_PACKET_LEN,
    BUTTON_PACKET_TAG, MAX_PAD_NUMBER, PAD_PACKET_TAG,
};
use crate::output::{ButtonLedState, MaschineLEDColor, PadLedState, PAD_LED_COUNT};
use crate::region::{
    build_region_packet, convert_rgb888_to_device565, converted, dirty_packet, flipped, frame_error,
    region_error, region_packet, DisplayFramebuffer,
};
use crate::tracker::{pad_events, InputTracker, TrackerState};

verus! {

/// Number of pixels of one display.
pub const DISPLAY_PIXELS: usize = 130560;

/// The two LED packets of a flush, in the order in which they are written.
#[derive(Debug, Clone, PartialEq, Eq)]
pub struct LedPackets {
    /// The button LED packet, written first.
    pub button: Vec<u8>,
    /// The pad LED packet, written second.
    pub pad: Vec<u8>,
}

/// The facade's state as a mathematical value.
pub struct DeviceState {
    pub button_leds: ButtonLedState,
    pub pad_leds: PadLedState,
    /// Whether the LED state holds changes that were not written yet.
    pub leds_dirty: bool,
    pub tracker: TrackerState,
    pub display_available: bool,
    /// Retained frame of the left display.
    pub left_frame: Option<Seq<u8>>,
    /// Retained frame of the right display.
    pub right_frame: Option<Seq<u8>>,
}

/// State of one controller: current LED state, input tracker and retained
/// display frames.
pub struct MaschineMK3 {
    // LED state management
    current_button_leds: ButtonLedState,
    current_pad_leds: PadLedState,
    led_state_dirty: bool,
    // Input monitoring
    input_tracker: InputTracker,
    // Display interface status
    display_interface_available: bool,
    // Retained frames for dirty region detection, left and right display
    left_display: DisplayFramebuffer,
    right_display: DisplayFramebuffer,
}

impl View for MaschineMK3 {
    type V = DeviceState;

    closed spec fn view(&self) -> DeviceState {
        DeviceState {
            button_leds: self.current_button_leds,
            pad_leds: self.current_pad_leds,
            leds_dirty: self.led_state_dirty,
            tracker: self.input_tracker@,
            display_available: self.display_interface_available,
            left_frame: self.left_display@,
            right_frame: self.right_display@,
        }
    }
}

impl ButtonLedState {
    /// This state with the LED of `button` set to `brightness`, or `None`
    /// where `button` has no LED. An RGB LED takes the grey level of that
    /// brightness.
    pub open spec fn with_brightness(self, button: InputElement, brightness: u8) -> Option<
        ButtonLedState,
    > {
        match button {
            InputElement::Play => Some(ButtonLedState { play: brightness, ..self }),
            InputElement::Rec => Some(ButtonLedState { rec: brightness, ..self }),
            InputElement::Stop => Some(ButtonLedState { stop: brightness, ..self }),
            InputElement::Restart => Some(ButtonLedState { restart: brightness, ..self }),
            InputElement::Erase => Some(ButtonLedState { erase: brightness, ..self }),
            InputElement::Tap => Some(ButtonLedState { tap: brightness, ..self }),
            InputElement::Follow => Some(ButtonLedState { follow: brightness, ..self }),
            InputElement::ChannelMidi => Some(ButtonLedState { channel_midi: brightness, ..self }),
            InputElement::Arranger => Some(ButtonLedState { arranger: brightness, ..self }),
            InputElement::ArrowLeft => Some(ButtonLedState { arrow_left: brightness, ..self }),
            InputElement::ArrowRight => Some(ButtonLedState { arrow_right: brightness, ..self }),
            InputElement::FileSave => Some(ButtonLedState { file_save: brightness, ..self }),
            InputElement::Settings => Some(ButtonLedState { settings: brightness, ..self }),
            InputElement::Macro => Some(ButtonLedState { macro_set: brightness, ..self }),
            InputElement::Auto => Some(ButtonLedState { auto: brightness, ..self }),
            InputElement::Plugin => Some(ButtonLedState { plugin_instance: brightness, ..self }),
            InputElement::Mixer => Some(ButtonLedState { mixer: brightness, ..self }),
            InputElement::Sampling => Some(ButtonLedState { sampler: brightness, ..self }),
            InputElement::Volume => Some(ButtonLedState { volume: brightness, ..self }),
            InputElement::Swing => Some(ButtonLedState { swing: brightness, ..self }),
            InputElement::NoteRepeat => Some(ButtonLedState { note_repeat: brightness, ..self }),
            InputElement::Tempo => Some(ButtonLedState { tempo: brightness, ..self }),
            InputElement::Lock => Some(ButtonLedState { lock: brightness, ..self }),
            InputElement::Pitch => Some(ButtonLedState { pitch: brightness, ..self }),
            InputElement::Mod => Some(ButtonLedState { mod_: brightness, ..self }),
            InputElement::Perform => Some(ButtonLedState { perform: brightness, ..self }),
            InputElement::Notes => Some(ButtonLedState { notes: brightness, ..self }),
            InputElement::Shift => Some(ButtonLedState { shift: brightness, ..self }),
            InputElement::FixedVel => Some(ButtonLedState { fixed_vel: brightness, ..self }),
            InputElement::PadMode => Some(ButtonLedState { pad_mode: brightness, ..self }),
            InputElement::Keyboard => Some(ButtonLedState { keyboard: brightness, ..self }),
            InputElement::Chords => Some(ButtonLedState { chords: brightness, ..self }),
            InputElement::Step => Some(ButtonLedState { step: brightness, ..self }),
            InputElement::Scene => Some(ButtonLedState { scene: brightness, ..self }),
            InputElement::Pattern => Some(ButtonLedState { pattern: brightness, ..self }),
            InputElement::Events => Some(ButtonLedState { events: brightness, ..self }),
            InputElement::Variation => Some(ButtonLedState { variation: brightness, ..self }),
            InputElement::Duplicate => Some(ButtonLedState { duplicate: brightness, ..self }),
            InputElement::Select => Some(ButtonLedState { select: brightness, ..self }),
            InputElement::Solo => Some(ButtonLedState { solo: brightness, ..self }),
            InputElement::Mute => Some(ButtonLedState { mute: brightness, ..self }),
            InputElement::DisplayButton1 => Some(ButtonLedState { display_button_1: brightness, ..self }),
            InputElement::DisplayButton2 => Some(ButtonLedState { display_button_2: brightness, ..self }),
            InputElement::DisplayButton3 => Some(ButtonLedState { display_button_3: brightness, ..self }),
            InputElement::DisplayButton4 => Some(ButtonLedState { display_button_4: brightness, ..self }),
            InputElement::DisplayButton5 => Some(ButtonLedState { display_button_5: brightness, ..self }),
            InputElement::DisplayButton6 => Some(ButtonLedState { display_button_6: brightness, ..self }),
            InputElement::DisplayButton7 => Some(ButtonLedState { display_button_7: brightness, ..self }),
            InputElement::DisplayButton8 => Some(ButtonLedState { display_button_8: brightness, ..self }),
            InputElement::GroupA => Some(
                ButtonLedState {
                    group_a: MaschineLEDColor::spec_from_brightness(brightness),
                    ..self
                },
            ),
            InputElement::GroupB => Some(
                ButtonLedState {
                    group_b: MaschineLEDColor::spec_from_brightness(brightness),
                    ..self
                },
            ),
            InputElement::GroupC => Some(
                ButtonLedState {
                    group_c: MaschineLEDColor::spec_from_brightness(brightness),
                    ..self
                },
            ),
            InputElement::GroupD => Some(
                ButtonLedState {
                    group_d: MaschineLEDColor::spec_from_brightness(brightness),
                    ..self
                },
            ),
            InputElement::GroupE => Some(
                ButtonLedState {
                    group_e: MaschineLEDColor::spec_from_brightness(brightness),
                    ..self
                },
            ),
            InputElement::GroupF => Some(
                ButtonLedState {
                    group_f: MaschineLEDColor::spec_from_brightness(brightness),
                    ..self
                },
            ),
            InputElement::GroupG => Some(
                ButtonLedState {
                    group_g: MaschineLEDColor::spec_from_brightness(brightness),
                    ..self
                },
            ),
            InputElement::GroupH => Some(
                ButtonLedState {
                    group_h: MaschineLEDColor::spec_from_brightness(brightness),
                    ..self
                },
            ),
            InputElement::BrowserPlugin => Some(
                ButtonLedState {
                    browser_plugin: MaschineLEDColor::spec_from_brightness(brightness),
                    ..self
                },
            ),
            InputElement::EncoderUp => Some(
                ButtonLedState {
                    nav_up: MaschineLEDColor::spec_from_brightness(brightness),
                    ..self
                },
            ),
            InputElement::EncoderLeft => Some(
                ButtonLedState {
                    nav_left: MaschineLEDColor::spec_from_brightness(brightness),
                    ..self
                },
            ),
            InputElement::EncoderRight => Some(
                ButtonLedState {
                    nav_right: MaschineLEDColor::spec_from_brightness(brightness),
                    ..self
                },
            ),
            InputElement::EncoderDown => Some(
                ButtonLedState {
                    nav_down: MaschineLEDColor::spec_from_brightness(brightness),
                    ..self
                },
            ),
            _ => None,
        }
    }

    /// This state with the RGB LED of `button` set to `color`, or `None`
    /// where `button` has no RGB LED.
    pub open spec fn with_color(self, button: InputElement, color: MaschineLEDColor) -> Option<
        ButtonLedState,
    > {
        match button {
            InputElement::GroupA => Some(ButtonLedState { group_a: color, ..self }),
            InputElement::GroupB => Some(ButtonLedState { group_b: color, ..self }),
            InputElement::GroupC => Some(ButtonLedState { group_c: color, ..self }),
            InputElement::GroupD => Some(ButtonLedState { group_d: color, ..self }),
            InputElement::GroupE => Some(ButtonLedState { group_e: color, ..self }),
            InputElement::GroupF => Some(ButtonLedState { group_f: color, ..self }),
            InputElement::GroupG => Some(ButtonLedState { group_g: color, ..self }),
            InputElement::GroupH => Some(ButtonLedState { group_h: color, ..self }),
            InputElement::BrowserPlugin => Some(ButtonLedState { browser_plugin: color, ..self }),
            InputElement::EncoderUp => Some(ButtonLedState { nav_up: color, ..self }),
            InputElement::EncoderLeft => Some(ButtonLedState { nav_left: color, ..self }),
            InputElement::EncoderRight => Some(ButtonLedState { nav_right: color, ..self }),
            InputElement::EncoderDown => Some(ButtonLedState { nav_down: color, ..self }),
            _ => None,
        }
    }
}

impl ButtonLedState {
    /// The colour of the RGB LED of `button`, or `None` where `button` has no
    /// RGB LED.
    pub open spec fn color_of(self, button: InputElement) -> Option<MaschineLEDColor> {
        match button {
            InputElement::GroupA => Some(self.group_a),
            InputElement::GroupB => Some(self.group_b),
            InputElement::GroupC => Some(self.group_c),
            InputElement::GroupD => Some(self.group_d),
            InputElement::GroupE => Some(self.group_e),
            InputElement::GroupF => Some(self.group_f),
            InputElement::GroupG => Some(self.group_g),
            InputElement::GroupH => Some(self.group_h),
            InputElement::BrowserPlugin => Some(self.browser_plugin),
            InputElement::EncoderUp => Some(self.nav_up),
            InputElement::EncoderLeft => Some(self.nav_left),
            InputElement::EncoderRight => Some(self.nav_right),
            InputElement::EncoderDown => Some(self.nav_down),
            _ => None,
        }
    }
}

/// Every element that has colour owns exactly one RGB LED: setting its
/// colour is possible exactly for such an element, is read back from that
/// element, and leaves the colour of every other element as it was. Setting
/// a brightness on it is possible too.
pub proof fn lemma_rgb_led_slots(
    leds: ButtonLedState,
    button: InputElement,
    color: MaschineLEDColor,
    other: InputElement,
)
    ensures
        button.spec_has_color() <==> leds.with_color(button, color) is Some,
        button.spec_has_color() <==> leds.color_of(button) is Some,
        button.spec_has_color() ==> leds.with_brightness(button, 0) is Some,
        leds.with_color(button, color) matches Some(after) ==> {
            &&& after.color_of(button) == Some(color)
            &&& other != button ==> after.color_of(other) == leds.color_of(other)
        },
{
}

impl DeviceState {
    /// The two LED packets for the current LED state.
    pub open spec fn led_packets(self) -> (Seq<u8>, Seq<u8>) {
        (self.button_leds.packet(), self.pad_leds.packet())
    }

    /// The retained frame of a display.
    pub open spec fn frame(self, display_id: u8) -> Option<Seq<u8>> {
        if display_id == 0 {
            self.left_frame
        } else {
            self.right_frame
        }
    }
}

/// What an input packet gives rise to: a button/knob packet of at least 42
/// bytes updates the tracker, a pad packet reports its records, and anything
/// else, an empty read included, reports nothing.
pub open spec fn packet_events(tracker: TrackerState, data: Seq<u8>) -> Seq<InputEvent> {
    if data.len() == 0 {
        Seq::empty()
    } else if data[0] == BUTTON_PACKET_TAG && data.len() >= BUTTON_PACKET_LEN {
        tracker.update_events(decode_button_packet(data)->Ok_0)
    } else if data[0] == PAD_PACKET_TAG {
        pad_events(decode_pad_packet(data)->Ok_0)
    } else {
        Seq::empty()
    }
}

/// The tracker's state after an input packet.
pub open spec fn tracker_after_packet(tracker: TrackerState, data: Seq<u8>) -> TrackerState {
    if data.len() > 0 && data[0] == BUTTON_PACKET_TAG && data.len() >= BUTTON_PACKET_LEN {
        tracker.updated(decode_button_packet(data)->Ok_0)
    } else {
        tracker
    }
}

/// The first reason, if any, to reject an RGB888 region update: the length
/// of the data, then what a region update is rejected for.
pub open spec fn rgb888_region_error(
    display_id: u8,
    x: u16,
    y: u16,
    width: u16,
    height: u16,
    data_len: int,
) -> Option<ParameterError> {
    if data_len != width * height * 3 {
        Some(
            ParameterError::Rgb888Length {
                expected: (width * height * 3) as u64,
                actual: data_len as u64,
            },
        )
    } else {
        region_error(display_id, x, y, width, height, width * height * 2)
    }
}

/// Full-screen pixels from RGB888 bytes, three bytes per pixel.
pub open spec fn pixels_of_rgb888(rgb: Seq<u8>) -> Seq<Rgb565> {
    Seq::new(
        rgb.len() / 3,
        |p: int| Rgb565::spec_new(rgb[3 * p], rgb[3 * p + 1], rgb[3 * p + 2]),
    )
}

/// The packet that sends a full screen of pixels: transmit, blit, end.
pub open spec fn full_screen_bytes(display_num: u8, pixels: Seq<Rgb565>) -> Seq<u8> {
    display_header(display_num, 0, 0, DISPLAY_WIDTH, DISPLAY_HEIGHT) + seq![COMMAND_TRANSMIT]
        + be24(pixels.len() as int / 2) + pixel_bytes(pixels) + blit_bytes() + end_bytes()
}

impl MaschineMK3 {
    /// The state of a freshly connected controller: all LEDs off, nothing
    /// tracked, no frame retained.
    pub fn new(display_interface_available: bool) -> (device: Self)
        ensures
            device@.button_leds == ButtonLedState::spec_default(),
            device@.pad_leds.all_off(),
            !device@.leds_dirty,
            device@.tracker.previous is None,
            device@.tracker.held =~= Map::<InputElement, u32>::empty(),
            device@.tracker.frame_count == 0,
            device@.tracker.first_update,
            device@.display_available == display_interface_available,
            device@.left_frame is None,
            device@.right_frame is None,
    {
        Self {
            current_button_leds: ButtonLedState::default(),
            current_pad_leds: PadLedState::default(),
            led_state_dirty: false,
            input_tracker: InputTracker::new(),
            display_interface_available,
            left_display: DisplayFramebuffer::new(),
            right_display: DisplayFramebuffer::new(),
        }
    }

    /// Whether the display interface was claimed.
    pub fn is_display_available(&self) -> (b: bool)
        ensures
            b == self@.display_available,
    {
        self.display_interface_available
    }

    /// Number of updates that the input tracker has seen.
    pub fn frame_count(&self) -> (n: u32)
        ensures
            n == self@.tracker.frame_count,
    {
        self.input_tracker.frame_count()
    }

    /// The packet that writes a full screen of 16-bit pixel data
    /// (480 x 272 x 2 bytes) to a display.
    pub fn write_display_framebuffer(&self, display_id: u8, framebuffer_data: &[u8]) -> (r: Result<
        Vec<u8>,
    >)
        ensures
            match r {
                Ok(packet) => region_error(
                    display_id,
                    0,
                    0,
                    DISPLAY_WIDTH,
                    DISPLAY_HEIGHT,
                    framebuffer_data@.len() as int,
                ) is None && packet@ == region_packet(
                    display_id,
                    0,
                    0,
                    DISPLAY_WIDTH,
                    DISPLAY_HEIGHT,
                    framebuffer_data@,
                ),
                Err(e) => region_error(
                    display_id,
                    0,
                    0,
                    DISPLAY_WIDTH,
                    DISPLAY_HEIGHT,
                    framebuffer_data@.len() as int,
                ) matches Some(reason) && e == MK3Error::InvalidParameter(reason),
            },
    {
        self.write_display_region(display_id, 0, 0, DISPLAY_WIDTH, DISPLAY_HEIGHT, framebuffer_data)
    }

    /// The packet that writes 16-bit pixel data to a region of a display.
    pub fn write_display_region(
        &self,
        display_id: u8,
        x: u16,
        y: u16,
        width: u16,
        height: u16,
        region_data: &[u8],
    ) -> (r: Result<Vec<u8>>)
        ensures
            match r {
                Ok(packet) => region_error(
                    display_id,
                    x,
                    y,
                    width,
                    height,
                    region_data@.len() as int,
                ) is None && packet@ == region_packet(
                    display_id,
                    x,
                    y,
                    width,
                    height,
                    region_data@,
                ),
                Err(e) => region_error(display_id, x, y, width, height, region_data@.len() as int)
                    matches Some(reason) && e == MK3Error::InvalidParameter(reason),
            },
    {
        build_region_packet(display_id, x, y, width, height, region_data)
    }

    /// The packet that writes RGB888 data (three bytes per pixel) to a region
    /// of a display. The rows are sent as given, without a vertical flip.
    pub fn write_display_region_rgb888(
        &self,
        display_id: u8,
        x: u16,
        y: u16,
        width: u16,
        height: u16,
        rgb888_data: &[u8],
    ) -> (r: Result<Vec<u8>>)
        ensures
            match r {
                Ok(packet) => rgb888_region_error(
                    display_id,
                    x,
                    y,
                    width,
                    height,
                    rgb888_data@.len() as int,
                ) is None && packet@ == region_packet(
                    display_id,
                    x,
                    y,
                    width,
                    height,
                    converted(rgb888_data@, width as int, height as int, false),
                ),
                Err(e) => rgb888_region_error(
                    display_id,
                    x,
                    y,
                    width,
                    height,
                    rgb888_data@.len() as int,
                ) matches Some(reason) && e == MK3Error::InvalidParameter(reason),
            },
    {
        self.write_display_region_rgb888_internal(
            display_id,
            x,
            y,
            width,
            height,
            rgb888_data,
            false,
        )
    }

    fn write_display_region_rgb888_internal(
        &self,
        display_id: u8,
        x: u16,
        y: u16,
        width: u16,
        height: u16,
        rgb888_data: &[u8],
        flip_y: bool,
    ) -> (r: Result<Vec<u8>>)
        ensures
            match r {
                Ok(packet) => rgb888_region_error(
                    display_id,
                    x,
                    y,
                    width,
                    height,
                    rgb888_data@.len() as int,
                ) is None && packet@ == region_packet(
                    display_id,
                    x,
                    y,
                    width,
                    height,
                    converted(rgb888_data@, width as int, height as int, flip_y),
                ),
                Err(e) => rgb888_region_error(
                    display_id,
                    x,
                    y,
                    width,
                    height,
                    rgb888_data@.len() as int,
                ) matches Some(reason) && e == MK3Error::InvalidParameter(reason),
            },
    {
        assert(width * height <= 65535 * 65535) by (nonlinear_arith)
            requires
                width <= 65535,
                height <= 65535,
        ;
        let pixel_count: u64 = (width as u64) * (height as u64);
        let expected_rgb888_size: u64 = pixel_count * 3;
        if rgb888_data.len() as u64 != expected_rgb888_size {
            return Err(
                MK3Error::InvalidParameter(
                    ParameterError::Rgb888Length {
                        expected: expected_rgb888_size,
                        actual: rgb888_data.len() as u64,
                    },
                ),
            );
        }
        // Convert to the device's pixel format, then send as a region
        let pixel_data = convert_rgb888_to_device565(
            rgb888_data,
            width as usize,
            height as usize,
            flip_y,
        );
        build_region_packet(display_id, x, y, width, height, pixel_data.as_slice())
    }

    /// The packet that writes a full RGB888 frame (480 x 272 x 3 bytes) to a
    /// display. The frame is flipped vertically: its first row is the bottom
    /// row of the display.
    pub fn write_display_framebuffer_rgb888(&self, display_id: u8, rgb888_data: &[u8]) -> (r:
        Result<Vec<u8>>)
        ensures
            match r {
                Ok(packet) => rgb888_region_error(
                    display_id,
                    0,
                    0,
                    DISPLAY_WIDTH,
                    DISPLAY_HEIGHT,
                    rgb888_data@.len() as int,
                ) is None && packet@ == region_packet(
                    display_id,
                    0,
                    0,
                    DISPLAY_WIDTH,
                    DISPLAY_HEIGHT,
                    converted(rgb888_data@, DISPLAY_WIDTH as int, DISPLAY_HEIGHT as int, true),
                ),
                Err(e) => rgb888_region_error(
                    display_id,
                    0,
                    0,
                    DISPLAY_WIDTH,
                    DISPLAY_HEIGHT,
                    rgb888_data@.len() as int,
                ) matches Some(reason) && e == MK3Error::InvalidParameter(reason),
            },
    {
        // Full frame updates flip the rows
        self.write_display_region_rgb888_internal(
            display_id,
            0,
            0,
            DISPLAY_WIDTH,
            DISPLAY_HEIGHT,
            rgb888_data,
            true,
        )
    }

    /// Takes the next full RGB888 frame for a display and returns the bytes
    /// to send: the whole frame the first time, afterwards only the region
    /// that changed, and nothing where nothing changed.
    pub fn write_display_framebuffer_rgb888_dirty(&mut self, display_id: u8, rgb888_data: &[u8]) -> (r:
        Result<Vec<u8>>)
        ensures
            match r {
                Ok(bytes) => {
                    &&& frame_error(display_id, rgb888_data@.len() as int) is None
                    &&& bytes@ == dirty_packet(old(self)@.frame(display_id), display_id, rgb888_data@)
                    &&& final(self)@.frame(display_id) == Some(flipped(rgb888_data@))
                    &&& final(self)@.frame((1 - display_id) as u8) == old(self)@.frame(
                        (1 - display_id) as u8,
                    )
                },
                Err(e) => {
                    &&& frame_error(display_id, rgb888_data@.len() as int) matches Some(reason)
                    &&& e == MK3Error::InvalidParameter(reason)
                    &&& final(self)@.left_frame == old(self)@.left_frame
                    &&& final(self)@.right_frame == old(self)@.right_frame
                },
            },
            final(self)@.button_leds == old(self)@.button_leds,
            final(self)@.pad_leds == old(self)@.pad_leds,
            final(self)@.leds_dirty == old(self)@.leds_dirty,
            final(self)@.tracker == old(self)@.tracker,
            final(self)@.display_available == old(self)@.display_available,
    {
        if display_id == 0 {
            self.left_display.dirty_rectangle_update(display_id, rgb888_data)
        } else {
            self.right_display.dirty_rectangle_update(display_id, rgb888_data)
        }
    }

    /// The packet that sends a full screen of pixels to a display.
    pub fn send_display_image(&self, display_num: u8, pixels: Vec<Rgb565>) -> (r: Result<Vec<u8>>)
        ensures
            match r {
                Ok(bytes) => pixels@.len() == DISPLAY_PIXELS && bytes@ == full_screen_bytes(
                    display_num,
                    pixels@,
                ),
                Err(e) => pixels@.len() != DISPLAY_PIXELS && e == MK3Error::InvalidParameter(
                    ParameterError::PixelCount {
                        expected: DISPLAY_PIXELS as u64,
                        actual: pixels@.len() as u64,
                    },
                ),
            },
    {
        if pixels.len() != DISPLAY_PIXELS {
            return Err(
                MK3Error::InvalidParameter(
                    ParameterError::PixelCount {
                        expected: DISPLAY_PIXELS as u64,
                        actual: pixels.len() as u64,
                    },
                ),
            );
        }
        let packet = DisplayPacket::full_screen_optimized(display_num, pixels);
        let bytes = packet.to_packet();
        proof {
            lemma_full_screen_bytes(display_num, pixels);
        }
        Ok(bytes)
    }

    /// The packet that sends a full screen of RGB888 data to a display,
    /// converted pixel by pixel to the device's pixel format.
    pub fn send_display_rgb888(&self, display_num: u8, rgb_data: &[u8]) -> (r: Result<Vec<u8>>)
        ensures
            match r {
                Ok(bytes) => rgb_data@.len() == DISPLAY_PIXELS * 3 && bytes@ == full_screen_bytes(
                    display_num,
                    pixels_of_rgb888(rgb_data@),
                ),
                Err(e) => rgb_data@.len() != DISPLAY_PIXELS * 3 && e == MK3Error::InvalidParameter(
                    ParameterError::Rgb888Length {
                        expected: (DISPLAY_PIXELS * 3) as u64,
                        actual: rgb_data@.len() as u64,
                    },
                ),
            },
    {
        if rgb_data.len() != DISPLAY_PIXELS * 3 {
            return Err(
                MK3Error::InvalidParameter(
                    ParameterError::Rgb888Length {
                        expected: (DISPLAY_PIXELS * 3) as u64,
                        actual: rgb_data.len() as u64,
                    },
                ),
            );
        }
        let mut pixels: Vec<Rgb565> = Vec::with_capacity(DISPLAY_PIXELS);
        let mut p: usize = 0;
        while p < DISPLAY_PIXELS
            invariant
                p <= DISPLAY_PIXELS,
                rgb_data@.len() == DISPLAY_PIXELS * 3,
                pixels@.len() == p,
                forall|i: int| 0 <= i < p ==> pixels@[i] == pixels_of_rgb888(rgb_data@)[i],
            decreases DISPLAY_PIXELS - p,
        {
            pixels.push(Rgb565::new(rgb_data[3 * p], rgb_data[3 * p + 1], rgb_data[3 * p + 2]));
            p = p + 1;
        }
        proof {
            assert(pixels@ =~= pixels_of_rgb888(rgb_data@));
        }
        self.send_display_image(display_num, pixels)
    }

    /// The packet that fills a display with one colour.
    pub fn clear_display(&self, display_num: u8, red: u8, green: u8, blue: u8) -> (r: Result<
        Vec<u8>,
    >)
        ensures
            r matches Ok(bytes) && bytes@ == full_screen_bytes(
                display_num,
                Seq::new(DISPLAY_PIXELS as nat, |p: int| Rgb565::spec_new(red, green, blue)),
            ),
    {
        let color = Rgb565::new(red, green, blue);
        let mut pixels: Vec<Rgb565> = Vec::with_capacity(DISPLAY_PIXELS);
        let mut p: usize = 0;
        while p < DISPLAY_PIXELS
            invariant
                p <= DISPLAY_PIXELS,
                pixels@.len() == p,
                forall|i: int| 0 <= i < p ==> pixels@[i] == color,
            decreases DISPLAY_PIXELS - p,
        {
            pixels.push(color);
            p = p + 1;
        }
        proof {
            assert(pixels@ =~= Seq::new(
                DISPLAY_PIXELS as nat,
                |p: int| Rgb565::spec_new(red, green, blue),
            ));
        }
        self.send_display_image(display_num, pixels)
    }

    /// Routes the bytes of one read to the input tracker and returns the
    /// events. An empty read, as after a timeout, yields no events.
    pub fn poll_input_events(&mut self, data: &[u8]) -> (r: Result<Vec<InputEvent>>)
        requires
            old(self)@.tracker.frame_count < u32::MAX,
        ensures
            r matches Ok(events) && events@ == packet_events(old(self)@.tracker, data@),
            final(self)@.tracker.previous == tracker_after_packet(
                old(self)@.tracker,
                data@,
            ).previous,
            final(self)@.tracker.held =~= tracker_after_packet(old(self)@.tracker, data@).held,
            final(self)@.tracker.frame_count == tracker_after_packet(
                old(self)@.tracker,
                data@,
            ).frame_count,
            final(self)@.tracker.first_update == tracker_after_packet(
                old(self)@.tracker,
                data@,
            ).first_update,
            final(self)@.button_leds == old(self)@.button_leds,
            final(self)@.pad_leds == old(self)@.pad_leds,
            final(self)@.leds_dirty == old(self)@.leds_dirty,
            final(self)@.display_available == old(self)@.display_available,
            final(self)@.left_frame == old(self)@.left_frame,
            final(self)@.right_frame == old(self)@.right_frame,
    {
        if data.len() == 0 {
            return Ok(Vec::new());
        }
        Self::process_input_packet(&mut self.input_tracker, data)
    }

    /// Decodes one input packet and feeds it to `tracker`.
    pub fn process_input_packet(tracker: &mut InputTracker, data: &[u8]) -> (r: Result<
        Vec<InputEvent>,
    >)
        requires
            old(tracker)@.frame_count < u32::MAX,
        ensures
            r matches Ok(events) && events@ == packet_events(old(tracker)@, data@),
            final(tracker)@.previous == tracker_after_packet(old(tracker)@, data@).previous,
            final(tracker)@.held =~= tracker_after_packet(old(tracker)@, data@).held,
            final(tracker)@.frame_count == tracker_after_packet(old(tracker)@, data@).frame_count,
            final(tracker)@.first_update == tracker_after_packet(old(tracker)@, data@).first_update,
    {
        if data.len() == 0 {
            return Ok(Vec::new());
        }
        if data[0] == BUTTON_PACKET_TAG && data.len() >= BUTTON_PACKET_LEN {
            match InputState::from_button_packet(data) {
                Ok(input_state) => Ok(tracker.update(input_state)),
                Err(e) => Err(e),
            }
        } else if data[0] == PAD_PACKET_TAG {
            match PadState::from_pad_packet(data) {
                Ok(pad_state) => Ok(tracker.update_pads(pad_state)),
                Err(e) => Err(e),
            }
        } else {
            Ok(Vec::new())
        }
    }

    /// Sets the LED of `button` to `brightness` and returns the LED packets
    /// to write. An RGB LED takes the grey level of that brightness. For an
    /// element without an LED nothing changes and nothing is to be written.
    pub fn set_button_led(&mut self, button: InputElement, brightness: u8) -> (flush: Option<
        LedPackets,
    >)
        ensures
            match old(self)@.button_leds.with_brightness(button, brightness) {
                Some(leds) => {
                    &&& final(self)@.button_leds == leds
                    &&& final(self)@.leds_dirty
                    &&& flush matches Some(packets) && (packets.button@, packets.pad@) == final(self)@.led_packets()
                },
                None => {
                    &&& final(self)@.button_leds == old(self)@.button_leds
                    &&& final(self)@.leds_dirty == old(self)@.leds_dirty
                    &&& flush is None
                },
            },
            final(self)@.pad_leds == old(self)@.pad_leds,
            final(self)@.tracker == old(self)@.tracker,
            final(self)@.display_available == old(self)@.display_available,
            final(self)@.left_frame == old(self)@.left_frame,
            final(self)@.right_frame == old(self)@.right_frame,
    {
        match button {
            InputElement::Play => self.current_button_leds.play = brightness,
            InputElement::Rec => self.current_button_leds.rec = brightness,
            InputElement::Stop => self.current_button_leds.stop = brightness,
            InputElement::Restart => self.current_button_leds.restart = brightness,
            InputElement::Erase => self.current_button_leds.erase = brightness,
            InputElement::Tap => self.current_button_leds.tap = brightness,
            InputElement::Follow => self.current_button_leds.follow = brightness,
            InputElement::ChannelMidi => self.current_button_leds.channel_midi = brightness,
            InputElement::Arranger => self.current_button_leds.arranger = brightness,
            InputElement::ArrowLeft => self.current_button_leds.arrow_left = brightness,
            InputElement::ArrowRight => self.current_button_leds.arrow_right = brightness,
            InputElement::FileSave => self.current_button_leds.file_save = brightness,
            InputElement::Settings => self.current_button_leds.settings = brightness,
            InputElement::Macro => self.current_button_leds.macro_set = brightness,
            InputElement::Auto => self.current_button_leds.auto = brightness,
            InputElement::Plugin => self.current_button_leds.plugin_instance = brightness,
            InputElement::Mixer => self.current_button_leds.mixer = brightness,
            InputElement::Sampling => self.current_button_leds.sampler = brightness,
            InputElement::Volume => self.current_button_leds.volume = brightness,
            InputElement::Swing => self.current_button_leds.swing = brightness,
            InputElement::NoteRepeat => self.current_button_leds.note_repeat = brightness,
            InputElement::Tempo => self.current_button_leds.tempo = brightness,
            InputElement::Lock => self.current_button_leds.lock = brightness,
            InputElement::Pitch => self.current_button_leds.pitch = brightness,
            InputElement::Mod => self.current_button_leds.mod_ = brightness,
            InputElement::Perform => self.current_button_leds.perform = brightness,
            InputElement::Notes => self.current_button_leds.notes = brightness,
            InputElement::Shift => self.current_button_leds.shift = brightness,
            InputElement::FixedVel => self.current_button_leds.fixed_vel = brightness,
            InputElement::PadMode => self.current_button_leds.pad_mode = brightness,
            InputElement::Keyboard => self.current_button_leds.keyboard = brightness,
            InputElement::Chords => self.current_button_leds.chords = brightness,
            InputElement::Step => self.current_button_leds.step = brightness,
            InputElement::Scene => self.current_button_leds.scene = brightness,
            InputElement::Pattern => self.current_button_leds.pattern = brightness,
            InputElement::Events => self.current_button_leds.events = brightness,
            InputElement::Variation => self.current_button_leds.variation = brightness,
            InputElement::Duplicate => self.current_button_leds.duplicate = brightness,
            InputElement::Select => self.current_button_leds.select = brightness,
            InputElement::Solo => self.current_button_leds.solo = brightness,
            InputElement::Mute => self.current_button_leds.mute = brightness,
            InputElement::DisplayButton1 => self.current_button_leds.display_button_1 = brightness,
            InputElement::DisplayButton2 => self.current_button_leds.display_button_2 = brightness,
            InputElement::DisplayButton3 => self.current_button_leds.display_button_3 = brightness,
            InputElement::DisplayButton4 => self.current_button_leds.display_button_4 = brightness,
            InputElement::DisplayButton5 => self.current_button_leds.display_button_5 = brightness,
            InputElement::DisplayButton6 => self.current_button_leds.display_button_6 = brightness,
            InputElement::DisplayButton7 => self.current_button_leds.display_button_7 = brightness,
            InputElement::DisplayButton8 => self.current_button_leds.display_button_8 = brightness,
            // For RGB LEDs, convert brightness to a grey level
            InputElement::GroupA => {
                self.current_button_leds.group_a = MaschineLEDColor::from_brightness(brightness)
            },
            InputElement::GroupB => {
                self.current_button_leds.group_b = MaschineLEDColor::from_brightness(brightness)
            },
            InputElement::GroupC => {
                self.current_button_leds.group_c = MaschineLEDColor::from_brightness(brightness)
            },
            InputElement::GroupD => {
                self.current_button_leds.group_d = MaschineLEDColor::from_brightness(brightness)
            },
            InputElement::GroupE => {
                self.current_button_leds.group_e = MaschineLEDColor::from_brightness(brightness)
            },
            InputElement::GroupF => {
                self.current_button_leds.group_f = MaschineLEDColor::from_brightness(brightness)
            },
            InputElement::GroupG => {
                self.current_button_leds.group_g = MaschineLEDColor::from_brightness(brightness)
            },
            InputElement::GroupH => {
                self.current_button_leds.group_h = MaschineLEDColor::from_brightness(brightness)
            },
            InputElement::BrowserPlugin => {
                self.current_button_leds.browser_plugin = MaschineLEDColor::from_brightness(brightness)
            },
            InputElement::EncoderUp => {
                self.current_button_leds.nav_up = MaschineLEDColor::from_brightness(brightness)
            },
            InputElement::EncoderLeft => {
                self.current_button_leds.nav_left = MaschineLEDColor::from_brightness(brightness)
            },
            InputElement::EncoderRight => {
                self.current_button_leds.nav_right = MaschineLEDColor::from_brightness(brightness)
            },
            InputElement::EncoderDown => {
                self.current_button_leds.nav_down = MaschineLEDColor::from_brightness(brightness)
            },
            _ => return None,  // Elements that don't have LEDs
        }
        self.led_state_dirty = true;
        Some(self.write_led_state())
    }

    /// Sets the RGB LED of `button` to `color` and returns the LED packets to
    /// write. For an element without an RGB LED nothing changes and nothing
    /// is to be written.
    pub fn set_button_led_color(&mut self, button: InputElement, color: MaschineLEDColor) -> (flush:
        Option<LedPackets>)
        ensures
            match old(self)@.button_leds.with_color(button, color) {
                Some(leds) => {
                    &&& final(self)@.button_leds == leds
                    &&& final(self)@.leds_dirty
                    &&& flush matches Some(packets) && (packets.button@, packets.pad@) == final(self)@.led_packets()
                },
                None => {
                    &&& final(self)@.button_leds == old(self)@.button_leds
                    &&& final(self)@.leds_dirty == old(self)@.leds_dirty
                    &&& flush is None
                },
            },
            old(self)@.button_leds.with_color(button, color) is Some <==> button.spec_has_color(),
            final(self)@.pad_leds == old(self)@.pad_leds,
            final(self)@.tracker == old(self)@.tracker,
            final(self)@.display_available == old(self)@.display_available,
            final(self)@.left_frame == old(self)@.left_frame,
            final(self)@.right_frame == old(self)@.right_frame,
    {
        match button {
            InputElement::GroupA => self.current_button_leds.group_a = color,
            InputElement::GroupB => self.current_button_leds.group_b = color,
            InputElement::GroupC => self.current_button_leds.group_c = color,
            InputElement::GroupD => self.current_button_leds.group_d = color,
            InputElement::GroupE => self.current_button_leds.group_e = color,
            InputElement::GroupF => self.current_button_leds.group_f = color,
            InputElement::GroupG => self.current_button_leds.group_g = color,
            InputElement::GroupH => self.current_button_leds.group_h = color,
            InputElement::BrowserPlugin => self.current_button_leds.browser_plugin = color,
            InputElement::EncoderUp => self.current_button_leds.nav_up = color,
            InputElement::EncoderLeft => self.current_button_leds.nav_left = color,
            InputElement::EncoderRight => self.current_button_leds.nav_right = color,
            InputElement::EncoderDown => self.current_button_leds.nav_down = color,
            _ => return None,  // Elements that don't have RGB LEDs
        }
        self.led_state_dirty = true;
        Some(self.write_led_state())
    }

    /// Sets the LED of one pad and returns the LED packets to write, if the
    /// colour changed. A pad number above 15 is rejected.
    pub fn set_pad_led(&mut self, pad_number: u8, color: MaschineLEDColor) -> (r: Result<
        Option<LedPackets>,
    >)
        ensures
            match r {
                Ok(flush) => {
                    &&& pad_number <= MAX_PAD_NUMBER
                    &&& final(self)@.pad_leds.pad_leds@ == old(self)@.pad_leds.pad_leds@.update(
                        pad_number as int,
                        color,
                    )
                    &&& final(self)@.pad_leds.touch_strip_leds == old(self)@.pad_leds.touch_strip_leds
                    &&& if old(self)@.pad_leds.pad_leds@[pad_number as int] != color {
                        &&& final(self)@.leds_dirty
                        &&& flush matches Some(packets) && (packets.button@, packets.pad@) == final(self)@.led_packets()
                    } else {
                        &&& final(self)@.leds_dirty == old(self)@.leds_dirty
                        &&& flush is None
                    }
                },
                Err(e) => {
                    &&& pad_number > MAX_PAD_NUMBER
                    &&& e == MK3Error::InvalidParameter(ParameterError::PadNumber { pad_number })
                    &&& final(self)@.pad_leds == old(self)@.pad_leds
                    &&& final(self)@.leds_dirty == old(self)@.leds_dirty
                },
            },
            final(self)@.button_leds == old(self)@.button_leds,
            final(self)@.tracker == old(self)@.tracker,
            final(self)@.display_available == old(self)@.display_available,
            final(self)@.left_frame == old(self)@.left_frame,
            final(self)@.right_frame == old(self)@.right_frame,
    {
        if pad_number > MAX_PAD_NUMBER {
            return Err(MK3Error::InvalidParameter(ParameterError::PadNumber { pad_number }));
        }
        let old_color = self.current_pad_leds.pad_leds[pad_number as usize];
        if old_color != color {
            self.current_pad_leds.pad_leds.set(pad_number as usize, color);
            self.led_state_dirty = true;
            Ok(Some(self.write_led_state()))
        } else {
            proof {
                assert(self.current_pad_leds.pad_leds@ =~= self.current_pad_leds.pad_leds@.update(
                    pad_number as int,
                    color,
                ));
            }
            Ok(None)
        }
    }

    /// Sets the play button's LED to `brightness` and returns the LED packets
    /// to write, if the brightness changed.
    pub fn set_all_button_leds(&mut self, brightness: u8) -> (flush: Option<LedPackets>)
        ensures
            final(self)@.button_leds == (ButtonLedState {
                play: brightness,
                ..old(self)@.button_leds
            }),
            if old(self)@.button_leds.play != brightness {
                &&& final(self)@.leds_dirty
                &&& flush matches Some(packets) && (packets.button@, packets.pad@) == final(self)@.led_packets()
            } else {
                &&& final(self)@.leds_dirty == old(self)@.leds_dirty
                &&& flush is None
            },
            final(self)@.pad_leds == old(self)@.pad_leds,
            final(self)@.tracker == old(self)@.tracker,
            final(self)@.display_available == old(self)@.display_available,
            final(self)@.left_frame == old(self)@.left_frame,
            final(self)@.right_frame == old(self)@.right_frame,
    {
        let mut changed = false;
        if self.current_button_leds.play != brightness {
            self.current_button_leds.play = brightness;
            changed = true;
        }
        if changed {
            self.led_state_dirty = true;
            Some(self.write_led_state())
        } else {
            None
        }
    }

    /// Sets all pad LEDs to `color` and returns the LED packets to write, if
    /// any pad changed.
    pub fn set_all_pad_leds(&mut self, color: MaschineLEDColor) -> (flush: Option<LedPackets>)
        ensures
            final(self)@.pad_leds.pad_leds@ == Seq::new(PAD_LED_COUNT as nat, |i: int| color),
            final(self)@.pad_leds.touch_strip_leds == old(self)@.pad_leds.touch_strip_leds,
            if exists|i: int| 0 <= i < PAD_LED_COUNT && old(self)@.pad_leds.pad_leds@[i] != color {
                &&& final(self)@.leds_dirty
                &&& flush matches Some(packets) && (packets.button@, packets.pad@) == final(self)@.led_packets()
            } else {
                &&& final(self)@.leds_dirty == old(self)@.leds_dirty
                &&& flush is None
            },
            final(self)@.button_leds == old(self)@.button_leds,
            final(self)@.tracker == old(self)@.tracker,
            final(self)@.display_available == old(self)@.display_available,
            final(self)@.left_frame == old(self)@.left_frame,
            final(self)@.right_frame == old(self)@.right_frame,
    {
        let mut changed = false;
        let ghost before = self.current_pad_leds.pad_leds@;
        let mut i: usize = 0;
        while i < PAD_LED_COUNT
            invariant
                i <= PAD_LED_COUNT,
                before == old(self).current_pad_leds.pad_leds@,
                self.current_pad_leds.touch_strip_leds == old(self).current_pad_leds.touch_strip_leds,
                self.current_button_leds == old(self).current_button_leds,
                self.led_state_dirty == old(self).led_state_dirty,
                self.input_tracker@ == old(self).input_tracker@,
                self.display_interface_available == old(self).display_interface_available,
                self.left_display@ == old(self).left_display@,
                self.right_display@ == old(self).right_display@,
                forall|k: int| 0 <= k < i ==> self.current_pad_leds.pad_leds@[k] == color,
                forall|k: int| i <= k < PAD_LED_COUNT ==> self.current_pad_leds.pad_leds@[k] == before[k],
                changed <==> exists|k: int| 0 <= k < i && before[k] != color,
            decreases PAD_LED_COUNT - i,
        {
            if self.current_pad_leds.pad_leds[i] != color {
                self.current_pad_leds.pad_leds.set(i, color);
                changed = true;
                proof {
                    assert(0 <= i < i + 1 && before[i as int] != color);
                }
            } else {
                proof {
                    assert(before[i as int] == color);
                    assert((exists|k: int| 0 <= k < i + 1 && before[k] != color) ==> (exists|k: int|
                        0 <= k < i && before[k] != color)) by {
                        if exists|k: int| 0 <= k < i + 1 && before[k] != color {
                            let k = choose|k: int| 0 <= k < i + 1 && before[k] != color;
                            assert(0 <= k < i && before[k] != color);
                        }
                    }
                }
            }
            i = i + 1;
        }
        proof {
            assert(self.current_pad_leds.pad_leds@ =~= Seq::new(
                PAD_LED_COUNT as nat,
                |i: int| color,
            ));
        }
        if changed {
            self.led_state_dirty = true;
            Some(self.write_led_state())
        } else {
            None
        }
    }

    /// Switches all LEDs off and returns the LED packets to write.
    pub fn clear_all_leds(&mut self) -> (flush: LedPackets)
        ensures
            final(self)@.button_leds == ButtonLedState::spec_default(),
            final(self)@.pad_leds.all_off(),
            final(self)@.leds_dirty,
            (flush.button@, flush.pad@) == final(self)@.led_packets(),
            final(self)@.tracker == old(self)@.tracker,
            final(self)@.display_available == old(self)@.display_available,
            final(self)@.left_frame == old(self)@.left_frame,
            final(self)@.right_frame == old(self)@.right_frame,
    {
        self.current_button_leds = ButtonLedState::default();
        self.current_pad_leds = PadLedState::default();
        self.led_state_dirty = true;
        self.write_led_state()
    }

    /// The brightness of the play button's LED; 0 for every other element.
    pub fn get_button_led_state(&self, button: InputElement) -> (brightness: u8)
        ensures
            brightness == (if button == InputElement::Play {
                self@.button_leds.play
            } else {
                0
            }),
    {
        match button {
            InputElement::Play => self.current_button_leds.play,
            _ => 0,
        }
    }

    /// The colour of one pad LED; off for a pad number above 15.
    pub fn get_pad_led_color(&self, pad_number: u8) -> (color: MaschineLEDColor)
        ensures
            color == (if pad_number <= MAX_PAD_NUMBER {
                self@.pad_leds.pad_leds@[pad_number as int]
            } else {
                MaschineLEDColor::off()
            }),
    {
        if pad_number > MAX_PAD_NUMBER {
            return MaschineLEDColor::black();
        }
        self.current_pad_leds.pad_leds[pad_number as usize]
    }

    /// The LED packets for the current state, whether or not it changed.
    pub fn flush_led_changes(&self) -> (flush: LedPackets)
        ensures
            (flush.button@, flush.pad@) == self@.led_packets(),
    {
        self.write_led_state()
    }

    /// Records that the LED packets of the latest flush were written.
    pub fn led_state_written(&mut self)
        ensures
            !final(self)@.leds_dirty,
            final(self)@.button_leds == old(self)@.button_leds,
            final(self)@.pad_leds == old(self)@.pad_leds,
            final(self)@.tracker == old(self)@.tracker,
            final(self)@.display_available == old(self)@.display_available,
            final(self)@.left_frame == old(self)@.left_frame,
            final(self)@.right_frame == old(self)@.right_frame,
    {
        self.led_state_dirty = false;
    }

    /// Both LED packets for the current state: button LEDs, then pad LEDs.
    fn write_led_state(&self) -> (flush: LedPackets)
        ensures
            (flush.button@, flush.pad@) == self@.led_packets(),
    {
        let button_packet = self.current_button_leds.to_packet();
        let pad_packet = self.current_pad_leds.to_packet();
        LedPackets { button: button_packet, pad: pad_packet }
    }
}

} // verus!
