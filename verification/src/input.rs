//! Decoded input state and the decoders for the two input packet types.

use vstd::prelude::*;
use crate::element::{InputElement, BUTTON_COUNT};
use crate::error::{MK3Error, Result};

verus! {

/// On/off state of every button and presence flag, one flag per control.
#[derive(Debug, Clone, Copy, PartialEq, Eq)]
pub struct ButtonState {
    // Transport controls
    pub play: bool,
    pub rec: bool,
    pub stop: bool,
    pub restart: bool,
    pub erase: bool,
    pub tap: bool,
    pub follow: bool,

    // Group buttons A-H
    pub group_a: bool,
    pub group_b: bool,
    pub group_c: bool,
    pub group_d: bool,
    pub group_e: bool,
    pub group_f: bool,
    pub group_g: bool,
    pub group_h: bool,

    // Mode buttons
    pub notes: bool,
    pub volume: bool,
    pub swing: bool,
    pub tempo: bool,
    pub note_repeat: bool,
    pub lock: bool,
    pub pad_mode: bool,
    pub keyboard: bool,
    pub chords: bool,
    pub step: bool,
    pub fixed_vel: bool,
    pub scene: bool,
    pub pattern: bool,
    pub events: bool,

    // Navigation
    pub variation: bool,
    pub duplicate: bool,
    pub select: bool,
    pub solo: bool,
    pub mute: bool,
    pub pitch: bool,
    pub mod_: bool,
    pub perform: bool,

    // Other controls
    pub shift: bool,
    pub encoder_push: bool,
    pub encoder_up: bool,
    pub encoder_down: bool,
    pub encoder_left: bool,
    pub encoder_right: bool,

    // Display buttons
    pub display_button_1: bool,
    pub display_button_2: bool,
    pub display_button_3: bool,
    pub display_button_4: bool,
    pub display_button_5: bool,
    pub display_button_6: bool,
    pub display_button_7: bool,
    pub display_button_8: bool,

    // System buttons
    pub channel_midi: bool,
    pub arranger: bool,
    pub browser_plugin: bool,
    pub arrow_left: bool,
    pub arrow_right: bool,
    pub file_save: bool,
    pub settings: bool,
    pub macro_: bool,
    pub plugin: bool,
    pub mixer: bool,
    pub sampling: bool,
    pub auto: bool,

    // Hardware status
    pub pedal_connected: bool,
    pub microphone_connected: bool,
}

/// Positions of the eight knobs and the main encoder, with their touch sensors.
#[derive(Debug, Clone, Copy, PartialEq, Eq)]
pub struct KnobState {
    /// Knob positions at 10-bit resolution (0 to 1023).
    pub knob_1: u16,
    pub knob_2: u16,
    pub knob_3: u16,
    pub knob_4: u16,
    pub knob_5: u16,
    pub knob_6: u16,
    pub knob_7: u16,
    pub knob_8: u16,
    /// Main encoder position at 4-bit resolution (0 to 15).
    pub main_encoder: u8,

    // Touch detection
    pub knob_1_touched: bool,
    pub knob_2_touched: bool,
    pub knob_3_touched: bool,
    pub knob_4_touched: bool,
    pub knob_5_touched: bool,
    pub knob_6_touched: bool,
    pub knob_7_touched: bool,
    pub knob_8_touched: bool,
    pub main_knob_touched: bool,
}

/// Raw bytes of one finger slot of the touch strip.
#[derive(Debug, Clone, Copy, PartialEq, Eq)]
pub struct TouchData {
    pub data_a: u8,
    pub data_b: u8,
    pub data_c: u8,
    pub data_d: u8,
}

/// The two finger slots of the touch strip.
#[derive(Debug, Clone, Copy, PartialEq, Eq)]
pub struct TouchStripState {
    pub finger_1: TouchData,
    pub finger_2: TouchData,
}

/// Levels of the three audio controls.
#[derive(Debug, Clone, Copy, PartialEq, Eq)]
pub struct AudioState {
    pub mic_gain: u16,
    pub headphone_volume: u16,
    pub master_volume: u16,
}

/// Complete input state carried by one button/knob packet (type tag 0x01).
#[derive(Debug, Clone, Copy, PartialEq, Eq)]
pub struct InputState {
    pub buttons: ButtonState,
    pub knobs: KnobState,
    pub touch_strip: TouchStripState,
    pub audio: AudioState,
}

/// One pad record of a pad packet.
#[derive(Debug, Clone, Copy, PartialEq, Eq)]
pub struct PadHit {
    /// Pad number, 0 to 15, counted from the top-right pad to the bottom-left.
    pub pad_number: u8,
    /// Velocity-like byte.
    pub data_a: u8,
    /// Pressure-like byte.
    pub data_b: u8,
}

/// The pad records carried by one pad packet (type tag 0x02), in wire order.
#[derive(Debug, Clone, PartialEq, Eq)]
pub struct PadState {
    pub hits: Vec<PadHit>,
}

/// Type tag of a button/knob packet.
pub const BUTTON_PACKET_TAG: u8 = 0x01;

/// Type tag of a pad packet.
pub const PAD_PACKET_TAG: u8 = 0x02;

/// Highest pad number.
pub const MAX_PAD_NUMBER: u8 = 15;

/// Least length of a button/knob packet.
pub const BUTTON_PACKET_LEN: usize = 42;

/// Whether the bit that the single-bit `mask` selects is set in `byte`.
pub open spec fn flag(byte: u8, mask: u8) -> bool {
    (byte as int / mask as int) % 2 == 1
}

/// A knob position: the low byte in full, and bits 8 and 9 from the two low
/// bits of the high byte.
pub open spec fn knob_position(lo: u8, hi: u8) -> int {
    (hi as int % 4) * 256 + lo as int
}

/// The main encoder position: the low four bits of its byte.
pub open spec fn encoder_position(byte: u8) -> int {
    byte as int % 16
}

/// A little-endian 16-bit value.
pub open spec fn le16(lo: u8, hi: u8) -> int {
    hi as int * 256 + lo as int
}

/// Whether `mask` has exactly one bit set.
pub open spec fn single_bit(mask: u8) -> bool {
    mask == 0x01 || mask == 0x02 || mask == 0x04 || mask == 0x08 || mask == 0x10 || mask == 0x20
        || mask == 0x40 || mask == 0x80
}

fn read_flag(byte: u8, mask: u8) -> (b: bool)
    requires
        single_bit(mask),
    ensures
        b == flag(byte, mask),
{
    let b = (byte & mask) != 0;
    assert(((byte & mask) != 0) == ((byte / mask) % 2 == 1)) by (bit_vector)
        requires
            mask == 0x01 || mask == 0x02 || mask == 0x04 || mask == 0x08 || mask == 0x10 || mask
                == 0x20 || mask == 0x40 || mask == 0x80,
    ;
    b
}

fn read_knob(lo: u8, hi: u8) -> (v: u16)
    ensures
        v == knob_position(lo, hi),
        v <= 1023,
{
    let v: u16 = ((hi as u16 & 0x03) << 8) | (lo as u16);
    assert(v == (hi % 4) * 256 + lo) by (bit_vector)
        requires
            v == ((hi as u16 & 0x03) << 8) | (lo as u16),
    ;
    v
}

fn read_encoder(byte: u8) -> (v: u8)
    ensures
        v == encoder_position(byte),
        v <= 15,
{
    let v: u8 = byte & 0x0F;
    assert(v == byte % 16) by (bit_vector)
        requires
            v == byte & 0x0F,
    ;
    v
}

fn read_le16(lo: u8, hi: u8) -> (v: u16)
    ensures
        v == le16(lo, hi),
{
    let v: u16 = ((hi as u16) << 8) | (lo as u16);
    assert(v == hi * 256 + lo) by (bit_vector)
        requires
            v == ((hi as u16) << 8) | (lo as u16),
    ;
    v
}

/// The button flags of a button/knob packet: bytes 1 to 9 are bit masks, one
/// bit per control.
pub open spec fn decode_buttons(d: Seq<u8>) -> ButtonState {
    ButtonState {
        // Byte 1: encoder and system controls
        encoder_push: flag(d[1], 0x01),
        pedal_connected: flag(d[1], 0x02),
        encoder_up: flag(d[1], 0x04),
        encoder_right: flag(d[1], 0x08),
        encoder_down: flag(d[1], 0x10),
        encoder_left: flag(d[1], 0x20),
        shift: flag(d[1], 0x40),
        display_button_8: flag(d[1], 0x80),
        // Byte 2: group buttons A-H
        group_a: flag(d[2], 0x01),
        group_b: flag(d[2], 0x02),
        group_c: flag(d[2], 0x04),
        group_d: flag(d[2], 0x08),
        group_e: flag(d[2], 0x10),
        group_f: flag(d[2], 0x20),
        group_g: flag(d[2], 0x40),
        group_h: flag(d[2], 0x80),
        // Byte 3: mode buttons
        notes: flag(d[3], 0x01),
        volume: flag(d[3], 0x02),
        swing: flag(d[3], 0x04),
        tempo: flag(d[3], 0x08),
        note_repeat: flag(d[3], 0x10),
        lock: flag(d[3], 0x20),
        // Byte 4: more mode buttons
        pad_mode: flag(d[4], 0x01),
        keyboard: flag(d[4], 0x02),
        chords: flag(d[4], 0x04),
        step: flag(d[4], 0x08),
        fixed_vel: flag(d[4], 0x10),
        scene: flag(d[4], 0x20),
        pattern: flag(d[4], 0x40),
        events: flag(d[4], 0x80),
        // Byte 5: control buttons
        microphone_connected: flag(d[5], 0x01),
        variation: flag(d[5], 0x02),
        duplicate: flag(d[5], 0x04),
        select: flag(d[5], 0x08),
        solo: flag(d[5], 0x10),
        mute: flag(d[5], 0x20),
        pitch: flag(d[5], 0x40),
        mod_: flag(d[5], 0x80),
        // Byte 6: transport controls
        perform: flag(d[6], 0x01),
        restart: flag(d[6], 0x02),
        erase: flag(d[6], 0x04),
        tap: flag(d[6], 0x08),
        follow: flag(d[6], 0x10),
        play: flag(d[6], 0x20),
        rec: flag(d[6], 0x40),
        stop: flag(d[6], 0x80),
        // Byte 7: system buttons
        macro_: flag(d[7], 0x01),
        settings: flag(d[7], 0x02),
        arrow_right: flag(d[7], 0x04),
        sampling: flag(d[7], 0x08),
        mixer: flag(d[7], 0x10),
        plugin: flag(d[7], 0x20),
        // Byte 8: more system buttons
        channel_midi: flag(d[8], 0x01),
        arranger: flag(d[8], 0x02),
        browser_plugin: flag(d[8], 0x04),
        arrow_left: flag(d[8], 0x08),
        file_save: flag(d[8], 0x10),
        auto: flag(d[8], 0x20),
        // Byte 9: display buttons
        display_button_1: flag(d[9], 0x01),
        display_button_2: flag(d[9], 0x02),
        display_button_3: flag(d[9], 0x04),
        display_button_4: flag(d[9], 0x08),
        display_button_5: flag(d[9], 0x10),
        display_button_6: flag(d[9], 0x20),
        display_button_7: flag(d[9], 0x40),
    }
}

/// The knob section of a button/knob packet: the main knob's touch sensor in
/// the top bit of byte 9, the eight knob touch sensors in byte 10 (knob 8 in
/// the lowest bit), the encoder in byte 11, and one byte pair per knob from
/// byte 12 on.
pub open spec fn decode_knobs(d: Seq<u8>) -> KnobState {
    KnobState {
        knob_1: knob_position(d[12], d[13]) as u16,
        knob_2: knob_position(d[14], d[15]) as u16,
        knob_3: knob_position(d[16], d[17]) as u16,
        knob_4: knob_position(d[18], d[19]) as u16,
        knob_5: knob_position(d[20], d[21]) as u16,
        knob_6: knob_position(d[22], d[23]) as u16,
        knob_7: knob_position(d[24], d[25]) as u16,
        knob_8: knob_position(d[26], d[27]) as u16,
        main_encoder: encoder_position(d[11]) as u8,
        knob_1_touched: flag(d[10], 0x80),
        knob_2_touched: flag(d[10], 0x40),
        knob_3_touched: flag(d[10], 0x20),
        knob_4_touched: flag(d[10], 0x10),
        knob_5_touched: flag(d[10], 0x08),
        knob_6_touched: flag(d[10], 0x04),
        knob_7_touched: flag(d[10], 0x02),
        knob_8_touched: flag(d[10], 0x01),
        main_knob_touched: flag(d[9], 0x80),
    }
}

/// The touch strip section of a button/knob packet: bytes 28 to 35, four per
/// finger slot.
pub open spec fn decode_touch_strip(d: Seq<u8>) -> TouchStripState {
    TouchStripState {
        finger_1: TouchData { data_a: d[28], data_b: d[29], data_c: d[30], data_d: d[31] },
        finger_2: TouchData { data_a: d[32], data_b: d[33], data_c: d[34], data_d: d[35] },
    }
}

/// The audio section of a button/knob packet: three little-endian 16-bit
/// levels in bytes 36 to 41.
pub open spec fn decode_audio(d: Seq<u8>) -> AudioState {
    AudioState {
        mic_gain: le16(d[36], d[37]) as u16,
        headphone_volume: le16(d[38], d[39]) as u16,
        master_volume: le16(d[40], d[41]) as u16,
    }
}

/// What a button/knob packet decodes to. A packet shorter than 42 bytes, or
/// one whose first byte is not the type tag 0x01, is invalid; nothing is
/// decoded from it.
pub open spec fn decode_button_packet(d: Seq<u8>) -> Result<InputState> {
    if d.len() >= BUTTON_PACKET_LEN && d[0] == BUTTON_PACKET_TAG {
        Ok(
            InputState {
                buttons: decode_buttons(d),
                knobs: decode_knobs(d),
                touch_strip: decode_touch_strip(d),
                audio: decode_audio(d),
            },
        )
    } else {
        Err(MK3Error::InvalidPacket)
    }
}

/// The button flags of a button/knob packet.
fn read_buttons(data: &[u8]) -> (s: ButtonState)
    requires
        data@.len() >= BUTTON_PACKET_LEN,
    ensures
        s == decode_buttons(data@),
{
    ButtonState {
        // Byte 1: encoder and system controls
        encoder_push: read_flag(data[1], 0x01),
        pedal_connected: read_flag(data[1], 0x02),
        encoder_up: read_flag(data[1], 0x04),
        encoder_right: read_flag(data[1], 0x08),
        encoder_down: read_flag(data[1], 0x10),
        encoder_left: read_flag(data[1], 0x20),
        shift: read_flag(data[1], 0x40),
        display_button_8: read_flag(data[1], 0x80),
        // Byte 2: group buttons A-H
        group_a: read_flag(data[2], 0x01),
        group_b: read_flag(data[2], 0x02),
        group_c: read_flag(data[2], 0x04),
        group_d: read_flag(data[2], 0x08),
        group_e: read_flag(data[2], 0x10),
        group_f: read_flag(data[2], 0x20),
        group_g: read_flag(data[2], 0x40),
        group_h: read_flag(data[2], 0x80),
        // Byte 3: mode buttons
        notes: read_flag(data[3], 0x01),
        volume: read_flag(data[3], 0x02),
        swing: read_flag(data[3], 0x04),
        tempo: read_flag(data[3], 0x08),
        note_repeat: read_flag(data[3], 0x10),
        lock: read_flag(data[3], 0x20),
        // Byte 4: more mode buttons
        pad_mode: read_flag(data[4], 0x01),
        keyboard: read_flag(data[4], 0x02),
        chords: read_flag(data[4], 0x04),
        step: read_flag(data[4], 0x08),
        fixed_vel: read_flag(data[4], 0x10),
        scene: read_flag(data[4], 0x20),
        pattern: read_flag(data[4], 0x40),
        events: read_flag(data[4], 0x80),
        // Byte 5: control buttons
        microphone_connected: read_flag(data[5], 0x01),
        variation: read_flag(data[5], 0x02),
        duplicate: read_flag(data[5], 0x04),
        select: read_flag(data[5], 0x08),
        solo: read_flag(data[5], 0x10),
        mute: read_flag(data[5], 0x20),
        pitch: read_flag(data[5], 0x40),
        mod_: read_flag(data[5], 0x80),
        // Byte 6: transport controls
        perform: read_flag(data[6], 0x01),
        restart: read_flag(data[6], 0x02),
        erase: read_flag(data[6], 0x04),
        tap: read_flag(data[6], 0x08),
        follow: read_flag(data[6], 0x10),
        play: read_flag(data[6], 0x20),
        rec: read_flag(data[6], 0x40),
        stop: read_flag(data[6], 0x80),
        // Byte 7: system buttons
        macro_: read_flag(data[7], 0x01),
        settings: read_flag(data[7], 0x02),
        arrow_right: read_flag(data[7], 0x04),
        sampling: read_flag(data[7], 0x08),
        mixer: read_flag(data[7], 0x10),
        plugin: read_flag(data[7], 0x20),
        // Byte 8: more system buttons
        channel_midi: read_flag(data[8], 0x01),
        arranger: read_flag(data[8], 0x02),
        browser_plugin: read_flag(data[8], 0x04),
        arrow_left: read_flag(data[8], 0x08),
        file_save: read_flag(data[8], 0x10),
        auto: read_flag(data[8], 0x20),
        // Byte 9: display buttons
        display_button_1: read_flag(data[9], 0x01),
        display_button_2: read_flag(data[9], 0x02),
        display_button_3: read_flag(data[9], 0x04),
        display_button_4: read_flag(data[9], 0x08),
        display_button_5: read_flag(data[9], 0x10),
        display_button_6: read_flag(data[9], 0x20),
        display_button_7: read_flag(data[9], 0x40),
    }
}

/// The knob section of a button/knob packet.
fn read_knobs(data: &[u8]) -> (s: KnobState)
    requires
        data@.len() >= BUTTON_PACKET_LEN,
    ensures
        s == decode_knobs(data@),
        s.in_range(),
{
    KnobState {
        main_knob_touched: read_flag(data[9], 0x80),
        // Byte 10: knob touch sensors, knob 8 in the lowest bit
        knob_8_touched: read_flag(data[10], 0x01),
        knob_7_touched: read_flag(data[10], 0x02),
        knob_6_touched: read_flag(data[10], 0x04),
        knob_5_touched: read_flag(data[10], 0x08),
        knob_4_touched: read_flag(data[10], 0x10),
        knob_3_touched: read_flag(data[10], 0x20),
        knob_2_touched: read_flag(data[10], 0x40),
        knob_1_touched: read_flag(data[10], 0x80),
        // Byte 11: main encoder position
        main_encoder: read_encoder(data[11]),
        // Bytes 12 to 27: knob positions, two bytes per knob
        knob_1: read_knob(data[12], data[13]),
        knob_2: read_knob(data[14], data[15]),
        knob_3: read_knob(data[16], data[17]),
        knob_4: read_knob(data[18], data[19]),
        knob_5: read_knob(data[20], data[21]),
        knob_6: read_knob(data[22], data[23]),
        knob_7: read_knob(data[24], data[25]),
        knob_8: read_knob(data[26], data[27]),
    }
}

/// The touch strip section of a button/knob packet.
fn read_touch_strip(data: &[u8]) -> (s: TouchStripState)
    requires
        data@.len() >= BUTTON_PACKET_LEN,
    ensures
        s == decode_touch_strip(data@),
{
    TouchStripState {
        finger_1: TouchData {
            data_a: data[28],
            data_b: data[29],
            data_c: data[30],
            data_d: data[31],
        },
        finger_2: TouchData {
            data_a: data[32],
            data_b: data[33],
            data_c: data[34],
            data_d: data[35],
        },
    }
}

/// The audio section of a button/knob packet.
fn read_audio(data: &[u8]) -> (s: AudioState)
    requires
        data@.len() >= BUTTON_PACKET_LEN,
    ensures
        s == decode_audio(data@),
{
    AudioState {
        mic_gain: read_le16(data[36], data[37]),
        headphone_volume: read_le16(data[38], data[39]),
        master_volume: read_le16(data[40], data[41]),
    }
}

/// Decoding is a function of the first 42 bytes: packets that agree there
/// decode to the same result, whatever follows.
pub proof fn lemma_decoding_is_deterministic(a: Seq<u8>, b: Seq<u8>)
    requires
        a.len() >= BUTTON_PACKET_LEN,
        b.len() >= BUTTON_PACKET_LEN,
        forall|i: int| 0 <= i < BUTTON_PACKET_LEN ==> a[i] == b[i],
    ensures
        decode_button_packet(a) == decode_button_packet(b),
{
}

/// The pad records found from `offset` on. Records are three bytes each: pad
/// number, then two data bytes. An all-zero record is padding and is skipped;
/// the first other record whose pad number exceeds 15 ends the data; a
/// trailing fragment shorter than a record is ignored.
pub open spec fn scan_pad_records(d: Seq<u8>, offset: int) -> Seq<PadHit>
    decreases d.len() - offset,
{
    if offset < 0 || offset + 2 >= d.len() {
        Seq::empty()
    } else if d[offset] == 0 && d[offset + 1] == 0 && d[offset + 2] == 0 {
        scan_pad_records(d, offset + 3)
    } else if d[offset] > MAX_PAD_NUMBER {
        Seq::empty()
    } else {
        seq![PadHit { pad_number: d[offset], data_a: d[offset + 1], data_b: d[offset + 2] }]
            + scan_pad_records(d, offset + 3)
    }
}

/// What a pad packet decodes to. An empty packet, or one whose first byte is
/// not the type tag 0x02, is invalid.
pub open spec fn decode_pad_packet(d: Seq<u8>) -> Result<Seq<PadHit>> {
    if d.len() > 0 && d[0] == PAD_PACKET_TAG {
        Ok(scan_pad_records(d, 1))
    } else {
        Err(MK3Error::InvalidPacket)
    }
}

/// Every scanned record names one of the sixteen pads.
pub proof fn lemma_scanned_pads_in_range(d: Seq<u8>, offset: int)
    ensures
        forall|i: int|
            0 <= i < scan_pad_records(d, offset).len() ==> (#[trigger] scan_pad_records(
                d,
                offset,
            )[i]).pad_number <= MAX_PAD_NUMBER,
    decreases d.len() - offset,
{
    if 0 <= offset && offset + 2 < d.len() {
        lemma_scanned_pads_in_range(d, offset + 3);
        let records = scan_pad_records(d, offset);
        let later = scan_pad_records(d, offset + 3);
        assert forall|i: int| 0 <= i < records.len() implies (#[trigger] records[i]).pad_number
            <= MAX_PAD_NUMBER by {
            if records != later && i > 0 {
                assert(records[i] == later[i - 1]);
            }
        }
    }
}

/// The on/off elements in reporting order.
pub open spec fn button_order() -> Seq<InputElement> {
    Seq::new(BUTTON_COUNT as nat, |i: int| InputElement::spec_button_at(i))
}

/// The knob elements, each with the element of its touch sensor.
pub open spec fn knob_touch_pairs() -> Seq<(InputElement, InputElement)> {
    Seq::new(
        9,
        |i: int|
            (InputElement::spec_from_index((65 + i) as u8), InputElement::spec_from_index(
                (74 + i) as u8,
            )),
    )
}

/// The audio elements.
pub open spec fn audio_order() -> Seq<InputElement> {
    Seq::new(3, |i: int| InputElement::spec_from_index((83 + i) as u8))
}

impl ButtonState {
    /// The state with no button pressed and no flag raised.
    pub open spec fn spec_default() -> ButtonState {
        ButtonState {
            play: false,
            rec: false,
            stop: false,
            restart: false,
            erase: false,
            tap: false,
            follow: false,
            group_a: false,
            group_b: false,
            group_c: false,
            group_d: false,
            group_e: false,
            group_f: false,
            group_g: false,
            group_h: false,
            notes: false,
            volume: false,
            swing: false,
            tempo: false,
            note_repeat: false,
            lock: false,
            pad_mode: false,
            keyboard: false,
            chords: false,
            step: false,
            fixed_vel: false,
            scene: false,
            pattern: false,
            events: false,
            variation: false,
            duplicate: false,
            select: false,
            solo: false,
            mute: false,
            pitch: false,
            mod_: false,
            perform: false,
            shift: false,
            encoder_push: false,
            encoder_up: false,
            encoder_down: false,
            encoder_left: false,
            encoder_right: false,
            display_button_1: false,
            display_button_2: false,
            display_button_3: false,
            display_button_4: false,
            display_button_5: false,
            display_button_6: false,
            display_button_7: false,
            display_button_8: false,
            channel_midi: false,
            arranger: false,
            browser_plugin: false,
            arrow_left: false,
            arrow_right: false,
            file_save: false,
            settings: false,
            macro_: false,
            plugin: false,
            mixer: false,
            sampling: false,
            auto: false,
            pedal_connected: false,
            microphone_connected: false,
        }
    }
}

impl Default for ButtonState {
    fn default() -> (s: Self)
        ensures
            s == ButtonState::spec_default(),
    {
        ButtonState {
            play: false,
            rec: false,
            stop: false,
            restart: false,
            erase: false,
            tap: false,
            follow: false,
            group_a: false,
            group_b: false,
            group_c: false,
            group_d: false,
            group_e: false,
            group_f: false,
            group_g: false,
            group_h: false,
            notes: false,
            volume: false,
            swing: false,
            tempo: false,
            note_repeat: false,
            lock: false,
            pad_mode: false,
            keyboard: false,
            chords: false,
            step: false,
            fixed_vel: false,
            scene: false,
            pattern: false,
            events: false,
            variation: false,
            duplicate: false,
            select: false,
            solo: false,
            mute: false,
            pitch: false,
            mod_: false,
            perform: false,
            shift: false,
            encoder_push: false,
            encoder_up: false,
            encoder_down: false,
            encoder_left: false,
            encoder_right: false,
            display_button_1: false,
            display_button_2: false,
            display_button_3: false,
            display_button_4: false,
            display_button_5: false,
            display_button_6: false,
            display_button_7: false,
            display_button_8: false,
            channel_midi: false,
            arranger: false,
            browser_plugin: false,
            arrow_left: false,
            arrow_right: false,
            file_save: false,
            settings: false,
            macro_: false,
            plugin: false,
            mixer: false,
            sampling: false,
            auto: false,
            pedal_connected: false,
            microphone_connected: false,
        }
    }
}

impl KnobState {
    /// The state with every knob at zero and untouched.
    pub open spec fn spec_default() -> KnobState {
        KnobState {
            knob_1: 0,
            knob_2: 0,
            knob_3: 0,
            knob_4: 0,
            knob_5: 0,
            knob_6: 0,
            knob_7: 0,
            knob_8: 0,
            main_encoder: 0,
            knob_1_touched: false,
            knob_2_touched: false,
            knob_3_touched: false,
            knob_4_touched: false,
            knob_5_touched: false,
            knob_6_touched: false,
            knob_7_touched: false,
            knob_8_touched: false,
            main_knob_touched: false,
        }
    }

    /// Whether every knob is within its 10-bit range and the main encoder
    /// within its 4-bit range.
    pub open spec fn in_range(&self) -> bool {
        &&& self.knob_1 <= 1023
        &&& self.knob_2 <= 1023
        &&& self.knob_3 <= 1023
        &&& self.knob_4 <= 1023
        &&& self.knob_5 <= 1023
        &&& self.knob_6 <= 1023
        &&& self.knob_7 <= 1023
        &&& self.knob_8 <= 1023
        &&& self.main_encoder <= 15
    }
}

impl Default for KnobState {
    fn default() -> (s: Self)
        ensures
            s == KnobState::spec_default(),
    {
        KnobState {
            knob_1: 0,
            knob_2: 0,
            knob_3: 0,
            knob_4: 0,
            knob_5: 0,
            knob_6: 0,
            knob_7: 0,
            knob_8: 0,
            main_encoder: 0,
            knob_1_touched: false,
            knob_2_touched: false,
            knob_3_touched: false,
            knob_4_touched: false,
            knob_5_touched: false,
            knob_6_touched: false,
            knob_7_touched: false,
            knob_8_touched: false,
            main_knob_touched: false,
        }
    }
}

impl TouchData {
    /// The slot with all four bytes zero.
    pub open spec fn spec_default() -> TouchData {
        TouchData { data_a: 0, data_b: 0, data_c: 0, data_d: 0 }
    }
}

impl Default for TouchData {
    fn default() -> (s: Self)
        ensures
            s == TouchData::spec_default(),
    {
        TouchData { data_a: 0, data_b: 0, data_c: 0, data_d: 0 }
    }
}

impl TouchStripState {
    /// The strip with both finger slots zero.
    pub open spec fn spec_default() -> TouchStripState {
        TouchStripState { finger_1: TouchData::spec_default(), finger_2: TouchData::spec_default() }
    }
}

impl Default for TouchStripState {
    fn default() -> (s: Self)
        ensures
            s == TouchStripState::spec_default(),
    {
        TouchStripState { finger_1: TouchData::default(), finger_2: TouchData::default() }
    }
}

impl AudioState {
    /// The state with all three levels zero.
    pub open spec fn spec_default() -> AudioState {
        AudioState { mic_gain: 0, headphone_volume: 0, master_volume: 0 }
    }
}

impl Default for AudioState {
    fn default() -> (s: Self)
        ensures
            s == AudioState::spec_default(),
    {
        AudioState { mic_gain: 0, headphone_volume: 0, master_volume: 0 }
    }
}

impl Default for InputState {
    fn default() -> (s: Self)
        ensures
            s == InputState::spec_default(),
    {
        InputState {
            buttons: ButtonState::default(),
            knobs: KnobState::default(),
            touch_strip: TouchStripState::default(),
            audio: AudioState::default(),
        }
    }
}

impl Default for PadState {
    fn default() -> (s: Self)
        ensures
            s.hits@ == Seq::<PadHit>::empty(),
    {
        PadState { hits: Vec::new() }
    }
}

impl InputState {
    /// The resting state: nothing pressed, nothing touched, every value zero.
    pub open spec fn spec_default() -> InputState {
        InputState {
            buttons: ButtonState::spec_default(),
            knobs: KnobState::spec_default(),
            touch_strip: TouchStripState::spec_default(),
            audio: AudioState::spec_default(),
        }
    }

    /// Decodes a button/knob packet.
    ///
    /// Succeeds exactly on packets of at least 42 bytes whose first byte is
    /// 0x01; bytes past the 42nd are ignored.
    pub fn from_button_packet(data: &[u8]) -> (r: Result<Self>)
        ensures
            r == decode_button_packet(data@),
            r is Ok <==> data@.len() >= BUTTON_PACKET_LEN && data@[0] == BUTTON_PACKET_TAG,
            r matches Ok(s) ==> s.knobs.in_range(),
    {
        if data.len() < BUTTON_PACKET_LEN {
            return Err(MK3Error::InvalidPacket);
        }
        if data[0] != BUTTON_PACKET_TAG {
            return Err(MK3Error::InvalidPacket);
        }
        Ok(
            InputState {
                buttons: read_buttons(data),
                knobs: read_knobs(data),
                touch_strip: read_touch_strip(data),
                audio: read_audio(data),
            },
        )
    }

    /// The on/off state of `element`; `false` for an element that has none.
    pub open spec fn spec_get_button(&self, element: &InputElement) -> bool {
        match element {
            InputElement::Play => self.buttons.play,
            InputElement::Rec => self.buttons.rec,
            InputElement::Stop => self.buttons.stop,
            InputElement::Restart => self.buttons.restart,
            InputElement::Erase => self.buttons.erase,
            InputElement::Tap => self.buttons.tap,
            InputElement::Follow => self.buttons.follow,
            InputElement::GroupA => self.buttons.group_a,
            InputElement::GroupB => self.buttons.group_b,
            InputElement::GroupC => self.buttons.group_c,
            InputElement::GroupD => self.buttons.group_d,
            InputElement::GroupE => self.buttons.group_e,
            InputElement::GroupF => self.buttons.group_f,
            InputElement::GroupG => self.buttons.group_g,
            InputElement::GroupH => self.buttons.group_h,
            InputElement::Notes => self.buttons.notes,
            InputElement::Volume => self.buttons.volume,
            InputElement::Swing => self.buttons.swing,
            InputElement::Tempo => self.buttons.tempo,
            InputElement::NoteRepeat => self.buttons.note_repeat,
            InputElement::Lock => self.buttons.lock,
            InputElement::PadMode => self.buttons.pad_mode,
            InputElement::Keyboard => self.buttons.keyboard,
            InputElement::Chords => self.buttons.chords,
            InputElement::Step => self.buttons.step,
            InputElement::FixedVel => self.buttons.fixed_vel,
            InputElement::Scene => self.buttons.scene,
            InputElement::Pattern => self.buttons.pattern,
            InputElement::Events => self.buttons.events,
            InputElement::Variation => self.buttons.variation,
            InputElement::Duplicate => self.buttons.duplicate,
            InputElement::Select => self.buttons.select,
            InputElement::Solo => self.buttons.solo,
            InputElement::Mute => self.buttons.mute,
            InputElement::Pitch => self.buttons.pitch,
            InputElement::Mod => self.buttons.mod_,
            InputElement::Perform => self.buttons.perform,
            InputElement::Shift => self.buttons.shift,
            InputElement::EncoderPush => self.buttons.encoder_push,
            InputElement::EncoderUp => self.buttons.encoder_up,
            InputElement::EncoderDown => self.buttons.encoder_down,
            InputElement::EncoderLeft => self.buttons.encoder_left,
            InputElement::EncoderRight => self.buttons.encoder_right,
            InputElement::DisplayButton1 => self.buttons.display_button_1,
            InputElement::DisplayButton2 => self.buttons.display_button_2,
            InputElement::DisplayButton3 => self.buttons.display_button_3,
            InputElement::DisplayButton4 => self.buttons.display_button_4,
            InputElement::DisplayButton5 => self.buttons.display_button_5,
            InputElement::DisplayButton6 => self.buttons.display_button_6,
            InputElement::DisplayButton7 => self.buttons.display_button_7,
            InputElement::DisplayButton8 => self.buttons.display_button_8,
            InputElement::ChannelMidi => self.buttons.channel_midi,
            InputElement::Arranger => self.buttons.arranger,
            InputElement::BrowserPlugin => self.buttons.browser_plugin,
            InputElement::ArrowLeft => self.buttons.arrow_left,
            InputElement::ArrowRight => self.buttons.arrow_right,
            InputElement::FileSave => self.buttons.file_save,
            InputElement::Settings => self.buttons.settings,
            InputElement::Macro => self.buttons.macro_,
            InputElement::Plugin => self.buttons.plugin,
            InputElement::Mixer => self.buttons.mixer,
            InputElement::Sampling => self.buttons.sampling,
            InputElement::Auto => self.buttons.auto,
            InputElement::PedalConnected => self.buttons.pedal_connected,
            InputElement::MicrophoneConnected => self.buttons.microphone_connected,
            InputElement::Knob1Touched => self.knobs.knob_1_touched,
            InputElement::Knob2Touched => self.knobs.knob_2_touched,
            InputElement::Knob3Touched => self.knobs.knob_3_touched,
            InputElement::Knob4Touched => self.knobs.knob_4_touched,
            InputElement::Knob5Touched => self.knobs.knob_5_touched,
            InputElement::Knob6Touched => self.knobs.knob_6_touched,
            InputElement::Knob7Touched => self.knobs.knob_7_touched,
            InputElement::Knob8Touched => self.knobs.knob_8_touched,
            InputElement::MainKnobTouched => self.knobs.main_knob_touched,
            _ => false,
        }
    }

    /// The on/off state of `element`; `false` for an element that has none.
    #[verifier::when_used_as_spec(spec_get_button)]
    pub fn get_button(&self, element: &InputElement) -> (b: bool)
        ensures
            b == self.spec_get_button(element),
    {
        match element {
            InputElement::Play => self.buttons.play,
            InputElement::Rec => self.buttons.rec,
            InputElement::Stop => self.buttons.stop,
            InputElement::Restart => self.buttons.restart,
            InputElement::Erase => self.buttons.erase,
            InputElement::Tap => self.buttons.tap,
            InputElement::Follow => self.buttons.follow,
            InputElement::GroupA => self.buttons.group_a,
            InputElement::GroupB => self.buttons.group_b,
            InputElement::GroupC => self.buttons.group_c,
            InputElement::GroupD => self.buttons.group_d,
            InputElement::GroupE => self.buttons.group_e,
            InputElement::GroupF => self.buttons.group_f,
            InputElement::GroupG => self.buttons.group_g,
            InputElement::GroupH => self.buttons.group_h,
            InputElement::Notes => self.buttons.notes,
            InputElement::Volume => self.buttons.volume,
            InputElement::Swing => self.buttons.swing,
            InputElement::Tempo => self.buttons.tempo,
            InputElement::NoteRepeat => self.buttons.note_repeat,
            InputElement::Lock => self.buttons.lock,
            InputElement::PadMode => self.buttons.pad_mode,
            InputElement::Keyboard => self.buttons.keyboard,
            InputElement::Chords => self.buttons.chords,
            InputElement::Step => self.buttons.step,
            InputElement::FixedVel => self.buttons.fixed_vel,
            InputElement::Scene => self.buttons.scene,
            InputElement::Pattern => self.buttons.pattern,
            InputElement::Events => self.buttons.events,
            InputElement::Variation => self.buttons.variation,
            InputElement::Duplicate => self.buttons.duplicate,
            InputElement::Select => self.buttons.select,
            InputElement::Solo => self.buttons.solo,
            InputElement::Mute => self.buttons.mute,
            InputElement::Pitch => self.buttons.pitch,
            InputElement::Mod => self.buttons.mod_,
            InputElement::Perform => self.buttons.perform,
            InputElement::Shift => self.buttons.shift,
            InputElement::EncoderPush => self.buttons.encoder_push,
            InputElement::EncoderUp => self.buttons.encoder_up,
            InputElement::EncoderDown => self.buttons.encoder_down,
            InputElement::EncoderLeft => self.buttons.encoder_left,
            InputElement::EncoderRight => self.buttons.encoder_right,
            InputElement::DisplayButton1 => self.buttons.display_button_1,
            InputElement::DisplayButton2 => self.buttons.display_button_2,
            InputElement::DisplayButton3 => self.buttons.display_button_3,
            InputElement::DisplayButton4 => self.buttons.display_button_4,
            InputElement::DisplayButton5 => self.buttons.display_button_5,
            InputElement::DisplayButton6 => self.buttons.display_button_6,
            InputElement::DisplayButton7 => self.buttons.display_button_7,
            InputElement::DisplayButton8 => self.buttons.display_button_8,
            InputElement::ChannelMidi => self.buttons.channel_midi,
            InputElement::Arranger => self.buttons.arranger,
            InputElement::BrowserPlugin => self.buttons.browser_plugin,
            InputElement::ArrowLeft => self.buttons.arrow_left,
            InputElement::ArrowRight => self.buttons.arrow_right,
            InputElement::FileSave => self.buttons.file_save,
            InputElement::Settings => self.buttons.settings,
            InputElement::Macro => self.buttons.macro_,
            InputElement::Plugin => self.buttons.plugin,
            InputElement::Mixer => self.buttons.mixer,
            InputElement::Sampling => self.buttons.sampling,
            InputElement::Auto => self.buttons.auto,
            InputElement::PedalConnected => self.buttons.pedal_connected,
            InputElement::MicrophoneConnected => self.buttons.microphone_connected,
            InputElement::Knob1Touched => self.knobs.knob_1_touched,
            InputElement::Knob2Touched => self.knobs.knob_2_touched,
            InputElement::Knob3Touched => self.knobs.knob_3_touched,
            InputElement::Knob4Touched => self.knobs.knob_4_touched,
            InputElement::Knob5Touched => self.knobs.knob_5_touched,
            InputElement::Knob6Touched => self.knobs.knob_6_touched,
            InputElement::Knob7Touched => self.knobs.knob_7_touched,
            InputElement::Knob8Touched => self.knobs.knob_8_touched,
            InputElement::MainKnobTouched => self.knobs.main_knob_touched,
            _ => false, // Non-button elements
        }
    }

    /// The numeric value of `element`; 0 for an element that has none.
    pub open spec fn spec_get_value(&self, element: &InputElement) -> u16 {
        match element {
            InputElement::Knob1 => self.knobs.knob_1,
            InputElement::Knob2 => self.knobs.knob_2,
            InputElement::Knob3 => self.knobs.knob_3,
            InputElement::Knob4 => self.knobs.knob_4,
            InputElement::Knob5 => self.knobs.knob_5,
            InputElement::Knob6 => self.knobs.knob_6,
            InputElement::Knob7 => self.knobs.knob_7,
            InputElement::Knob8 => self.knobs.knob_8,
            InputElement::MainEncoder => self.knobs.main_encoder as u16,
            InputElement::MicGain => self.audio.mic_gain,
            InputElement::HeadphoneVolume => self.audio.headphone_volume,
            InputElement::MasterVolume => self.audio.master_volume,
            _ => 0,
        }
    }

    /// The numeric value of `element`; 0 for an element that has none.
    #[verifier::when_used_as_spec(spec_get_value)]
    pub fn get_value(&self, element: &InputElement) -> (v: u16)
        ensures
            v == self.spec_get_value(element),
    {
        match element {
            InputElement::Knob1 => self.knobs.knob_1,
            InputElement::Knob2 => self.knobs.knob_2,
            InputElement::Knob3 => self.knobs.knob_3,
            InputElement::Knob4 => self.knobs.knob_4,
            InputElement::Knob5 => self.knobs.knob_5,
            InputElement::Knob6 => self.knobs.knob_6,
            InputElement::Knob7 => self.knobs.knob_7,
            InputElement::Knob8 => self.knobs.knob_8,
            InputElement::MainEncoder => self.knobs.main_encoder as u16,
            InputElement::MicGain => self.audio.mic_gain,
            InputElement::HeadphoneVolume => self.audio.headphone_volume,
            InputElement::MasterVolume => self.audio.master_volume,
            _ => 0, // Non-value elements
        }
    }
    /// The pressed on/off elements, in reporting order.
    pub open spec fn active_buttons(&self) -> Seq<InputElement> {
        button_order().filter(|e: InputElement| self.spec_get_button(&e))
    }

    /// The pressed on/off elements, in reporting order.
    pub fn get_active_buttons(&self) -> (active: Vec<InputElement>)
        ensures
            active@ == self.active_buttons(),
    {
        let ghost pressed = |e: InputElement| self.spec_get_button(&e);
        let mut active: Vec<InputElement> = Vec::new();
        let mut i: u8 = 0;
        while i < BUTTON_COUNT
            invariant
                i <= BUTTON_COUNT,
                pressed == |e: InputElement| self.spec_get_button(&e),
                active@ == button_order().take(i as int).filter(pressed),
            decreases BUTTON_COUNT - i,
        {
            let element = InputElement::button_at(i);
            proof {
                reveal(Seq::filter);
                assert(button_order().take(i + 1).drop_last() =~= button_order().take(i as int));
            }
            if self.get_button(&element) {
                active.push(element);
            }
            i = i + 1;
        }
        proof {
            assert(button_order().take(BUTTON_COUNT as int) =~= button_order());
        }
        active
    }

    /// The touched knobs with their values: knobs 1 to 8, then the main
    /// encoder.
    pub open spec fn active_knobs(&self) -> Seq<(InputElement, u16)> {
        knob_touch_pairs().filter(|p: (InputElement, InputElement)| self.spec_get_button(&p.1))
            .map_values(|p: (InputElement, InputElement)| (p.0, self.spec_get_value(&p.0)))
    }

    /// The touched knobs with their values.
    pub fn get_active_knobs(&self) -> (active: Vec<(InputElement, u16)>)
        ensures
            active@ == self.active_knobs(),
    {
        let ghost touched = |p: (InputElement, InputElement)| self.spec_get_button(&p.1);
        let ghost valued = |p: (InputElement, InputElement)| (p.0, self.spec_get_value(&p.0));
        let mut active: Vec<(InputElement, u16)> = Vec::new();
        let mut i: u8 = 0;
        while i < 9
            invariant
                i <= 9,
                touched == |p: (InputElement, InputElement)| self.spec_get_button(&p.1),
                valued == |p: (InputElement, InputElement)| (p.0, self.spec_get_value(&p.0)),
                active@ == knob_touch_pairs().take(i as int).filter(touched).map_values(valued),
            decreases 9 - i,
        {
            let knob_element = InputElement::from_index(65 + i);
            let touch_element = InputElement::from_index(74 + i);
            proof {
                reveal(Seq::filter);
                let before = knob_touch_pairs().take(i as int);
                let now = knob_touch_pairs().take(i + 1);
                assert(now.drop_last() =~= before);
                assert(now.last() == (knob_element, touch_element));
                if touched(now.last()) {
                    assert(now.filter(touched).map_values(valued) =~= before.filter(
                        touched,
                    ).map_values(valued).push(valued(now.last())));
                }
            }
            if self.get_button(&touch_element) {
                active.push((knob_element, self.get_value(&knob_element)));
            }
            i = i + 1;
        }
        proof {
            assert(knob_touch_pairs().take(9) =~= knob_touch_pairs());
        }
        active
    }

    /// The audio controls whose level is not zero, with their levels.
    pub open spec fn active_audio(&self) -> Seq<(InputElement, u16)> {
        audio_order().map_values(|e: InputElement| (e, self.spec_get_value(&e))).filter(
            |p: (InputElement, u16)| p.1 > 0,
        )
    }

    /// The audio controls whose level is not zero, with their levels.
    pub fn get_active_audio(&self) -> (active: Vec<(InputElement, u16)>)
        ensures
            active@ == self.active_audio(),
    {
        let ghost valued = |e: InputElement| (e, self.spec_get_value(&e));
        let ghost nonzero = |p: (InputElement, u16)| p.1 > 0;
        let mut active: Vec<(InputElement, u16)> = Vec::new();
        let mut i: u8 = 0;
        while i < 3
            invariant
                i <= 3,
                valued == |e: InputElement| (e, self.spec_get_value(&e)),
                nonzero == |p: (InputElement, u16)| p.1 > 0,
                active@ == audio_order().take(i as int).map_values(valued).filter(nonzero),
            decreases 3 - i,
        {
            let element = InputElement::from_index(83 + i);
            let value = self.get_value(&element);
            proof {
                reveal(Seq::filter);
                let before = audio_order().take(i as int).map_values(valued);
                let now = audio_order().take(i + 1).map_values(valued);
                assert(now.drop_last() =~= before);
                assert(now.last() == (element, value));
            }
            if value > 0 {
                active.push((element, value));
            }
            i = i + 1;
        }
        proof {
            assert(audio_order().take(3) =~= audio_order());
        }
        active
    }

    /// The raw bytes of both finger slots, if either slot's first byte is not
    /// zero.
    pub fn get_touch_strip_data(&self) -> (r: Option<((u8, u8, u8, u8), (u8, u8, u8, u8))>)
        ensures
            r is Some <==> (self.touch_strip.finger_1.data_a > 0 || self.touch_strip.finger_2.data_a
                > 0),
            r matches Some(fingers) ==> {
                &&& fingers.0 == (
                    self.touch_strip.finger_1.data_a,
                    self.touch_strip.finger_1.data_b,
                    self.touch_strip.finger_1.data_c,
                    self.touch_strip.finger_1.data_d,
                )
                &&& fingers.1 == (
                    self.touch_strip.finger_2.data_a,
                    self.touch_strip.finger_2.data_b,
                    self.touch_strip.finger_2.data_c,
                    self.touch_strip.finger_2.data_d,
                )
            },
    {
        if self.touch_strip.finger_1.data_a > 0 || self.touch_strip.finger_2.data_a > 0 {
            Some(
                (
                    (
                        self.touch_strip.finger_1.data_a,
                        self.touch_strip.finger_1.data_b,
                        self.touch_strip.finger_1.data_c,
                        self.touch_strip.finger_1.data_d,
                    ),
                    (
                        self.touch_strip.finger_2.data_a,
                        self.touch_strip.finger_2.data_b,
                        self.touch_strip.finger_2.data_c,
                        self.touch_strip.finger_2.data_d,
                    ),
                ),
            )
        } else {
            None
        }
    }
}

impl PadState {
    /// Decodes a pad packet.
    ///
    /// Succeeds exactly on non-empty packets whose first byte is 0x02. The
    /// record count is implicit: scanning stops, without error, at the first
    /// record that names no pad.
    pub fn from_pad_packet(data: &[u8]) -> (r: Result<Self>)
        ensures
            r is Ok <==> data@.len() > 0 && data@[0] == PAD_PACKET_TAG,
            match r {
                Ok(state) => decode_pad_packet(data@) == Ok::<Seq<PadHit>, MK3Error>(state.hits@),
                Err(e) => e == MK3Error::InvalidPacket,
            },
            r matches Ok(state) ==> forall|i: int|
                0 <= i < state.hits@.len() ==> (#[trigger] state.hits@[i]).pad_number
                    <= MAX_PAD_NUMBER,
    {
        if data.len() == 0 || data[0] != PAD_PACKET_TAG {
            return Err(MK3Error::InvalidPacket);
        }
        let mut hits: Vec<PadHit> = Vec::new();
        let mut offset: usize = 1;
        while data.len() - offset > 2
            invariant
                1 <= offset <= data@.len(),
                data@[0] == PAD_PACKET_TAG,
                scan_pad_records(data@, 1) == hits@ + scan_pad_records(data@, offset as int),
            decreases data@.len() - offset,
        {
            let pad_number = data[offset];
            let data_a = data[offset + 1];
            let data_b = data[offset + 2];

            // Skip padding entries (all zeros)
            if pad_number == 0 && data_a == 0 && data_b == 0 {
                offset = offset + 3;
                continue;
            }
            if pad_number <= MAX_PAD_NUMBER {
                hits.push(PadHit { pad_number, data_a, data_b });
                proof {
                    assert(hits@ + scan_pad_records(data@, offset + 3) =~= hits@.drop_last() + (
                    seq![PadHit { pad_number, data_a, data_b }] + scan_pad_records(
                        data@,
                        offset + 3,
                    )));
                }
            } else {
                // End of pad data
                proof {
                    assert(hits@ + Seq::<PadHit>::empty() =~= hits@);
                    lemma_scanned_pads_in_range(data@, 1);
                }
                return Ok(PadState { hits });
            }
            offset = offset + 3;
        }
        proof {
            assert(hits@ + Seq::<PadHit>::empty() =~= hits@);
            lemma_scanned_pads_in_range(data@, 1);
        }
        Ok(PadState { hits })
    }
}

} // verus!
