//! Display pixel format, draw commands and display packets.

use vstd::prelude::*;
use crate::output::RgbColor;

verus! {

/// Display width in pixels.
pub const DISPLAY_WIDTH: u16 = 480;

/// Display height in pixels.
pub const DISPLAY_HEIGHT: u16 = 272;

/// Type tag of a display packet.
pub const DISPLAY_PACKET_TAG: u8 = 0x84;

/// Command code: transmit raw pixels.
pub const COMMAND_TRANSMIT: u8 = 0x00;

/// Command code: repeat two pixels.
pub const COMMAND_REPEAT: u8 = 0x01;

/// Command code: blit what was transmitted.
pub const COMMAND_BLIT: u8 = 0x03;

/// Command code: end of transmission.
pub const COMMAND_END: u8 = 0x40;

/// The device's 16-bit pixel for an RGB triple.
///
/// The channels are rotated first: the device's red field takes the blue
/// input, its green field the red input, its blue field the green input. The
/// fields are then laid out, from the top bit down, as `GGGB BBBB RRRR RGGG`:
/// the top three green bits, five blue bits, the top four red bits, the fifth
/// red bit, and green bits 3 to 5.
pub open spec fn device565(r: u8, g: u8, b: u8) -> int {
    let device_red = b as int;
    let device_green = r as int;
    let device_blue = g as int;
    (device_green / 32) * 8192 + (device_blue / 8) * 256 + (device_red / 16) * 16 + ((device_red
        / 8) % 2) * 8 + (device_green / 8) % 8
}

/// A 16-bit pixel for an RGB triple without channel rotation: green bits 2
/// to 4 on top, then five blue bits, five red bits, and the top three green
/// bits.
///
/// This packing and [`device565`] disagree. [`device565`] is the canonical
/// one: every display path of the library sends it. This one is kept for
/// callers that have to produce it; whether any hardware path expects it is
/// an open question.
pub open spec fn rgb565x(red: u8, green: u8, blue: u8) -> int {
    ((green as int / 4) % 8) * 8192 + (blue as int / 8) * 256 + (red as int / 8) * 8 + green as int
        / 32
}

/// Converts an RGB triple to a 16-bit pixel without channel rotation.
pub fn rgb888_to_rgb565x(red: u8, green: u8, blue: u8) -> (v: u16)
    ensures
        v == rgb565x(red, green, blue),
{
    let r5: u16 = (red >> 3) as u16;
    let g3high: u16 = (green >> 5) as u16;
    let glow: u16 = ((green >> 2) & 7) as u16;
    let b5: u16 = (blue >> 3) as u16;
    let v: u16 = (glow << 13) | (b5 << 8) | (r5 << 3) | g3high;
    assert(v == ((green / 4) % 8) * 8192 + (blue / 8) * 256 + (red / 8) * 8 + green / 32)
        by (bit_vector)
        requires
            v == ((((green >> 2) & 7) as u16) << 13) | (((blue >> 3) as u16) << 8) | (((red >> 3) as u16)
                << 3) | ((green >> 5) as u16),
    ;
    v
}

/// A pixel in the device's 16-bit format.
#[derive(Debug, Clone, Copy, PartialEq, Eq)]
pub struct Rgb565 {
    pub value: u16,
}

impl Rgb565 {
    /// The pixel for an RGB triple.
    pub open spec fn spec_new(r: u8, g: u8, b: u8) -> Rgb565 {
        Rgb565 { value: device565(r, g, b) as u16 }
    }

    /// Converts an RGB triple to the device's pixel format.
    pub fn new(r: u8, g: u8, b: u8) -> (c: Self)
        ensures
            c == Self::spec_new(r, g, b),
            c.value == device565(r, g, b),
    {
        // Channel rotation
        let corrected_r = b;  // Red channel gets blue input
        let corrected_g = r;  // Green channel gets red input
        let corrected_b = g;  // Blue channel gets green input

        // Pack as: GGGB BBBB RRRR RGGG
        let r4: u16 = (corrected_r >> 4) as u16;  // Red high: 4 bits
        let r1: u8 = (corrected_r >> 3) & 0x1;  // Red low: 1 bit
        let b5: u16 = (corrected_b >> 3) as u16;  // Blue: 5 bits
        let g_high: u16 = (corrected_g >> 5) as u16;  // Green high: 3 bits
        let g_low: u8 = (corrected_g >> 3) & 0x7;  // Green low: 3 bits
        let value: u16 = (g_high << 13) | (b5 << 8) | (r4 << 4) | ((r1 as u16) << 3) | (g_low as u16);
        assert(value == (r / 32) * 8192 + (g / 8) * 256 + (b / 16) * 16 + ((b / 8) % 2) * 8 + (r / 8)
            % 8) by (bit_vector)
            requires
                value == (((r >> 5) as u16) << 13) | (((g >> 3) as u16) << 8) | (((b >> 4) as u16) << 4)
                    | ((((b >> 3) & 0x1) as u16) << 3) | (((r >> 3) & 0x7) as u16),
        ;
        Self { value }
    }

    pub fn from_rgb(color: RgbColor) -> (c: Self)
        ensures
            c == Self::spec_new(color.r, color.g, color.b),
    {
        Self::new(color.r, color.g, color.b)
    }

    pub fn black() -> (c: Self)
        ensures
            c == Self::spec_new(0, 0, 0),
    {
        Self::new(0, 0, 0)
    }

    pub fn white() -> (c: Self)
        ensures
            c == Self::spec_new(255, 255, 255),
    {
        Self::new(255, 255, 255)
    }

    pub fn red() -> (c: Self)
        ensures
            c == Self::spec_new(255, 0, 0),
    {
        Self::new(255, 0, 0)
    }

    pub fn green() -> (c: Self)
        ensures
            c == Self::spec_new(0, 255, 0),
    {
        Self::new(0, 255, 0)
    }

    pub fn blue() -> (c: Self)
        ensures
            c == Self::spec_new(0, 0, 255),
    {
        Self::new(0, 0, 255)
    }

    pub fn yellow() -> (c: Self)
        ensures
            c == Self::spec_new(255, 255, 0),
    {
        Self::new(255, 255, 0)
    }

    pub fn magenta() -> (c: Self)
        ensures
            c == Self::spec_new(255, 0, 255),
    {
        Self::new(255, 0, 255)
    }

    pub fn cyan() -> (c: Self)
        ensures
            c == Self::spec_new(0, 255, 255),
    {
        Self::new(0, 255, 255)
    }
}

impl Default for Rgb565 {
    fn default() -> (c: Self)
        ensures
            c.value == 0,
    {
        Rgb565 { value: 0 }
    }
}

/// Generators of display test patterns.
pub struct DisplayGraphics;

impl DisplayGraphics {
    /// The colour of a checkerboard at (`x`, `y`): squares of `square_size`
    /// pixels, `color1` in the top-left square.
    pub open spec fn checker_color(
        x: int,
        y: int,
        square_size: int,
        color1: Rgb565,
        color2: Rgb565,
    ) -> Rgb565 {
        if ((x / square_size) % 2 + (y / square_size) % 2) % 2 == 0 {
            color1
        } else {
            color2
        }
    }

    /// A checkerboard of `width` by `height` pixels in row-major order.
    pub fn checkerboard(
        width: u16,
        height: u16,
        square_size: u16,
        color1: Rgb565,
        color2: Rgb565,
    ) -> (pixels: Vec<Rgb565>)
        requires
            square_size > 0,
        ensures
            pixels@.len() == width * height,
            forall|x: int, y: int|
                0 <= x < width && 0 <= y < height ==> #[trigger] pixels@[y * width + x]
                    == Self::checker_color(x, y, square_size as int, color1, color2),
    {
        let mut pixels: Vec<Rgb565> = Vec::new();
        let mut y: u16 = 0;
        while y < height
            invariant
                y <= height,
                square_size > 0,
                pixels@.len() == y * width,
                forall|px: int, py: int|
                    0 <= px < width && 0 <= py < y ==> #[trigger] pixels@[py * width + px]
                        == Self::checker_color(px, py, square_size as int, color1, color2),
            decreases height - y,
        {
            let mut x: u16 = 0;
            while x < width
                invariant
                    x <= width,
                    y < height,
                    square_size > 0,
                    pixels@.len() == y * width + x,
                    forall|px: int, py: int|
                        0 <= px < width && 0 <= py < y ==> #[trigger] pixels@[py * width + px]
                            == Self::checker_color(px, py, square_size as int, color1, color2),
                    forall|px: int|
                        0 <= px < x ==> #[trigger] pixels@[y * width + px] == Self::checker_color(
                            px,
                            y as int,
                            square_size as int,
                            color1,
                            color2,
                        ),
                decreases width - x,
            {
                let checker_x = (x / square_size) % 2;
                let checker_y = (y / square_size) % 2;
                let color = if (checker_x + checker_y) % 2 == 0 {
                    color1
                } else {
                    color2
                };
                let ghost before = pixels@;
                pixels.push(color);
                proof {
                    assert forall|px: int, py: int| 0 <= px < width && 0 <= py < y implies
                    #[trigger] pixels@[py * width + px] == Self::checker_color(
                        px,
                        py,
                        square_size as int,
                        color1,
                        color2,
                    ) by {
                        lemma_row_major_index(px, py, width as int, y as int);
                        assert(pixels@[py * width + px] == before[py * width + px]);
                    }
                }
                x = x + 1;
            }
            proof {
                assert((y + 1) * width == y * width + width) by (nonlinear_arith);
                assert forall|px: int, py: int| 0 <= px < width && 0 <= py < y + 1 implies
                #[trigger] pixels@[py * width + px] == Self::checker_color(
                    px,
                    py,
                    square_size as int,
                    color1,
                    color2,
                ) by {
                    if py == y {
                    }
                }
            }
            y = y + 1;
        }
        pixels
    }
}

/// A draw command of a display packet.
#[derive(Debug, Clone, PartialEq, Eq)]
pub enum DisplayCommand {
    /// Transmit pixels directly.
    TransmitPixels { pixels: Vec<Rgb565> },
    /// Repeat two pixels `count` times.
    RepeatPixels { pixel1: Rgb565, pixel2: Rgb565, count: u32 },
    /// Blit what was transmitted.
    Blit,
    /// End of transmission.
    EndTransmission,
}

/// The three bytes of a big-endian 24-bit count; higher bits are dropped.
pub open spec fn be24(count: int) -> Seq<u8> {
    seq![((count / 65536) % 256) as u8, ((count / 256) % 256) as u8, (count % 256) as u8]
}

/// The two bytes of a big-endian 16-bit value.
pub open spec fn be16(value: u16) -> Seq<u8> {
    seq![(value / 256) as u8, (value % 256) as u8]
}

/// Pixels on the wire: two bytes each, low byte first.
pub open spec fn pixel_bytes(pixels: Seq<Rgb565>) -> Seq<u8> {
    Seq::new(
        2 * pixels.len(),
        |k: int|
            if k % 2 == 0 {
                (pixels[k / 2].value % 256) as u8
            } else {
                (pixels[k / 2].value / 256) as u8
            },
    )
}

/// The 16-byte header of a display packet: the type tag, a zero, the display
/// id, the constant 0x60, four reserved zero bytes, and the region's x, y,
/// width and height as big-endian 16-bit values.
pub open spec fn display_header(display_id: u8, x: u16, y: u16, width: u16, height: u16) -> Seq<u8> {
    seq![DISPLAY_PACKET_TAG, 0x00, display_id, 0x60, 0x00, 0x00, 0x00, 0x00] + be16(x) + be16(y)
        + be16(width) + be16(height)
}

/// The blit command.
pub open spec fn blit_bytes() -> Seq<u8> {
    seq![COMMAND_BLIT, 0x00, 0x00, 0x00]
}

/// The end command.
pub open spec fn end_bytes() -> Seq<u8> {
    seq![COMMAND_END, 0x00, 0x00, 0x00]
}

impl DisplayCommand {
    /// The command on the wire. A transmit command counts its pixels in
    /// pairs, rounding down; a repeat command carries its count and its two
    /// pixels.
    pub open spec fn bytes(&self) -> Seq<u8> {
        match self {
            DisplayCommand::TransmitPixels { pixels } => seq![COMMAND_TRANSMIT] + be24(
                pixels@.len() as int / 2,
            ) + pixel_bytes(pixels@),
            DisplayCommand::RepeatPixels { pixel1, pixel2, count } => seq![COMMAND_REPEAT] + be24(
                *count as int,
            ) + pixel_bytes(seq![*pixel1, *pixel2]),
            DisplayCommand::Blit => blit_bytes(),
            DisplayCommand::EndTransmission => end_bytes(),
        }
    }
}

/// The commands on the wire, one after another.
pub open spec fn command_bytes(commands: Seq<DisplayCommand>) -> Seq<u8>
    decreases commands.len(),
{
    if commands.len() == 0 {
        Seq::empty()
    } else {
        command_bytes(commands.drop_last()) + commands.last().bytes()
    }
}

/// A display packet as a mathematical value.
pub struct DisplayPacketView {
    /// 0 for the left display, 1 for the right.
    pub display_id: u8,
    pub x_start: u16,
    pub y_start: u16,
    pub width: u16,
    pub height: u16,
    pub commands: Seq<DisplayCommand>,
}

impl DisplayPacketView {
    /// The packet on the wire: the header, then the commands in order.
    pub open spec fn bytes(self) -> Seq<u8> {
        display_header(self.display_id, self.x_start, self.y_start, self.width, self.height)
            + command_bytes(self.commands)
    }

    /// This packet with one more command at the end.
    pub open spec fn with_command(self, command: DisplayCommand) -> DisplayPacketView {
        DisplayPacketView { commands: self.commands.push(command), ..self }
    }
}

/// Builder of display packets: a target region and a list of draw commands.
pub struct DisplayPacket {
    display_id: u8,
    x_start: u16,
    y_start: u16,
    width: u16,
    height: u16,
    commands: Vec<DisplayCommand>,
}

impl View for DisplayPacket {
    type V = DisplayPacketView;

    closed spec fn view(&self) -> DisplayPacketView {
        DisplayPacketView {
            display_id: self.display_id,
            x_start: self.x_start,
            y_start: self.y_start,
            width: self.width,
            height: self.height,
            commands: self.commands@,
        }
    }
}

pub(crate) fn push_be16(packet: &mut Vec<u8>, value: u16)
    ensures
        final(packet)@ == old(packet)@ + be16(value),
{
    packet.push((value / 256) as u8);
    packet.push((value % 256) as u8);
    proof {
        assert(packet@ =~= old(packet)@ + be16(value));
    }
}

pub(crate) fn push_be24(packet: &mut Vec<u8>, count: usize)
    ensures
        final(packet)@ == old(packet)@ + be24(count as int),
{
    packet.push(((count / 65536) % 256) as u8);
    packet.push(((count / 256) % 256) as u8);
    packet.push((count % 256) as u8);
    proof {
        assert(packet@ =~= old(packet)@ + be24(count as int));
    }
}

pub(crate) fn push_pixel(packet: &mut Vec<u8>, pixel: Rgb565)
    ensures
        final(packet)@ == old(packet)@.push((pixel.value % 256) as u8).push(
            (pixel.value / 256) as u8,
        ),
{
    packet.push((pixel.value % 256) as u8);  // low byte first
    packet.push((pixel.value / 256) as u8);
}

pub(crate) fn push_header(packet: &mut Vec<u8>, display_id: u8, x: u16, y: u16, width: u16, height: u16)
    ensures
        final(packet)@ == old(packet)@ + display_header(display_id, x, y, width, height),
{
    let ghost start = packet@;
    packet.push(DISPLAY_PACKET_TAG);
    packet.push(0x00);
    packet.push(display_id);
    packet.push(0x60);
    packet.push(0x00);
    packet.push(0x00);
    packet.push(0x00);
    packet.push(0x00);
    proof {
        assert(packet@ =~= start + seq![
            DISPLAY_PACKET_TAG,
            0x00,
            display_id,
            0x60,
            0x00,
            0x00,
            0x00,
            0x00,
        ]);
    }
    push_be16(packet, x);
    push_be16(packet, y);
    push_be16(packet, width);
    push_be16(packet, height);
    proof {
        assert(packet@ =~= start + display_header(display_id, x, y, width, height));
    }
}

pub(crate) fn push_command_word(packet: &mut Vec<u8>, code: u8)
    ensures
        final(packet)@ == old(packet)@ + seq![code, 0x00u8, 0x00u8, 0x00u8],
{
    packet.push(code);
    packet.push(0x00);
    packet.push(0x00);
    packet.push(0x00);
    proof {
        assert(packet@ =~= old(packet)@ + seq![code, 0x00u8, 0x00u8, 0x00u8]);
    }
}

pub(crate) fn push_pixels(packet: &mut Vec<u8>, pixels: &Vec<Rgb565>)
    ensures
        final(packet)@ == old(packet)@ + pixel_bytes(pixels@),
{
    let ghost start = packet@;
    let mut i: usize = 0;
    while i < pixels.len()
        invariant
            i <= pixels@.len(),
            packet@ == start + pixel_bytes(pixels@.take(i as int)),
        decreases pixels@.len() - i,
    {
        push_pixel(packet, pixels[i]);
        proof {
            assert(packet@ =~= start + pixel_bytes(pixels@.take(i + 1)));
        }
        i = i + 1;
    }
    proof {
        assert(pixels@.take(i as int) =~= pixels@);
    }
}

impl DisplayPacket {
    /// A packet for the given display and region, with no commands yet.
    pub fn new(display_id: u8, x: u16, y: u16, width: u16, height: u16) -> (packet: Self)
        ensures
            packet@ == (DisplayPacketView {
                display_id,
                x_start: x,
                y_start: y,
                width,
                height,
                commands: Seq::empty(),
            }),
    {
        Self { display_id, x_start: x, y_start: y, width, height, commands: Vec::new() }
    }

    /// Appends a command that transmits `pixels`.
    pub fn add_pixels(&mut self, pixels: Vec<Rgb565>)
        ensures
            final(self)@ == old(self)@.with_command(DisplayCommand::TransmitPixels { pixels }),
    {
        self.commands.push(DisplayCommand::TransmitPixels { pixels });
    }

    /// Appends a command that repeats two pixels `count` times.
    pub fn add_repeat(&mut self, pixel1: Rgb565, pixel2: Rgb565, count: u32)
        ensures
            final(self)@ == old(self)@.with_command(
                DisplayCommand::RepeatPixels { pixel1, pixel2, count },
            ),
    {
        self.commands.push(DisplayCommand::RepeatPixels { pixel1, pixel2, count });
    }

    /// Appends a blit command.
    pub fn add_blit(&mut self)
        ensures
            final(self)@ == old(self)@.with_command(DisplayCommand::Blit),
    {
        self.commands.push(DisplayCommand::Blit);
    }

    /// Appends the end command.
    pub fn finish(&mut self)
        ensures
            final(self)@ == old(self)@.with_command(DisplayCommand::EndTransmission),
    {
        self.commands.push(DisplayCommand::EndTransmission);
    }

    /// A full-screen packet: transmit `pixels`, blit, end.
    pub fn full_screen_optimized(display_id: u8, pixels: Vec<Rgb565>) -> (packet: Self)
        ensures
            packet@ == (DisplayPacketView {
                display_id,
                x_start: 0,
                y_start: 0,
                width: DISPLAY_WIDTH,
                height: DISPLAY_HEIGHT,
                commands: seq![
                    DisplayCommand::TransmitPixels { pixels },
                    DisplayCommand::Blit,
                    DisplayCommand::EndTransmission,
                ],
            }),
    {
        let mut packet = Self::new(display_id, 0, 0, DISPLAY_WIDTH, DISPLAY_HEIGHT);
        packet.add_pixels(pixels);
        packet.add_blit();
        packet.finish();
        proof {
            assert(packet@.commands =~= seq![
                DisplayCommand::TransmitPixels { pixels },
                DisplayCommand::Blit,
                DisplayCommand::EndTransmission,
            ]);
        }
        packet
    }

    /// Encodes the packet for the wire.
    pub fn to_packet(&self) -> (packet: Vec<u8>)
        ensures
            packet@ == self@.bytes(),
    {
        let mut packet: Vec<u8> = Vec::new();

        // Header (16 bytes)
        push_header(&mut packet, self.display_id, self.x_start, self.y_start, self.width, self.height);
        let ghost header = packet@;
        proof {
            assert(header =~= display_header(
                self.display_id,
                self.x_start,
                self.y_start,
                self.width,
                self.height,
            ));
        }

        // Commands
        let mut i: usize = 0;
        while i < self.commands.len()
            invariant
                i <= self.commands@.len(),
                packet@ == header + command_bytes(self.commands@.take(i as int)),
            decreases self.commands@.len() - i,
        {
            let ghost before = packet@;
            match &self.commands[i] {
                DisplayCommand::TransmitPixels { pixels } => {
                    // The device counts pixels in pairs
                    let half_pixels: usize = pixels.len() / 2;
                    packet.push(COMMAND_TRANSMIT);
                    push_be24(&mut packet, half_pixels);
                    push_pixels(&mut packet, pixels);
                },
                DisplayCommand::RepeatPixels { pixel1, pixel2, count } => {
                    packet.push(COMMAND_REPEAT);
                    push_be24(&mut packet, *count as usize);
                    // The two pixels to repeat
                    push_pixel(&mut packet, *pixel1);
                    push_pixel(&mut packet, *pixel2);
                },
                DisplayCommand::Blit => {
                    push_command_word(&mut packet, COMMAND_BLIT);
                },
                DisplayCommand::EndTransmission => {
                    push_command_word(&mut packet, COMMAND_END);
                },
            }
            proof {
                assert(self.commands@.take(i + 1).drop_last() =~= self.commands@.take(i as int));
                assert(packet@ =~= before + self.commands@[i as int].bytes());
                assert(packet@ =~= header + command_bytes(self.commands@.take(i + 1)));
            }
            i = i + 1;
        }
        proof {
            assert(self.commands@.take(i as int) =~= self.commands@);
        }
        packet
    }
}

/// A full-screen packet on the wire: the header for the whole display, the
/// transmit command with its pixels, blit and end.
pub proof fn lemma_full_screen_bytes(display_id: u8, pixels: Vec<Rgb565>)
    ensures
        (DisplayPacketView {
            display_id,
            x_start: 0,
            y_start: 0,
            width: DISPLAY_WIDTH,
            height: DISPLAY_HEIGHT,
            commands: seq![
                DisplayCommand::TransmitPixels { pixels },
                DisplayCommand::Blit,
                DisplayCommand::EndTransmission,
            ],
        }).bytes() == display_header(display_id, 0, 0, DISPLAY_WIDTH, DISPLAY_HEIGHT) + seq![
            COMMAND_TRANSMIT,
        ] + be24(pixels@.len() as int / 2) + pixel_bytes(pixels@) + blit_bytes() + end_bytes(),
{
    let commands = seq![
        DisplayCommand::TransmitPixels { pixels },
        DisplayCommand::Blit,
        DisplayCommand::EndTransmission,
    ];
    let two = commands.drop_last();
    let one = two.drop_last();
    assert(one.len() == 1 && one.last() == commands[0]);
    assert(two.len() == 2 && two.last() == commands[1]);
    assert(command_bytes(one.drop_last()) =~= Seq::<u8>::empty());
    assert(command_bytes(one) =~= commands[0].bytes());
    assert(command_bytes(two) =~= commands[0].bytes() + commands[1].bytes());
    assert(command_bytes(commands) =~= commands[0].bytes() + commands[1].bytes()
        + commands[2].bytes());
    assert((DisplayPacketView {
        display_id,
        x_start: 0,
        y_start: 0,
        width: DISPLAY_WIDTH,
        height: DISPLAY_HEIGHT,
        commands,
    }).bytes() =~= display_header(display_id, 0, 0, DISPLAY_WIDTH, DISPLAY_HEIGHT) + seq![
        COMMAND_TRANSMIT,
    ] + be24(pixels@.len() as int / 2) + pixel_bytes(pixels@) + blit_bytes() + end_bytes());
}

/// In a row-major layout, a pixel of an earlier row lies before the start of
/// a later row.
pub proof fn lemma_row_major_index(x: int, y: int, width: int, rows: int)
    requires
        0 <= x < width,
        0 <= y < rows,
    ensures
        0 <= y * width,
        0 <= y * width + x < rows * width,
        rows * width == width * rows,
{
    assert(rows * width == width * rows) by (nonlinear_arith);
    assert(y * width + x < rows * width) by (nonlinear_arith)
        requires
            0 <= x < width,
            0 <= y < rows,
    ;
    assert(0 <= y * width) by (nonlinear_arith)
        requires
            0 <= y,
            0 < width,
    ;
}

} // verus!
