//! Region updates of a display: pixel conversion, region packets and
//! dirty-rectangle detection against a retained frame.

use vstd::prelude::*;
use vstd::arithmetic::div_mod::lemma_fundamental_div_mod_converse;
use crate::display::{
    be24, blit_bytes, device565, display_header, end_bytes, lemma_row_major_index, push_be24,
    push_command_word, push_header, rgb565x, rgb888_to_rgb565x, Rgb565, COMMAND_BLIT,
    COMMAND_END, COMMAND_TRANSMIT, DISPLAY_HEIGHT, DISPLAY_WIDTH,
};
use crate::error::{MK3Error, ParameterError, Result};

verus! {

/// Highest display id: 0 is the left display, 1 the right.
pub const MAX_DISPLAY_ID: u8 = 1;

/// A packing of an RGB triple into a 16-bit pixel.
#[derive(Debug, Clone, Copy, PartialEq, Eq, Structural)]
pub enum PixelFormat {
    /// The device's format: rotated channels, laid out as
    /// `GGGB BBBB RRRR RGGG`.
    Device565,
    /// The packing without channel rotation.
    Rgb565x,
}

/// The 16-bit pixel for an RGB triple in the given packing.
pub open spec fn packed(format: PixelFormat, r: u8, g: u8, b: u8) -> int {
    match format {
        PixelFormat::Device565 => device565(r, g, b),
        PixelFormat::Rgb565x => rgb565x(r, g, b),
    }
}

/// The 16-bit pixel that pixel `p` of the converted image takes, for an
/// RGB888 image of `width` by `height` pixels in row-major order. With
/// `flip_y`, row `y` of the result is row `height - 1 - y` of the source.
pub open spec fn converted_pixel_as(
    format: PixelFormat,
    rgb: Seq<u8>,
    width: int,
    height: int,
    flip_y: bool,
    p: int,
) -> int {
    let y = p / width;
    let x = p % width;
    let src_y = if flip_y {
        height - 1 - y
    } else {
        y
    };
    let src = (src_y * width + x) * 3;
    packed(format, rgb[src], rgb[src + 1], rgb[src + 2])
}

/// An RGB888 image converted to 16-bit pixels in the given packing: two
/// bytes per pixel, low byte first.
pub open spec fn converted_as(
    format: PixelFormat,
    rgb: Seq<u8>,
    width: int,
    height: int,
    flip_y: bool,
) -> Seq<u8> {
    Seq::new(
        (width * height * 2) as nat,
        |k: int|
            if k % 2 == 0 {
                (converted_pixel_as(format, rgb, width, height, flip_y, k / 2) % 256) as u8
            } else {
                (converted_pixel_as(format, rgb, width, height, flip_y, k / 2) / 256) as u8
            },
    )
}

/// An RGB888 image converted to the device's pixel format: two bytes per
/// pixel, low byte first.
pub open spec fn converted(rgb: Seq<u8>, width: int, height: int, flip_y: bool) -> Seq<u8> {
    converted_as(PixelFormat::Device565, rgb, width, height, flip_y)
}

/// Packs an RGB triple into a 16-bit pixel.
fn pack_pixel(format: PixelFormat, r: u8, g: u8, b: u8) -> (pixel: u16)
    ensures
        pixel == packed(format, r, g, b),
{
    match format {
        PixelFormat::Device565 => Rgb565::new(r, g, b).value,
        PixelFormat::Rgb565x => rgb888_to_rgb565x(r, g, b),
    }
}

/// Converts an RGB888 image (three bytes per pixel: R, G, B) to the device's
/// pixel format (two bytes per pixel, little-endian), optionally flipping it
/// vertically.
pub fn convert_rgb888_to_device565(rgb888_data: &[u8], width: usize, height: usize, flip_y: bool) -> (out:
    Vec<u8>)
    requires
        rgb888_data@.len() == width * height * 3,
    ensures
        out@ == converted(rgb888_data@, width as int, height as int, flip_y),
        out@.len() == width * height * 2,
{
    convert_rgb888(PixelFormat::Device565, rgb888_data, width, height, flip_y)
}

/// Converts an RGB888 image (three bytes per pixel: R, G, B) to 16-bit
/// pixels packed without channel rotation (two bytes per pixel,
/// little-endian), optionally flipping it vertically.
pub fn convert_rgb888_to_rgb565x(rgb888_data: &[u8], width: usize, height: usize, flip_y: bool) -> (out:
    Vec<u8>)
    requires
        rgb888_data@.len() == width * height * 3,
    ensures
        out@ == converted_as(
            PixelFormat::Rgb565x,
            rgb888_data@,
            width as int,
            height as int,
            flip_y,
        ),
        out@.len() == width * height * 2,
{
    convert_rgb888(PixelFormat::Rgb565x, rgb888_data, width, height, flip_y)
}

/// Converts an RGB888 image to 16-bit pixels in the given packing, row by
/// row.
fn convert_rgb888(
    format: PixelFormat,
    rgb888_data: &[u8],
    width: usize,
    height: usize,
    flip_y: bool,
) -> (out: Vec<u8>)
    requires
        rgb888_data@.len() == width * height * 3,
    ensures
        out@ == converted_as(format, rgb888_data@, width as int, height as int, flip_y),
        out@.len() == width * height * 2,
{
    let ghost target = converted_as(format, rgb888_data@, width as int, height as int, flip_y);
    proof {
        assert(width * height >= 0) by (nonlinear_arith)
            requires
                width >= 0,
                height >= 0,
        ;
    }
    let data_len: usize = rgb888_data.len();
    let mut out: Vec<u8> = Vec::new();
    let mut y: usize = 0;
    while y < height
        invariant
            y <= height,
            data_len == rgb888_data@.len() == width * height * 3,
            target == converted_as(format, rgb888_data@, width as int, height as int, flip_y),
            out@.len() == y * width * 2,
            target.len() == width * height * 2,
            forall|k: int| 0 <= k < out@.len() ==> out@[k] == target[k],
        decreases height - y,
    {
        let mut x: usize = 0;
        while x < width
            invariant
                x <= width,
                y < height,
                data_len == rgb888_data@.len() == width * height * 3,
                target == converted_as(format, rgb888_data@, width as int, height as int, flip_y),
                out@.len() == (y * width + x) * 2,
                target.len() == width * height * 2,
                forall|k: int| 0 <= k < out@.len() ==> out@[k] == target[k],
            decreases width - x,
        {
            // Source pixel
            let src_y: usize = if flip_y {
                height - 1 - y
            } else {
                y
            };
            proof {
                lemma_row_major_index(x as int, src_y as int, width as int, height as int);
                lemma_row_major_index(x as int, y as int, width as int, height as int);
                lemma_fundamental_div_mod_converse(y * width + x, width as int, y as int, x as int);
            }
            let src_idx: usize = (src_y * width + x) * 3;
            let r = rgb888_data[src_idx];
            let g = rgb888_data[src_idx + 1];
            let b = rgb888_data[src_idx + 2];
            let pixel: u16 = pack_pixel(format, r, g, b);
            let ghost before = out@;

            // Store as little-endian
            out.push((pixel % 256) as u8);
            out.push((pixel / 256) as u8);
            proof {
                let p = y * width + x;
                assert(pixel == converted_pixel_as(
                    format,
                    rgb888_data@,
                    width as int,
                    height as int,
                    flip_y,
                    p,
                ));
                assert forall|k: int| 0 <= k < out@.len() implies out@[k] == target[k] by {
                    if k < before.len() {
                        assert(out@[k] == before[k]);
                    } else {
                        assert(k / 2 == p);
                    }
                }
            }
            x = x + 1;
        }
        proof {
            assert((y + 1) * width * 2 == (y * width + width) * 2) by (nonlinear_arith);
        }
        y = y + 1;
    }
    proof {
        assert(height * width == width * height) by (nonlinear_arith);
        assert(out@ =~= target);
    }
    out
}

/// Number of pixel pairs that a transmit command declares for
/// `pixel_count` pixels: an odd count is padded with one pixel.
pub open spec fn pair_count(pixel_count: int) -> int {
    (pixel_count + 1) / 2
}

/// The padding after the pixel data of a region: one zero pixel where the
/// pixel count is odd.
pub open spec fn pixel_padding(pixel_count: int) -> Seq<u8> {
    if pixel_count % 2 == 1 {
        seq![0x00u8, 0x00u8]
    } else {
        Seq::empty()
    }
}

/// The first reason, if any, to reject a region update: the display id, then
/// the region's extent, then the length of the pixel data. An empty region
/// may start on the right or bottom edge of the display.
pub open spec fn region_error(
    display_id: u8,
    x: u16,
    y: u16,
    width: u16,
    height: u16,
    data_len: int,
) -> Option<ParameterError> {
    if display_id > MAX_DISPLAY_ID {
        Some(ParameterError::DisplayId { display_id })
    } else if x + width > DISPLAY_WIDTH || y + height > DISPLAY_HEIGHT {
        Some(ParameterError::RegionBounds { x, y, width, height })
    } else if data_len != width * height * 2 {
        Some(
            ParameterError::DataLength {
                expected: (width * height * 2) as u64,
                actual: data_len as u64,
            },
        )
    } else {
        None
    }
}

/// The display packet that updates a region with `pixels` (two bytes per
/// pixel): the header, a transmit command with its pair count, the pixel
/// data, the padding pixel if the count is odd, a blit command and the end
/// command.
pub open spec fn region_packet(
    display_id: u8,
    x: u16,
    y: u16,
    width: u16,
    height: u16,
    pixels: Seq<u8>,
) -> Seq<u8> {
    display_header(display_id, x, y, width, height) + seq![COMMAND_TRANSMIT] + be24(
        pair_count(width * height),
    ) + pixels + pixel_padding(width * height) + blit_bytes() + end_bytes()
}

/// A region packet is 28 bytes longer than its pixel data and padding: 16 of
/// header, 4 of transmit command, 4 of blit and 4 of end.
pub proof fn lemma_region_packet_len(
    display_id: u8,
    x: u16,
    y: u16,
    width: u16,
    height: u16,
    pixels: Seq<u8>,
)
    ensures
        region_packet(display_id, x, y, width, height, pixels).len() == 28 + pixels.len()
            + pixel_padding(width * height).len(),
{
}

/// Builds the display packet that updates the region at (`x`, `y`) of
/// `width` by `height` pixels with `region_data`, two bytes per pixel.
///
/// The region must lie within the display and the data must have exactly
/// two bytes per pixel; anything else is rejected before a byte is produced.
pub fn build_region_packet(
    display_id: u8,
    x: u16,
    y: u16,
    width: u16,
    height: u16,
    region_data: &[u8],
) -> (r: Result<Vec<u8>>)
    ensures
        match r {
            Ok(packet) => region_error(display_id, x, y, width, height, region_data@.len() as int)
                is None && packet@ == region_packet(display_id, x, y, width, height, region_data@),
            Err(e) => region_error(display_id, x, y, width, height, region_data@.len() as int)
                matches Some(reason) && e == MK3Error::InvalidParameter(reason),
        },
        x + width > DISPLAY_WIDTH || y + height > DISPLAY_HEIGHT ==> r is Err,
        r matches Ok(packet) ==> packet@.len() == 28 + region_data@.len() + (if (width * height) % 2
            == 1 {
            2int
        } else {
            0int
        }),
{
    // Validate parameters
    if display_id > MAX_DISPLAY_ID {
        return Err(MK3Error::InvalidParameter(ParameterError::DisplayId { display_id }));
    }
    if x > DISPLAY_WIDTH || width > DISPLAY_WIDTH - x || y > DISPLAY_HEIGHT || height
        > DISPLAY_HEIGHT - y {
        return Err(
            MK3Error::InvalidParameter(ParameterError::RegionBounds { x, y, width, height }),
        );
    }
    assert(width * height <= 480 * 272) by (nonlinear_arith)
        requires
            width <= 480,
            height <= 272,
    ;
    let pixel_count: usize = (width as usize) * (height as usize);
    let expected_size: usize = pixel_count * 2;  // 2 bytes per pixel
    if region_data.len() != expected_size {
        return Err(
            MK3Error::InvalidParameter(
                ParameterError::DataLength {
                    expected: expected_size as u64,
                    actual: region_data.len() as u64,
                },
            ),
        );
    }
    // An odd pixel count is padded with one pixel
    let needs_padding = pixel_count % 2 == 1;
    let mut packet: Vec<u8> = Vec::new();

    // Header with region coordinates
    push_header(&mut packet, display_id, x, y, width, height);

    // Transmit command: the device counts in pixel pairs
    let padded_pixel_count: usize = if needs_padding {
        pixel_count + 1
    } else {
        pixel_count
    };
    let half_pixels: usize = padded_pixel_count / 2;
    packet.push(COMMAND_TRANSMIT);
    push_be24(&mut packet, half_pixels);

    // Pixel data
    let ghost head = packet@;
    packet.extend_from_slice(region_data);
    proof {
        assert(half_pixels == pair_count(width * height));
        assert(packet@ =~= head + region_data@);
    }

    // Pad with one black pixel if the pixel count was odd
    let ghost unpadded = packet@;
    if needs_padding {
        packet.push(0);
        packet.push(0);
    }
    proof {
        assert(packet@ =~= unpadded + pixel_padding(width * height));
    }

    // Blit command, then end command
    push_command_word(&mut packet, COMMAND_BLIT);
    push_command_word(&mut packet, COMMAND_END);
    proof {
        lemma_region_packet_len(display_id, x, y, width, height, region_data@);
        assert(packet@ =~= region_packet(display_id, x, y, width, height, region_data@));
    }
    Ok(packet)
}

/// Number of bytes of a full RGB888 frame: 480 by 272 pixels, three bytes
/// each.
pub const FRAME_BYTES: usize = 391680;

/// Number of bytes of one row of an RGB888 frame.
pub const ROW_BYTES: usize = 1440;

/// Side of the grid blocks that a partial update is aligned to.
pub const BLOCK_SIZE: usize = 8;

/// Smallest width and height of a partial update.
pub const MIN_REGION_SIZE: u16 = 8;

/// A full RGB888 frame flipped vertically: row `y` of the result is row
/// `271 - y` of `frame`.
pub open spec fn flipped(frame: Seq<u8>) -> Seq<u8> {
    Seq::new(
        FRAME_BYTES as nat,
        |k: int| frame[(DISPLAY_HEIGHT - 1 - k / (ROW_BYTES as int)) * ROW_BYTES + k % (ROW_BYTES as int)],
    )
}

/// Whether (`x`, `y`) is a pixel of the display.
pub open spec fn on_screen(x: int, y: int) -> bool {
    0 <= x < DISPLAY_WIDTH && 0 <= y < DISPLAY_HEIGHT
}

/// Whether two full RGB888 frames differ at pixel (`x`, `y`).
pub open spec fn pixel_differs(a: Seq<u8>, b: Seq<u8>, x: int, y: int) -> bool {
    let p = (y * DISPLAY_WIDTH + x) * 3;
    a[p] != b[p] || a[p + 1] != b[p + 1] || a[p + 2] != b[p + 2]
}

/// Whether two full RGB888 frames differ at some pixel.
pub open spec fn frames_differ(a: Seq<u8>, b: Seq<u8>) -> bool {
    exists|x: int, y: int| on_screen(x, y) && #[trigger] pixel_differs(a, b, x, y)
}

/// An axis-aligned box of pixels, by its first and last column and row.
pub struct BoundingBox {
    pub min_x: int,
    pub min_y: int,
    pub max_x: int,
    pub max_y: int,
}

/// Whether two frames differ somewhere in column `x`.
pub open spec fn column_differs(a: Seq<u8>, b: Seq<u8>, x: int) -> bool {
    exists|y: int| on_screen(x, y) && #[trigger] pixel_differs(a, b, x, y)
}

/// Whether two frames differ somewhere in row `y`.
pub open spec fn row_differs(a: Seq<u8>, b: Seq<u8>, y: int) -> bool {
    exists|x: int| on_screen(x, y) && #[trigger] pixel_differs(a, b, x, y)
}

/// Whether `bx` is the bounding box of the pixels at which two frames
/// differ: every differing pixel lies in it, and each of its four edges
/// holds a differing pixel.
pub open spec fn bounds_changes(a: Seq<u8>, b: Seq<u8>, bx: BoundingBox) -> bool {
    &&& on_screen(bx.min_x, bx.min_y)
    &&& on_screen(bx.max_x, bx.max_y)
    &&& forall|x: int, y: int|
        on_screen(x, y) && #[trigger] pixel_differs(a, b, x, y) ==> bx.min_x <= x <= bx.max_x
            && bx.min_y <= y <= bx.max_y
    &&& column_differs(a, b, bx.min_x)
    &&& column_differs(a, b, bx.max_x)
    &&& row_differs(a, b, bx.min_y)
    &&& row_differs(a, b, bx.max_y)
}

/// The bounding box of the pixels at which two frames differ.
pub open spec fn bounding_box(a: Seq<u8>, b: Seq<u8>) -> BoundingBox {
    choose|bx: BoundingBox| bounds_changes(a, b, bx)
}

/// A region of the display, by its top-left corner and its size.
pub struct Region {
    pub x: int,
    pub y: int,
    pub width: int,
    pub height: int,
}

/// The last column or row of the grid block that holds `last`, clamped to
/// the last column or row of the display.
pub open spec fn block_end(last: int, limit: int) -> int {
    let end = ((last + BLOCK_SIZE) / (BLOCK_SIZE as int)) * BLOCK_SIZE - 1;
    if end <= limit - 1 {
        end
    } else {
        limit - 1
    }
}

/// A bounding box grown outward to the 8-pixel grid on all four sides.
pub open spec fn aligned(bx: BoundingBox) -> Region {
    let x = (bx.min_x / (BLOCK_SIZE as int)) * BLOCK_SIZE;
    let y = (bx.min_y / (BLOCK_SIZE as int)) * BLOCK_SIZE;
    Region {
        x,
        y,
        width: block_end(bx.max_x, DISPLAY_WIDTH as int) - x + 1,
        height: block_end(bx.max_y, DISPLAY_HEIGHT as int) - y + 1,
    }
}

/// The RGB888 bytes of a region of a full frame, in row-major order.
pub open spec fn extracted(frame: Seq<u8>, region: Region) -> Seq<u8> {
    Seq::new(
        (region.width * region.height * 3) as nat,
        |k: int|
            {
                let p = k / 3;
                frame[((region.y + p / region.width) * DISPLAY_WIDTH + region.x + p % region.width)
                    * 3 + k % 3]
            },
    )
}

/// The packet that sends a whole frame, given in display space.
pub open spec fn full_frame_packet(display_id: u8, frame: Seq<u8>) -> Seq<u8> {
    region_packet(
        display_id,
        0,
        0,
        DISPLAY_WIDTH,
        DISPLAY_HEIGHT,
        converted(frame, DISPLAY_WIDTH as int, DISPLAY_HEIGHT as int, false),
    )
}

/// The packet that sends one region of a frame, given in display space.
pub open spec fn partial_packet(display_id: u8, frame: Seq<u8>, region: Region) -> Seq<u8> {
    region_packet(
        display_id,
        region.x as u16,
        region.y as u16,
        region.width as u16,
        region.height as u16,
        converted(extracted(frame, region), region.width, region.height, false),
    )
}

/// The bytes to send when `frame` follows the retained frame `previous`.
///
/// The incoming frame is flipped into display space first. Without a
/// retained frame the whole frame is sent. With one, nothing is sent if no
/// pixel differs; otherwise the bounding box of the differing pixels, grown
/// to the 8-pixel grid, is sent, or the whole frame if that region is
/// smaller than 8 pixels in either direction.
pub open spec fn dirty_packet(previous: Option<Seq<u8>>, display_id: u8, frame: Seq<u8>) -> Seq<u8> {
    let now = flipped(frame);
    match previous {
        None => full_frame_packet(display_id, now),
        Some(before) => if !frames_differ(before, now) {
            Seq::empty()
        } else {
            let region = aligned(bounding_box(before, now));
            if region.width < MIN_REGION_SIZE || region.height < MIN_REGION_SIZE {
                full_frame_packet(display_id, now)
            } else {
                partial_packet(display_id, now, region)
            }
        },
    }
}

/// The reason, if any, to reject a full-frame update: the display id, then
/// the length of the frame.
pub open spec fn frame_error(display_id: u8, data_len: int) -> Option<ParameterError> {
    if display_id > MAX_DISPLAY_ID {
        Some(ParameterError::DisplayId { display_id })
    } else if data_len != FRAME_BYTES {
        Some(
            ParameterError::Rgb888Length { expected: FRAME_BYTES as u64, actual: data_len as u64 },
        )
    } else {
        None
    }
}

/// Two frames have at most one bounding box of their differences.
pub proof fn lemma_bounding_box_is_unique(a: Seq<u8>, b: Seq<u8>, p: BoundingBox, q: BoundingBox)
    requires
        bounds_changes(a, b, p),
        bounds_changes(a, b, q),
    ensures
        p == q,
{
}

/// The first differing column at or after `from`, given a differing column
/// `known` to search up to.
proof fn lemma_first_column(a: Seq<u8>, b: Seq<u8>, from: int, known: int) -> (x: int)
    requires
        from <= known,
        column_differs(a, b, known),
    ensures
        from <= x <= known,
        column_differs(a, b, x),
        forall|c: int| from <= c < x ==> !#[trigger] column_differs(a, b, c),
    decreases known - from,
{
    if column_differs(a, b, from) {
        from
    } else {
        lemma_first_column(a, b, from + 1, known)
    }
}

/// The last differing column at or before `from`, given a differing column
/// `known` to search down to.
proof fn lemma_last_column(a: Seq<u8>, b: Seq<u8>, from: int, known: int) -> (x: int)
    requires
        known <= from,
        column_differs(a, b, known),
    ensures
        known <= x <= from,
        column_differs(a, b, x),
        forall|c: int| x < c <= from ==> !#[trigger] column_differs(a, b, c),
    decreases from - known,
{
    if column_differs(a, b, from) {
        from
    } else {
        lemma_last_column(a, b, from - 1, known)
    }
}

/// The first differing row at or after `from`.
proof fn lemma_first_row(a: Seq<u8>, b: Seq<u8>, from: int, known: int) -> (y: int)
    requires
        from <= known,
        row_differs(a, b, known),
    ensures
        from <= y <= known,
        row_differs(a, b, y),
        forall|r: int| from <= r < y ==> !#[trigger] row_differs(a, b, r),
    decreases known - from,
{
    if row_differs(a, b, from) {
        from
    } else {
        lemma_first_row(a, b, from + 1, known)
    }
}

/// The last differing row at or before `from`.
proof fn lemma_last_row(a: Seq<u8>, b: Seq<u8>, from: int, known: int) -> (y: int)
    requires
        known <= from,
        row_differs(a, b, known),
    ensures
        known <= y <= from,
        row_differs(a, b, y),
        forall|r: int| y < r <= from ==> !#[trigger] row_differs(a, b, r),
    decreases from - known,
{
    if row_differs(a, b, from) {
        from
    } else {
        lemma_last_row(a, b, from - 1, known)
    }
}

/// Frames that differ have a bounding box of their differences.
pub proof fn lemma_bounding_box_exists(a: Seq<u8>, b: Seq<u8>)
    requires
        frames_differ(a, b),
    ensures
        bounds_changes(a, b, bounding_box(a, b)),
{
    let (wx, wy) = choose|x: int, y: int| on_screen(x, y) && #[trigger] pixel_differs(a, b, x, y);
    assert(column_differs(a, b, wx));
    assert(row_differs(a, b, wy));
    let min_x = lemma_first_column(a, b, 0, wx);
    let max_x = lemma_last_column(a, b, DISPLAY_WIDTH - 1, wx);
    let min_y = lemma_first_row(a, b, 0, wy);
    let max_y = lemma_last_row(a, b, DISPLAY_HEIGHT - 1, wy);
    let bx = BoundingBox { min_x, min_y, max_x, max_y };
    assert forall|x: int, y: int| on_screen(x, y) && #[trigger] pixel_differs(a, b, x, y) implies min_x
        <= x <= max_x && min_y <= y <= max_y by {
        assert(column_differs(a, b, x));
        assert(row_differs(a, b, y));
    }
    assert(bounds_changes(a, b, bx));
}

/// A bounding box grown to the grid starts and ends on multiples of 8, is at
/// least 8 pixels wide and high, stays on the display and covers the box.
pub proof fn lemma_aligned_region(bx: BoundingBox)
    requires
        on_screen(bx.min_x, bx.min_y),
        on_screen(bx.max_x, bx.max_y),
        bx.min_x <= bx.max_x,
        bx.min_y <= bx.max_y,
    ensures
        aligned(bx).x % 8 == 0,
        aligned(bx).y % 8 == 0,
        aligned(bx).width % 8 == 0,
        aligned(bx).height % 8 == 0,
        aligned(bx).width >= MIN_REGION_SIZE,
        aligned(bx).height >= MIN_REGION_SIZE,
        0 <= aligned(bx).x <= bx.min_x,
        0 <= aligned(bx).y <= bx.min_y,
        bx.max_x < aligned(bx).x + aligned(bx).width <= DISPLAY_WIDTH,
        bx.max_y < aligned(bx).y + aligned(bx).height <= DISPLAY_HEIGHT,
{
}

/// Pixel (`i`, `j`) of a converted image is the device's pixel for the
/// source pixel in the same column and in row `j`, or in row
/// `height - 1 - j` with `flip_y`; it stands at bytes `2 * (j * width + i)`
/// and the next, low byte first.
pub proof fn lemma_converted_pixel(
    rgb: Seq<u8>,
    width: int,
    height: int,
    flip_y: bool,
    i: int,
    j: int,
)
    requires
        0 <= i < width,
        0 <= j < height,
    ensures
        ({
            let out = converted(rgb, width, height, flip_y);
            let at = (j * width + i) * 2;
            let src_row = if flip_y {
                height - 1 - j
            } else {
                j
            };
            let src = (src_row * width + i) * 3;
            let pixel = device565(rgb[src], rgb[src + 1], rgb[src + 2]);
            &&& out.len() == width * height * 2
            &&& 0 <= at && at + 1 < out.len()
            &&& out[at] == pixel % 256
            &&& out[at + 1] == pixel / 256
        }),
{
    let p = j * width + i;
    lemma_row_major_index(i, j, width, height);
    lemma_fundamental_div_mod_converse(p, width, j, i);
    assert(width * height >= 0) by (nonlinear_arith)
        requires
            width >= 0,
            height >= 0,
    ;
    assert((p * 2) / 2 == p && (p * 2 + 1) / 2 == p);
}

/// Byte `k` of the pixel data of a region packet stands at byte `20 + k` of
/// the packet, after the header and the transmit command.
pub proof fn lemma_region_packet_payload(
    display_id: u8,
    x: u16,
    y: u16,
    width: u16,
    height: u16,
    pixels: Seq<u8>,
    k: int,
)
    requires
        0 <= k < pixels.len(),
    ensures
        region_packet(display_id, x, y, width, height, pixels)[20 + k] == pixels[k],
{
    let head = display_header(display_id, x, y, width, height) + seq![COMMAND_TRANSMIT] + be24(
        pair_count(width * height),
    );
    assert(head.len() == 20);
    assert((head + pixels)[20 + k] == pixels[k]);
}

/// A flipped frame holds at display pixel (`x`, `y`) what the frame holds
/// at the same column of row `271 - y`.
pub proof fn lemma_flipped_pixel(frame: Seq<u8>, x: int, y: int, channel: int)
    requires
        on_screen(x, y),
        0 <= channel < 3,
    ensures
        flipped(frame)[(y * DISPLAY_WIDTH + x) * 3 + channel] == frame[((DISPLAY_HEIGHT - 1 - y)
            * DISPLAY_WIDTH + x) * 3 + channel],
{
    let k = (y * DISPLAY_WIDTH + x) * 3 + channel;
    assert(k == y * (ROW_BYTES as int) + (x * 3 + channel));
    assert(k / (ROW_BYTES as int) == y && k % (ROW_BYTES as int) == x * 3 + channel);
}

/// Pixel (`i`, `j`) of a partial update is the device's pixel for the
/// frame's pixel at (`region.x + i`, `region.y + j`); it stands at bytes
/// `20 + 2 * (j * width + i)` and the next of the packet, low byte first.
pub proof fn lemma_partial_packet_pixel(
    display_id: u8,
    frame: Seq<u8>,
    region: Region,
    i: int,
    j: int,
)
    requires
        0 <= i < region.width,
        0 <= j < region.height,
    ensures
        ({
            let packet = partial_packet(display_id, frame, region);
            let at = 20 + (j * region.width + i) * 2;
            let src = ((region.y + j) * DISPLAY_WIDTH + region.x + i) * 3;
            let pixel = device565(frame[src], frame[src + 1], frame[src + 2]);
            &&& packet[at] == pixel % 256
            &&& packet[at + 1] == pixel / 256
        }),
{
    let width = region.width;
    let height = region.height;
    let cut = extracted(frame, region);
    let pixels = converted(cut, width, height, false);
    let p = j * width + i;
    let src = ((region.y + j) * DISPLAY_WIDTH + region.x + i) * 3;
    lemma_converted_pixel(cut, width, height, false, i, j);
    lemma_row_major_index(i, j, width, height);
    lemma_fundamental_div_mod_converse(p, width, j, i);
    assert(cut.len() == width * height * 3) by {
        assert(width * height >= 0) by (nonlinear_arith)
            requires
                width >= 0,
                height >= 0,
        ;
    }
    assert((p * 3) / 3 == p && (p * 3 + 1) / 3 == p && (p * 3 + 2) / 3 == p);
    assert(cut[p * 3] == frame[src]);
    assert(cut[p * 3 + 1] == frame[src + 1]);
    assert(cut[p * 3 + 2] == frame[src + 2]);
    lemma_region_packet_payload(
        display_id,
        region.x as u16,
        region.y as u16,
        width as u16,
        height as u16,
        pixels,
        p * 2,
    );
    lemma_region_packet_payload(
        display_id,
        region.x as u16,
        region.y as u16,
        width as u16,
        height as u16,
        pixels,
        p * 2 + 1,
    );
}

/// Pixel (`x`, `y`) of a full-frame packet is the device's pixel for the
/// frame's pixel there; it stands at bytes `20 + 2 * (y * 480 + x)` and the
/// next of the packet, low byte first.
pub proof fn lemma_full_frame_packet_pixel(display_id: u8, frame: Seq<u8>, x: int, y: int)
    requires
        on_screen(x, y),
    ensures
        ({
            let packet = full_frame_packet(display_id, frame);
            let at = 20 + (y * DISPLAY_WIDTH + x) * 2;
            let src = (y * DISPLAY_WIDTH + x) * 3;
            let pixel = device565(frame[src], frame[src + 1], frame[src + 2]);
            &&& packet[at] == pixel % 256
            &&& packet[at + 1] == pixel / 256
        }),
{
    let pixels = converted(frame, DISPLAY_WIDTH as int, DISPLAY_HEIGHT as int, false);
    lemma_converted_pixel(frame, DISPLAY_WIDTH as int, DISPLAY_HEIGHT as int, false, x, y);
    let p = y * DISPLAY_WIDTH + x;
    lemma_region_packet_payload(display_id, 0, 0, DISPLAY_WIDTH, DISPLAY_HEIGHT, pixels, p * 2);
    lemma_region_packet_payload(
        display_id,
        0,
        0,
        DISPLAY_WIDTH,
        DISPLAY_HEIGHT,
        pixels,
        p * 2 + 1,
    );
}

/// Sending the frame that is already retained sends nothing.
pub proof fn lemma_same_frame_sends_nothing(display_id: u8, frame: Seq<u8>)
    ensures
        dirty_packet(Some(flipped(frame)), display_id, frame) == Seq::<u8>::empty(),
{
}

/// A frame that differs from the retained one is sent as a partial update
/// that is aligned to the 8-pixel grid, is at least 8 pixels wide and high,
/// covers every differing pixel, and carries exactly two bytes per pixel of
/// the region it declares.
pub proof fn lemma_partial_update_is_grid_aligned(before: Seq<u8>, display_id: u8, frame: Seq<u8>)
    requires
        frames_differ(before, flipped(frame)),
    ensures
        ({
            let region = aligned(bounding_box(before, flipped(frame)));
            let packet = dirty_packet(Some(before), display_id, frame);
            &&& region.x % 8 == 0 && region.y % 8 == 0
            &&& region.width % 8 == 0 && region.height % 8 == 0
            &&& region.width >= MIN_REGION_SIZE && region.height >= MIN_REGION_SIZE
            &&& 0 <= region.x && 0 <= region.y
            &&& region.x + region.width <= DISPLAY_WIDTH && region.y + region.height
                <= DISPLAY_HEIGHT
            &&& forall|x: int, y: int|
                on_screen(x, y) && #[trigger] pixel_differs(before, flipped(frame), x, y) ==> region.x
                    <= x < region.x + region.width && region.y <= y < region.y + region.height
            &&& packet == partial_packet(display_id, flipped(frame), region)
            &&& packet.len() == 28 + region.width * region.height * 2
        }),
{
    let now = flipped(frame);
    lemma_bounding_box_exists(before, now);
    let bx = bounding_box(before, now);
    let region = aligned(bx);
    lemma_aligned_region(bx);
    assert(dirty_packet(Some(before), display_id, frame) == partial_packet(display_id, now, region));
    lemma_even_area(region.width, region.height);
    lemma_region_packet_len(
        display_id,
        region.x as u16,
        region.y as u16,
        region.width as u16,
        region.height as u16,
        converted(extracted(now, region), region.width, region.height, false),
    );
}

/// A region whose sides are multiples of 8 holds an even number of pixels.
proof fn lemma_even_area(width: int, height: int)
    requires
        width % 8 == 0,
        height % 8 == 0,
        width >= 8,
        height >= 8,
    ensures
        (width * height) % 2 == 0,
        width * height >= 64,
        width * height * 2 >= 0,
{
    let w8 = width / 8;
    let h8 = height / 8;
    assert(width * height == 64 * (w8 * h8) && w8 * h8 >= 1) by (nonlinear_arith)
        requires
            width == 8 * w8,
            height == 8 * h8,
            w8 >= 1,
            h8 >= 1,
    ;
}

/// Changing a single pixel sends the 8 by 8 grid block that holds it.
pub proof fn lemma_single_pixel_update(
    before: Seq<u8>,
    display_id: u8,
    frame: Seq<u8>,
    px: int,
    py: int,
)
    requires
        on_screen(px, py),
        forall|x: int, y: int|
            on_screen(x, y) ==> (#[trigger] pixel_differs(before, flipped(frame), x, y) <==> x == px
                && y == py),
    ensures
        dirty_packet(Some(before), display_id, frame) == partial_packet(
            display_id,
            flipped(frame),
            Region { x: (px / 8) * 8, y: (py / 8) * 8, width: 8, height: 8 },
        ),
{
    let now = flipped(frame);
    let bx = BoundingBox { min_x: px, min_y: py, max_x: px, max_y: py };
    assert(pixel_differs(before, now, px, py));
    assert(column_differs(before, now, px) && row_differs(before, now, py));
    assert(frames_differ(before, now));
    assert(bounds_changes(before, now, bx));
    lemma_bounding_box_exists(before, now);
    lemma_bounding_box_is_unique(before, now, bx, bounding_box(before, now));
    lemma_partial_update_is_grid_aligned(before, display_id, frame);
}

/// The retained frame of one display: the last frame applied to it, in
/// display space.
pub struct DisplayFramebuffer {
    frame: Option<Vec<u8>>,
}

impl View for DisplayFramebuffer {
    type V = Option<Seq<u8>>;

    closed spec fn view(&self) -> Option<Seq<u8>> {
        match self.frame {
            Some(f) => Some(f@),
            None => None,
        }
    }
}

/// Copies a frame with its rows in reverse order.
fn flip_rows(rgb888_data: &[u8]) -> (out: Vec<u8>)
    requires
        rgb888_data@.len() == FRAME_BYTES,
    ensures
        out@ == flipped(rgb888_data@),
{
    let ghost target = flipped(rgb888_data@);
    let mut out: Vec<u8> = Vec::with_capacity(FRAME_BYTES);
    let mut y: usize = 0;
    while y < DISPLAY_HEIGHT as usize
        invariant
            y <= DISPLAY_HEIGHT,
            rgb888_data@.len() == FRAME_BYTES,
            target == flipped(rgb888_data@),
            out@.len() == y * ROW_BYTES,
            forall|k: int| 0 <= k < out@.len() ==> out@[k] == target[k],
        decreases DISPLAY_HEIGHT - y,
    {
        let src_y: usize = DISPLAY_HEIGHT as usize - 1 - y;
        let src_row_start: usize = src_y * ROW_BYTES;
        let ghost before = out@;
        let row = vstd::slice::slice_subrange(rgb888_data, src_row_start, src_row_start + ROW_BYTES);
        out.extend_from_slice(row);
        proof {
            assert forall|k: int| 0 <= k < out@.len() implies out@[k] == target[k] by {
                if k < before.len() {
                    assert(out@[k] == before[k]);
                } else {
                    assert(out@[k] == row@[k - before.len()]);
                    assert(k / (ROW_BYTES as int) == y);
                    assert(k % (ROW_BYTES as int) == k - before.len());
                }
            }
        }
        y = y + 1;
    }
    proof {
        assert(out@ =~= target);
    }
    out
}

/// The bounding box of the pixels at which two frames differ, if any.
fn scan_changes(before: &Vec<u8>, now: &Vec<u8>) -> (found: Option<(usize, usize, usize, usize)>)
    requires
        before@.len() == FRAME_BYTES,
        now@.len() == FRAME_BYTES,
    ensures
        found is Some <==> frames_differ(before@, now@),
        found matches Some(b) ==> bounds_changes(
            before@,
            now@,
            BoundingBox { min_x: b.0 as int, min_y: b.1 as int, max_x: b.2 as int, max_y: b.3 as int },
        ),
{
    let width: usize = DISPLAY_WIDTH as usize;
    let height: usize = DISPLAY_HEIGHT as usize;
    let mut min_x: usize = width;
    let mut min_y: usize = height;
    let mut max_x: usize = 0;
    let mut max_y: usize = 0;
    let mut has_changes = false;
    // For each edge of the box, the other coordinate of a differing pixel on it.
    let ghost mut at_min_x: int = 0;
    let ghost mut at_max_x: int = 0;
    let ghost mut at_min_y: int = 0;
    let ghost mut at_max_y: int = 0;
    let mut y: usize = 0;
    while y < height
        invariant
            y <= height,
            width == DISPLAY_WIDTH,
            height == DISPLAY_HEIGHT,
            before@.len() == FRAME_BYTES,
            now@.len() == FRAME_BYTES,
            !has_changes ==> min_x == width && min_y == height && max_x == 0 && max_y == 0,
            has_changes ==> min_x <= max_x < width && min_y <= max_y < height,
            has_changes ==> on_screen(min_x as int, at_min_x) && pixel_differs(
                before@,
                now@,
                min_x as int,
                at_min_x,
            ),
            has_changes ==> on_screen(max_x as int, at_max_x) && pixel_differs(
                before@,
                now@,
                max_x as int,
                at_max_x,
            ),
            has_changes ==> on_screen(at_min_y, min_y as int) && pixel_differs(
                before@,
                now@,
                at_min_y,
                min_y as int,
            ),
            has_changes ==> on_screen(at_max_y, max_y as int) && pixel_differs(
                before@,
                now@,
                at_max_y,
                max_y as int,
            ),
            forall|px: int, py: int|
                on_screen(px, py) && py < y && #[trigger] pixel_differs(before@, now@, px, py)
                    ==> has_changes && min_x <= px <= max_x && min_y <= py <= max_y,
        decreases height - y,
    {
        let mut x: usize = 0;
        while x < width
            invariant
                x <= width,
                y < height,
                width == DISPLAY_WIDTH,
                height == DISPLAY_HEIGHT,
                before@.len() == FRAME_BYTES,
                now@.len() == FRAME_BYTES,
                !has_changes ==> min_x == width && min_y == height && max_x == 0 && max_y == 0,
                has_changes ==> min_x <= max_x < width && min_y <= max_y < height,
                has_changes ==> on_screen(min_x as int, at_min_x) && pixel_differs(
                    before@,
                    now@,
                    min_x as int,
                    at_min_x,
                ),
                has_changes ==> on_screen(max_x as int, at_max_x) && pixel_differs(
                    before@,
                    now@,
                    max_x as int,
                    at_max_x,
                ),
                has_changes ==> on_screen(at_min_y, min_y as int) && pixel_differs(
                    before@,
                    now@,
                    at_min_y,
                    min_y as int,
                ),
                has_changes ==> on_screen(at_max_y, max_y as int) && pixel_differs(
                    before@,
                    now@,
                    at_max_y,
                    max_y as int,
                ),
                forall|px: int, py: int|
                    on_screen(px, py) && (py < y || (py == y && px < x)) && #[trigger] pixel_differs(
                        before@,
                        now@,
                        px,
                        py,
                    ) ==> has_changes && min_x <= px <= max_x && min_y <= py <= max_y,
            decreases width - x,
        {
            let pixel_idx: usize = (y * width + x) * 3;

            // Compare RGB values
            if before[pixel_idx] != now[pixel_idx] || before[pixel_idx + 1] != now[pixel_idx + 1]
                || before[pixel_idx + 2] != now[pixel_idx + 2] {
                proof {
                    assert(pixel_differs(before@, now@, x as int, y as int));
                    if !has_changes || x < min_x {
                        at_min_x = y as int;
                    }
                    if !has_changes || x > max_x {
                        at_max_x = y as int;
                    }
                    if !has_changes || y < min_y {
                        at_min_y = x as int;
                    }
                    if !has_changes || y > max_y {
                        at_max_y = x as int;
                    }
                }
                has_changes = true;
                if x < min_x {
                    min_x = x;
                }
                if y < min_y {
                    min_y = y;
                }
                if x > max_x {
                    max_x = x;
                }
                if y > max_y {
                    max_y = y;
                }
            } else {
                proof {
                    assert(!pixel_differs(before@, now@, x as int, y as int));
                }
            }
            x = x + 1;
        }
        y = y + 1;
    }
    if has_changes {
        proof {
            assert(pixel_differs(before@, now@, min_x as int, at_min_x));
            assert(column_differs(before@, now@, min_x as int));
            assert(pixel_differs(before@, now@, max_x as int, at_max_x));
            assert(column_differs(before@, now@, max_x as int));
            assert(pixel_differs(before@, now@, at_min_y, min_y as int));
            assert(row_differs(before@, now@, min_y as int));
            assert(pixel_differs(before@, now@, at_max_y, max_y as int));
            assert(row_differs(before@, now@, max_y as int));
        }
        Some((min_x, min_y, max_x, max_y))
    } else {
        None
    }
}

/// Copies the RGB888 bytes of a region out of a full frame.
fn extract_region(frame: &Vec<u8>, x: usize, y: usize, width: usize, height: usize) -> (out: Vec<u8>)
    requires
        frame@.len() == FRAME_BYTES,
        0 < width,
        x + width <= DISPLAY_WIDTH,
        y + height <= DISPLAY_HEIGHT,
    ensures
        out@ == extracted(
            frame@,
            Region { x: x as int, y: y as int, width: width as int, height: height as int },
        ),
        out@.len() == width * height * 3,
{
    let ghost region = Region {
        x: x as int,
        y: y as int,
        width: width as int,
        height: height as int,
    };
    let ghost target = extracted(frame@, region);
    proof {
        assert(width * height >= 0) by (nonlinear_arith)
            requires
                width >= 0,
                height >= 0,
        ;
    }
    let mut out: Vec<u8> = Vec::new();
    let mut row: usize = 0;
    while row < height
        invariant
            row <= height,
            frame@.len() == FRAME_BYTES,
            0 < width,
            x + width <= DISPLAY_WIDTH,
            y + height <= DISPLAY_HEIGHT,
            region == (Region { x: x as int, y: y as int, width: width as int, height: height as int }),
            target == extracted(frame@, region),
            target.len() == width * height * 3,
            out@.len() == row * width * 3,
            forall|k: int| 0 <= k < out@.len() ==> out@[k] == target[k],
        decreases height - row,
    {
        let mut column: usize = 0;
        while column < width
            invariant
                column <= width,
                row < height,
                frame@.len() == FRAME_BYTES,
                0 < width,
                x + width <= DISPLAY_WIDTH,
                y + height <= DISPLAY_HEIGHT,
                region == (Region {
                    x: x as int,
                    y: y as int,
                    width: width as int,
                    height: height as int,
                }),
                target == extracted(frame@, region),
                target.len() == width * height * 3,
                out@.len() == (row * width + column) * 3,
                forall|k: int| 0 <= k < out@.len() ==> out@[k] == target[k],
            decreases width - column,
        {
            let frame_width: usize = DISPLAY_WIDTH as usize;
            assert(frame_width == 480 && y + row < 272 && x + column < 480);
            let pixel_idx: usize = ((y + row) * frame_width + (x + column)) * 3;
            let ghost before = out@;
            out.push(frame[pixel_idx]);
            out.push(frame[pixel_idx + 1]);
            out.push(frame[pixel_idx + 2]);
            proof {
                let p = row * width + column;
                lemma_row_major_index(column as int, row as int, width as int, height as int);
                lemma_fundamental_div_mod_converse(p, width as int, row as int, column as int);
                assert forall|k: int| 0 <= k < out@.len() implies out@[k] == target[k] by {
                    if k < before.len() {
                        assert(out@[k] == before[k]);
                    } else {
                        assert(k / 3 == p);
                    }
                }
            }
            column = column + 1;
        }
        proof {
            assert((row + 1) * width * 3 == (row * width + width) * 3) by (nonlinear_arith);
        }
        row = row + 1;
    }
    proof {
        assert(height * width == width * height) by (nonlinear_arith);
        assert(out@ =~= target);
    }
    out
}

impl DisplayFramebuffer {
    /// A retained frame is a full frame.
    #[verifier::type_invariant]
    spec fn holds_full_frame(&self) -> bool {
        self.frame matches Some(f) ==> f@.len() == FRAME_BYTES
    }

    /// A framebuffer that retains nothing yet.
    pub fn new() -> (fb: Self)
        ensures
            fb@ is None,
    {
        DisplayFramebuffer { frame: None }
    }

    /// Whether a frame is retained.
    pub fn has_frame(&self) -> (b: bool)
        ensures
            b == (self@ is Some),
    {
        self.frame.is_some()
    }

    /// Takes the next full RGB888 frame for the display and returns the bytes
    /// to send, which may be none.
    ///
    /// The frame is flipped vertically into display space, compared with the
    /// retained frame, and retained in its place. A wrong display id or frame
    /// length is rejected and leaves the retained frame as it was.
    pub fn dirty_rectangle_update(&mut self, display_id: u8, rgb888_data: &[u8]) -> (r: Result<
        Vec<u8>,
    >)
        ensures
            match r {
                Ok(bytes) => {
                    &&& frame_error(display_id, rgb888_data@.len() as int) is None
                    &&& bytes@ == dirty_packet(old(self)@, display_id, rgb888_data@)
                    &&& final(self)@ == Some(flipped(rgb888_data@))
                },
                Err(e) => {
                    &&& frame_error(display_id, rgb888_data@.len() as int) matches Some(reason)
                    &&& e == MK3Error::InvalidParameter(reason)
                    &&& final(self)@ == old(self)@
                },
            },
    {
        proof {
            use_type_invariant(&*self);
        }
        if display_id > MAX_DISPLAY_ID {
            return Err(MK3Error::InvalidParameter(ParameterError::DisplayId { display_id }));
        }
        if rgb888_data.len() != FRAME_BYTES {
            return Err(
                MK3Error::InvalidParameter(
                    ParameterError::Rgb888Length {
                        expected: FRAME_BYTES as u64,
                        actual: rgb888_data.len() as u64,
                    },
                ),
            );
        }
        // Flip the incoming frame into display space; everything is stored,
        // compared and sent in that space.
        let flipped_data = flip_rows(rgb888_data);

        let found = match &self.frame {
            // First frame: nothing to compare with, send the full screen
            None => {
                let bytes = match full_frame_bytes(display_id, &flipped_data) {
                    Ok(bytes) => bytes,
                    Err(e) => return Err(e),
                };
                self.frame = Some(flipped_data);
                return Ok(bytes);
            },
            Some(prev_state) => scan_changes(prev_state, &flipped_data),
        };
        let bytes = match found {
            // No changes detected
            None => Vec::new(),
            Some((min_x, min_y, max_x, max_y)) => {
                let ghost bx = BoundingBox {
                    min_x: min_x as int,
                    min_y: min_y as int,
                    max_x: max_x as int,
                    max_y: max_y as int,
                };
                proof {
                    lemma_bounding_box_is_unique(
                        old(self)@->0,
                        flipped_data@,
                        bx,
                        bounding_box(old(self)@->0, flipped_data@),
                    );
                    lemma_aligned_region(bx);
                }
                // Grow the box to the 8-pixel grid: round the first column and
                // row down,
                let region_x: usize = (min_x / BLOCK_SIZE) * BLOCK_SIZE;
                let region_y: usize = (min_y / BLOCK_SIZE) * BLOCK_SIZE;
                // and the last ones up, clamped to the screen.
                let mut last_x: usize = ((max_x + BLOCK_SIZE) / BLOCK_SIZE) * BLOCK_SIZE - 1;
                if last_x > DISPLAY_WIDTH as usize - 1 {
                    last_x = DISPLAY_WIDTH as usize - 1;
                }
                let mut last_y: usize = ((max_y + BLOCK_SIZE) / BLOCK_SIZE) * BLOCK_SIZE - 1;
                if last_y > DISPLAY_HEIGHT as usize - 1 {
                    last_y = DISPLAY_HEIGHT as usize - 1;
                }
                let dirty_width: u16 = (last_x - region_x + 1) as u16;
                let dirty_height: u16 = (last_y - region_y + 1) as u16;

                if dirty_width < MIN_REGION_SIZE || dirty_height < MIN_REGION_SIZE {
                    // Too small for a reliable partial update: send the full frame
                    match full_frame_bytes(display_id, &flipped_data) {
                        Ok(bytes) => bytes,
                        Err(e) => return Err(e),
                    }
                } else {
                    let dirty_region = extract_region(
                        &flipped_data,
                        region_x,
                        region_y,
                        dirty_width as usize,
                        dirty_height as usize,
                    );
                    let pixels = convert_rgb888_to_device565(
                        dirty_region.as_slice(),
                        dirty_width as usize,
                        dirty_height as usize,
                        false,
                    );
                    match build_region_packet(
                        display_id,
                        region_x as u16,
                        region_y as u16,
                        dirty_width,
                        dirty_height,
                        pixels.as_slice(),
                    ) {
                        Ok(packet) => packet,
                        Err(e) => return Err(e),
                    }
                }
            },
        };
        // The retained frame always becomes the new frame
        self.frame = Some(flipped_data);
        Ok(bytes)
    }
}

/// The packet that sends a whole frame, given in display space.
fn full_frame_bytes(display_id: u8, frame: &Vec<u8>) -> (r: Result<Vec<u8>>)
    requires
        display_id <= MAX_DISPLAY_ID,
        frame@.len() == FRAME_BYTES,
    ensures
        r matches Ok(bytes) && bytes@ == full_frame_packet(display_id, frame@),
{
    let pixels = convert_rgb888_to_device565(
        frame.as_slice(),
        DISPLAY_WIDTH as usize,
        DISPLAY_HEIGHT as usize,
        false,
    );
    build_region_packet(display_id, 0, 0, DISPLAY_WIDTH, DISPLAY_HEIGHT, pixels.as_slice())
}

} // verus!
