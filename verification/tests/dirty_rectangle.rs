use maschine3_hal::{
    build_region_packet, convert_rgb888_to_device565, DisplayFramebuffer, MK3Error, ParameterError,
    Rgb565,
};

const WIDTH: usize = 480;
const HEIGHT: usize = 272;
const FRAME: usize = WIDTH * HEIGHT * 3;

fn frame_of(value: u8) -> Vec<u8> {
    vec![value; FRAME]
}

/// Sets the pixel that ends up at (x, y) of the display.
fn set_display_pixel(frame: &mut [u8], x: usize, y: usize, rgb: (u8, u8, u8)) {
    let source_row = HEIGHT - 1 - y;
    let at = (source_row * WIDTH + x) * 3;
    frame[at] = rgb.0;
    frame[at + 1] = rgb.1;
    frame[at + 2] = rgb.2;
}

fn header_fields(packet: &[u8]) -> (u8, usize, usize, usize, usize) {
    let be = |i: usize| (packet[i] as usize) * 256 + packet[i + 1] as usize;
    (packet[2], be(8), be(10), be(12), be(14))
}

#[test]
fn first_frame_is_sent_in_full() {
    let mut fb = DisplayFramebuffer::new();
    assert!(!fb.has_frame());
    let mut frame = frame_of(0);
    set_display_pixel(&mut frame, 0, 0, (255, 0, 0));
    let packet = fb.dirty_rectangle_update(1, &frame).unwrap();
    assert!(fb.has_frame());
    assert_eq!(packet.len(), 28 + WIDTH * HEIGHT * 2);
    assert_eq!(header_fields(&packet), (1, 0, 0, 480, 272));
    // display pixel (0, 0) comes first: the frame was flipped; red in the
    // device's format is 0xE007
    assert_eq!(&packet[20..22], &[0x07, 0xE0]);
    assert_eq!(&packet[22..24], &[0x00, 0x00]);
}

#[test]
fn same_frame_twice_sends_nothing() {
    let mut fb = DisplayFramebuffer::new();
    let mut frame = frame_of(17);
    set_display_pixel(&mut frame, 100, 50, (1, 2, 3));
    assert!(!fb.dirty_rectangle_update(0, &frame).unwrap().is_empty());
    assert_eq!(fb.dirty_rectangle_update(0, &frame).unwrap(), Vec::<u8>::new());
    assert_eq!(fb.dirty_rectangle_update(0, &frame).unwrap(), Vec::<u8>::new());
}

#[test]
fn single_pixel_change_sends_its_grid_block() {
    let mut fb = DisplayFramebuffer::new();
    let mut frame = frame_of(0);
    fb.dirty_rectangle_update(0, &frame).unwrap();
    set_display_pixel(&mut frame, 101, 53, (255, 255, 255));
    let packet = fb.dirty_rectangle_update(0, &frame).unwrap();
    let (display, x, y, width, height) = header_fields(&packet);
    assert_eq!((display, x, y, width, height), (0, 96, 48, 8, 8));
    assert_eq!(packet.len(), 28 + 8 * 8 * 2);
    assert_eq!(&packet[16..20], &[0x00, 0, 0, 32]);
    // only pixel (5, 5) of the block is white
    for row in 0..8 {
        for column in 0..8 {
            let at = 20 + (row * 8 + column) * 2;
            let expected: [u8; 2] = if (column, row) == (5, 5) { [0xFF, 0xFF] } else { [0, 0] };
            assert_eq!(&packet[at..at + 2], &expected);
        }
    }
    assert_eq!(&packet[packet.len() - 8..], &[0x03, 0, 0, 0, 0x40, 0, 0, 0]);
    // the new frame is retained
    assert_eq!(fb.dirty_rectangle_update(0, &frame).unwrap(), Vec::<u8>::new());
}

#[test]
fn every_single_pixel_region_is_grid_aligned() {
    let mut fb = DisplayFramebuffer::new();
    let mut frame = frame_of(0);
    fb.dirty_rectangle_update(0, &frame).unwrap();
    let mut value = 0u8;
    for (px, py) in [(0, 0), (7, 7), (8, 8), (479, 271), (472, 264), (479, 0), (0, 271), (240, 136)] {
        value += 1;
        set_display_pixel(&mut frame, px, py, (value, 0, 0));
        let packet = fb.dirty_rectangle_update(0, &frame).unwrap();
        let (_, x, y, width, height) = header_fields(&packet);
        assert_eq!((x, y, width, height), (px / 8 * 8, py / 8 * 8, 8, 8));
        assert!(x % 8 == 0 && y % 8 == 0 && width >= 8 && height >= 8);
        assert_eq!(packet.len() - 28, width * height * 2);
    }
}

#[test]
fn changes_are_bounded_by_one_aligned_box() {
    let mut fb = DisplayFramebuffer::new();
    let mut frame = frame_of(9);
    fb.dirty_rectangle_update(1, &frame).unwrap();
    set_display_pixel(&mut frame, 10, 100, (0, 0, 0));
    set_display_pixel(&mut frame, 300, 20, (0, 0, 0));
    set_display_pixel(&mut frame, 33, 199, (0, 0, 0));
    let packet = fb.dirty_rectangle_update(1, &frame).unwrap();
    let (display, x, y, width, height) = header_fields(&packet);
    assert_eq!((display, x, y, width, height), (1, 8, 16, 296, 184));
    assert_eq!(packet.len(), 28 + 296 * 184 * 2);
    // the same packet built by hand from the flipped frame
    let mut region = Vec::new();
    for row in 16..200 {
        for column in 8..304 {
            let source_row = HEIGHT - 1 - row;
            let at = (source_row * WIDTH + column) * 3;
            region.extend_from_slice(&frame[at..at + 3]);
        }
    }
    let pixels = convert_rgb888_to_device565(&region, 296, 184, false);
    assert_eq!(packet, build_region_packet(1, 8, 16, 296, 184, &pixels).unwrap());
}

#[test]
fn partial_update_sends_device_pixels() {
    let mut fb = DisplayFramebuffer::new();
    let mut frame = frame_of(0);
    fb.dirty_rectangle_update(0, &frame).unwrap();
    set_display_pixel(&mut frame, 8, 8, (255, 0, 0));
    set_display_pixel(&mut frame, 9, 8, (0, 255, 0));
    set_display_pixel(&mut frame, 8, 9, (0x12, 0x34, 0x56));
    let packet = fb.dirty_rectangle_update(0, &frame).unwrap();
    assert_eq!(header_fields(&packet), (0, 8, 8, 8, 8));
    for row in 0..8usize {
        for column in 0..8usize {
            let rgb: (u8, u8, u8) = match (column, row) {
                (0, 0) => (255, 0, 0),
                (1, 0) => (0, 255, 0),
                (0, 1) => (0x12, 0x34, 0x56),
                _ => (0, 0, 0),
            };
            let pixel = Rgb565::new(rgb.0, rgb.1, rgb.2).value;
            let at = 20 + (row * 8 + column) * 2;
            assert_eq!(&packet[at..at + 2], &[(pixel & 0xFF) as u8, (pixel >> 8) as u8]);
        }
    }
    assert_eq!(&packet[20..24], &[0x07, 0xE0, 0x00, 0x1F]);
    assert_eq!(&packet[36..38], &[0x52, 0x06]);
}

#[test]
fn a_change_in_one_channel_counts() {
    let mut fb = DisplayFramebuffer::new();
    let mut frame = frame_of(0);
    fb.dirty_rectangle_update(0, &frame).unwrap();
    set_display_pixel(&mut frame, 16, 24, (0, 0, 1));
    let packet = fb.dirty_rectangle_update(0, &frame).unwrap();
    assert_eq!(header_fields(&packet), (0, 16, 24, 8, 8));
}

#[test]
fn whole_frame_change_sends_whole_frame_region() {
    let mut fb = DisplayFramebuffer::new();
    fb.dirty_rectangle_update(0, &frame_of(0)).unwrap();
    let packet = fb.dirty_rectangle_update(0, &frame_of(255)).unwrap();
    assert_eq!(header_fields(&packet), (0, 0, 0, 480, 272));
    assert_eq!(packet.len(), 28 + WIDTH * HEIGHT * 2);
}

#[test]
fn bad_display_or_length_is_rejected_and_keeps_the_frame() {
    let mut fb = DisplayFramebuffer::new();
    let frame = frame_of(3);
    assert_eq!(
        fb.dirty_rectangle_update(2, &frame),
        Err(MK3Error::InvalidParameter(ParameterError::DisplayId { display_id: 2 }))
    );
    assert!(!fb.has_frame());
    assert_eq!(
        fb.dirty_rectangle_update(0, &frame[1..]),
        Err(MK3Error::InvalidParameter(ParameterError::Rgb888Length {
            expected: 391680,
            actual: 391679,
        }))
    );
    assert!(!fb.has_frame());
    fb.dirty_rectangle_update(0, &frame).unwrap();
    assert!(fb.dirty_rectangle_update(0, &[]).is_err());
    // still compared with the retained frame
    assert_eq!(fb.dirty_rectangle_update(0, &frame).unwrap(), Vec::<u8>::new());
}
