use maschine3_hal::display::{DISPLAY_HEIGHT, DISPLAY_WIDTH};
use maschine3_hal::{
    build_region_packet, convert_rgb888_to_device565, convert_rgb888_to_rgb565x,
    rgb888_to_rgb565x, DisplayGraphics, DisplayPacket, MK3Error, ParameterError, Rgb565, RgbColor,
};

#[test]
fn device_pixel_rotates_channels_and_packs() {
    assert_eq!(Rgb565::new(0, 0, 0).value, 0x0000);
    assert_eq!(Rgb565::new(255, 255, 255).value, 0xFFFF);
    assert_eq!(Rgb565::new(255, 0, 0).value, 0xE007);
    assert_eq!(Rgb565::new(0, 255, 0).value, 0x1F00);
    assert_eq!(Rgb565::new(0, 0, 255).value, 0x00F8);
    assert_eq!(Rgb565::new(0x12, 0x34, 0x56).value, 0x0652);
}

#[test]
fn named_pixels_match_their_rgb() {
    assert_eq!(Rgb565::black(), Rgb565 { value: 0x0000 });
    assert_eq!(Rgb565::white(), Rgb565 { value: 0xFFFF });
    assert_eq!(Rgb565::red(), Rgb565 { value: 0xE007 });
    assert_eq!(Rgb565::green(), Rgb565 { value: 0x1F00 });
    assert_eq!(Rgb565::blue(), Rgb565 { value: 0x00F8 });
    assert_eq!(Rgb565::yellow(), Rgb565 { value: 0xFF07 });
    assert_eq!(Rgb565::magenta(), Rgb565 { value: 0xE0FF });
    assert_eq!(Rgb565::cyan(), Rgb565 { value: 0x1FF8 });
    assert_eq!(Rgb565::from_rgb(RgbColor::new(255, 0, 0)), Rgb565::red());
    assert_eq!(Rgb565::default(), Rgb565 { value: 0 });
}

#[test]
fn region_pixel_packs_without_rotation() {
    assert_eq!(rgb888_to_rgb565x(0, 0, 0), 0x0000);
    assert_eq!(rgb888_to_rgb565x(255, 255, 255), 0xFFFF);
    assert_eq!(rgb888_to_rgb565x(255, 0, 0), 0x00F8);
    assert_eq!(rgb888_to_rgb565x(0, 255, 0), 0xE007);
    assert_eq!(rgb888_to_rgb565x(0, 0, 255), 0x1F00);
    assert_eq!(rgb888_to_rgb565x(0x12, 0x34, 0x56), 0xAA11);
}

#[test]
fn device_conversion_writes_little_endian_pixels_in_order() {
    // 2 x 2 image: red, green / blue, (0x12, 0x34, 0x56)
    let rgb = [255, 0, 0, 0, 255, 0, 0, 0, 255, 0x12, 0x34, 0x56];
    let plain = convert_rgb888_to_device565(&rgb, 2, 2, false);
    assert_eq!(plain, vec![0x07, 0xE0, 0x00, 0x1F, 0xF8, 0x00, 0x52, 0x06]);
    let flipped = convert_rgb888_to_device565(&rgb, 2, 2, true);
    assert_eq!(flipped, vec![0xF8, 0x00, 0x52, 0x06, 0x07, 0xE0, 0x00, 0x1F]);
    assert_eq!(convert_rgb888_to_device565(&[], 0, 5, true), Vec::<u8>::new());
    // three rows of one pixel
    let column = [255, 255, 255, 0, 0, 0, 255, 0, 0];
    assert_eq!(
        convert_rgb888_to_device565(&column, 1, 3, true),
        vec![0x07, 0xE0, 0x00, 0x00, 0xFF, 0xFF]
    );
}

#[test]
fn conversion_writes_little_endian_pixels_in_order() {
    // 2 x 2 image: red, green / blue, (0x12, 0x34, 0x56)
    let rgb = [255, 0, 0, 0, 255, 0, 0, 0, 255, 0x12, 0x34, 0x56];
    let plain = convert_rgb888_to_rgb565x(&rgb, 2, 2, false);
    assert_eq!(plain, vec![0xF8, 0x00, 0x07, 0xE0, 0x00, 0x1F, 0x11, 0xAA]);
    let flipped = convert_rgb888_to_rgb565x(&rgb, 2, 2, true);
    assert_eq!(flipped, vec![0x00, 0x1F, 0x11, 0xAA, 0xF8, 0x00, 0x07, 0xE0]);
    assert_eq!(convert_rgb888_to_rgb565x(&[], 0, 5, true), Vec::<u8>::new());
}

#[test]
fn checkerboard_alternates_squares() {
    let a = Rgb565 { value: 1 };
    let b = Rgb565 { value: 2 };
    let pixels = DisplayGraphics::checkerboard(4, 3, 2, a, b);
    assert_eq!(pixels, vec![a, a, b, b, a, a, b, b, b, b, a, a]);
    let fine = DisplayGraphics::checkerboard(3, 2, 1, a, b);
    assert_eq!(fine, vec![a, b, a, b, a, b]);
    assert_eq!(DisplayGraphics::checkerboard(0, 7, 1, a, b), vec![]);
}

#[test]
fn display_packet_header_and_commands() {
    let mut packet = DisplayPacket::new(1, 0x0102, 0x0010, 0x01E0, 0x0110);
    packet.add_pixels(vec![Rgb565 { value: 0x1234 }, Rgb565 { value: 0xABCD }, Rgb565 { value: 7 }]);
    packet.add_repeat(Rgb565 { value: 0x0102 }, Rgb565 { value: 0x0304 }, 0x01_02_03_04);
    packet.add_blit();
    packet.finish();
    let bytes = packet.to_packet();
    let expected: Vec<u8> = vec![
        0x84, 0x00, 0x01, 0x60, 0, 0, 0, 0, 0x01, 0x02, 0x00, 0x10, 0x01, 0xE0, 0x01, 0x10,
        // transmit: three pixels are one pair
        0x00, 0x00, 0x00, 0x01, 0x34, 0x12, 0xCD, 0xAB, 0x07, 0x00,
        // repeat: the count keeps its low 24 bits
        0x01, 0x02, 0x03, 0x04, 0x02, 0x01, 0x04, 0x03,
        // blit, end
        0x03, 0, 0, 0, 0x40, 0, 0, 0,
    ];
    assert_eq!(bytes, expected);
}

#[test]
fn empty_display_packet_is_the_header() {
    let bytes = DisplayPacket::new(0, 0, 0, 480, 272).to_packet();
    assert_eq!(bytes, vec![0x84, 0, 0, 0x60, 0, 0, 0, 0, 0, 0, 0, 0, 0x01, 0xE0, 0x01, 0x10]);
}

#[test]
fn full_screen_packet_is_transmit_blit_end() {
    let pixels = vec![Rgb565 { value: 0xE007 }; 480 * 272];
    let bytes = DisplayPacket::full_screen_optimized(1, pixels).to_packet();
    assert_eq!(bytes.len(), 16 + 4 + 480 * 272 * 2 + 8);
    assert_eq!(&bytes[..16], &[0x84, 0, 1, 0x60, 0, 0, 0, 0, 0, 0, 0, 0, 0x01, 0xE0, 0x01, 0x10]);
    // 65280 pairs
    assert_eq!(&bytes[16..20], &[0x00, 0x00, 0xFF, 0x00]);
    assert_eq!(&bytes[20..22], &[0x07, 0xE0]);
    assert_eq!(&bytes[bytes.len() - 8..], &[0x03, 0, 0, 0, 0x40, 0, 0, 0]);
}

#[test]
fn region_packet_layout() {
    let data = [1u8, 2, 3, 4, 5, 6, 7, 8];
    let packet = build_region_packet(1, 8, 16, 2, 2, &data).unwrap();
    assert_eq!(
        packet,
        vec![
            0x84, 0x00, 0x01, 0x60, 0, 0, 0, 0, 0, 8, 0, 16, 0, 2, 0, 2, // header
            0x00, 0, 0, 2, // transmit two pairs
            1, 2, 3, 4, 5, 6, 7, 8, // pixels
            0x03, 0, 0, 0, // blit
            0x40, 0, 0, 0, // end
        ]
    );
}

#[test]
fn odd_pixel_count_is_padded_with_one_pixel() {
    let data = [1u8, 2, 3, 4, 5, 6];
    let packet = build_region_packet(0, 477, 271, 3, 1, &data).unwrap();
    assert_eq!(
        packet,
        vec![
            0x84, 0x00, 0x00, 0x60, 0, 0, 0, 0, 0x01, 0xDD, 0x01, 0x0F, 0, 3, 0, 1, // header
            0x00, 0, 0, 2, // three pixels count as two pairs
            1, 2, 3, 4, 5, 6, 0, 0, // pixels and padding
            0x03, 0, 0, 0, 0x40, 0, 0, 0,
        ]
    );
    assert_eq!(packet.len(), 28 + 6 + 2);
}

#[test]
fn full_region_packet_counts_pairs_in_three_bytes() {
    let data = vec![0u8; 480 * 272 * 2];
    let packet = build_region_packet(0, 0, 0, 480, 272, &data).unwrap();
    assert_eq!(packet.len(), 28 + 480 * 272 * 2);
    assert_eq!(&packet[8..16], &[0, 0, 0, 0, 0x01, 0xE0, 0x01, 0x10]);
    assert_eq!(&packet[16..20], &[0x00, 0x00, 0xFF, 0x00]);
}

#[test]
fn empty_region_is_accepted() {
    let packet = build_region_packet(0, 5, 5, 0, 0, &[]).unwrap();
    assert_eq!(packet.len(), 28);
    assert_eq!(&packet[16..20], &[0, 0, 0, 0]);
}

#[test]
fn empty_region_on_the_display_edge_is_accepted() {
    let right = build_region_packet(1, 480, 0, 0, 0, &[]).unwrap();
    assert_eq!(
        right,
        vec![
            0x84, 0x00, 0x01, 0x60, 0, 0, 0, 0, 0x01, 0xE0, 0, 0, 0, 0, 0, 0, // header
            0x00, 0, 0, 0, // transmit nothing
            0x03, 0, 0, 0, 0x40, 0, 0, 0,
        ]
    );
    let bottom = build_region_packet(0, 0, 272, 0, 0, &[]).unwrap();
    assert_eq!(bottom.len(), 28);
    assert_eq!(&bottom[8..16], &[0, 0, 0x01, 0x10, 0, 0, 0, 0]);
    let corner = build_region_packet(0, 480, 272, 0, 0, &[]).unwrap();
    assert_eq!(&corner[8..16], &[0x01, 0xE0, 0x01, 0x10, 0, 0, 0, 0]);
    // an empty column along the right edge, an empty row along the bottom
    assert!(build_region_packet(0, 480, 0, 0, 272, &[]).is_ok());
    assert!(build_region_packet(0, 0, 272, 480, 0, &[]).is_ok());
}

#[test]
fn region_past_the_right_or_bottom_edge_is_rejected() {
    let data = vec![0u8; 2 * 2 * 2];
    assert_eq!(
        build_region_packet(0, 479, 0, 2, 2, &data),
        Err(MK3Error::InvalidParameter(ParameterError::RegionBounds {
            x: 479,
            y: 0,
            width: 2,
            height: 2,
        }))
    );
    assert_eq!(
        build_region_packet(0, 0, 271, 2, 2, &data),
        Err(MK3Error::InvalidParameter(ParameterError::RegionBounds {
            x: 0,
            y: 271,
            width: 2,
            height: 2,
        }))
    );
    assert_eq!(
        build_region_packet(0, 1, 0, 65535, 1, &data),
        Err(MK3Error::InvalidParameter(ParameterError::RegionBounds {
            x: 1,
            y: 0,
            width: 65535,
            height: 1,
        }))
    );
    assert!(build_region_packet(0, 478, 270, 2, 2, &data).is_ok());
}

#[test]
fn region_errors_are_reported_in_order() {
    let data = vec![0u8; 8];
    assert_eq!(
        build_region_packet(2, 480, 272, 500, 500, &data),
        Err(MK3Error::InvalidParameter(ParameterError::DisplayId { display_id: 2 }))
    );
    assert_eq!(
        build_region_packet(1, 480, 0, 2, 2, &data),
        Err(MK3Error::InvalidParameter(ParameterError::RegionBounds {
            x: 480,
            y: 0,
            width: 2,
            height: 2,
        }))
    );
    assert_eq!(
        build_region_packet(1, 0, 272, 2, 2, &data),
        Err(MK3Error::InvalidParameter(ParameterError::RegionBounds {
            x: 0,
            y: 272,
            width: 2,
            height: 2,
        }))
    );
    assert_eq!(
        build_region_packet(1, 481, 0, 0, 0, &[]),
        Err(MK3Error::InvalidParameter(ParameterError::RegionBounds {
            x: 481,
            y: 0,
            width: 0,
            height: 0,
        }))
    );
    assert_eq!(
        build_region_packet(1, 65535, 65535, 65535, 65535, &[]),
        Err(MK3Error::InvalidParameter(ParameterError::RegionBounds {
            x: 65535,
            y: 65535,
            width: 65535,
            height: 65535,
        }))
    );
    assert_eq!(
        build_region_packet(1, 0, 0, 2, 3, &data),
        Err(MK3Error::InvalidParameter(ParameterError::DataLength { expected: 12, actual: 8 }))
    );
}

#[test]
fn display_size_is_480_by_272() {
    assert_eq!(DISPLAY_WIDTH, 480);
    assert_eq!(DISPLAY_HEIGHT, 272);
}
