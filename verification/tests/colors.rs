use maschine3_hal::{ButtonLedState, MaschineLEDColor, PadLedState, RgbColor};

const PALETTE: [(u8, u8, u8); 17] = [
    (255, 0, 0),
    (255, 165, 0),
    (255, 200, 0),
    (255, 255, 0),
    (128, 255, 0),
    (0, 255, 0),
    (0, 255, 128),
    (0, 255, 255),
    (0, 128, 255),
    (0, 0, 255),
    (128, 0, 255),
    (255, 0, 255),
    (255, 0, 128),
    (255, 128, 255),
    (64, 0, 128),
    (128, 128, 128),
    (255, 255, 255),
];

fn distance_squared(a: (u8, u8, u8), b: (u8, u8, u8)) -> i64 {
    let d = |x: u8, y: u8| (x as i64 - y as i64) * (x as i64 - y as i64);
    d(a.0, b.0) + d(a.1, b.1) + d(a.2, b.2)
}

#[test]
fn off_encodes_as_zero() {
    let off = MaschineLEDColor { index: 0, bright: false };
    assert_eq!(off.to_led_value(), 0);
    assert_eq!(MaschineLEDColor::black().to_led_value(), 0);
    assert_eq!(MaschineLEDColor::default(), off);
}

#[test]
fn led_values_follow_the_formula() {
    let bright = [6, 10, 14, 18, 22, 26, 30, 34, 38, 42, 46, 50, 54, 58, 62, 66, 74];
    let dim = [0, 8, 12, 16, 20, 24, 28, 32, 36, 40, 44, 48, 52, 56, 60, 64, 72];
    for index in 0..17u8 {
        assert_eq!(
            MaschineLEDColor { index, bright: true }.to_led_value(),
            bright[index as usize]
        );
        assert_eq!(
            MaschineLEDColor { index, bright: false }.to_led_value(),
            dim[index as usize]
        );
    }
}

#[test]
fn led_value_is_bounded_and_zero_only_for_off() {
    for index in 0..=255u8 {
        for bright in [false, true] {
            let v = MaschineLEDColor { index, bright }.to_led_value();
            assert!(v <= 74);
            assert_eq!(v == 0, index == 0 && !bright);
        }
    }
}

#[test]
fn led_value_wraps_the_index_at_seventeen() {
    assert_eq!(MaschineLEDColor { index: 17, bright: true }.to_led_value(), 6);
    assert_eq!(MaschineLEDColor { index: 17, bright: false }.to_led_value(), 4);
    assert_eq!(MaschineLEDColor { index: 33, bright: true }.to_led_value(), 74);
}

#[test]
fn new_clamps_the_index() {
    assert_eq!(MaschineLEDColor::new(16, true), MaschineLEDColor { index: 16, bright: true });
    assert_eq!(MaschineLEDColor::new(17, false), MaschineLEDColor { index: 16, bright: false });
    assert_eq!(MaschineLEDColor::new(255, true), MaschineLEDColor { index: 16, bright: true });
    assert_eq!(MaschineLEDColor::new(3, false), MaschineLEDColor { index: 3, bright: false });
}

#[test]
fn named_colors_have_their_palette_index() {
    assert_eq!(MaschineLEDColor::red(true), MaschineLEDColor { index: 0, bright: true });
    assert_eq!(MaschineLEDColor::orange(false), MaschineLEDColor { index: 1, bright: false });
    assert_eq!(MaschineLEDColor::yellow(true).index, 3);
    assert_eq!(MaschineLEDColor::green(true).index, 5);
    assert_eq!(MaschineLEDColor::cyan(true).index, 7);
    assert_eq!(MaschineLEDColor::blue(true).index, 9);
    assert_eq!(MaschineLEDColor::purple(true).index, 10);
    assert_eq!(MaschineLEDColor::magenta(true).index, 11);
    assert_eq!(MaschineLEDColor::pink(true).index, 12);
    assert_eq!(MaschineLEDColor::white(false), MaschineLEDColor { index: 16, bright: false });
    assert_eq!(MaschineLEDColor::black(), MaschineLEDColor { index: 0, bright: false });
}

#[test]
fn black_maps_to_off() {
    assert_eq!(MaschineLEDColor::from_rgb(0, 0, 0), MaschineLEDColor { index: 0, bright: false });
    assert_eq!(MaschineLEDColor::from_rgb(0, 0, 0).to_led_value(), 0);
}

#[test]
fn rgb_maps_to_the_nearest_palette_entry() {
    let cases: [((u8, u8, u8), u8, bool); 12] = [
        ((255, 0, 0), 0, true),
        ((100, 0, 0), 14, false),
        ((127, 0, 127), 14, false),
        ((1, 1, 1), 14, false),
        ((128, 128, 128), 15, true),
        ((255, 182, 0), 1, true),
        ((255, 183, 0), 2, true),
        ((200, 200, 200), 16, true),
        ((191, 191, 191), 15, true),
        ((192, 192, 192), 16, true),
        ((64, 64, 64), 14, false),
        ((0, 0, 1), 14, false),
    ];
    for ((r, g, b), index, bright) in cases {
        assert_eq!(
            MaschineLEDColor::from_rgb(r, g, b),
            MaschineLEDColor { index, bright },
            "{:?}",
            (r, g, b)
        );
    }
}

#[test]
fn ties_go_to_the_lower_index() {
    // (34, 95, 0) is equally far from entries 14 and 15
    assert_eq!(distance_squared((34, 95, 0), PALETTE[14]), distance_squared((34, 95, 0), PALETTE[15]));
    assert_eq!(MaschineLEDColor::from_rgb(34, 95, 0), MaschineLEDColor { index: 14, bright: false });
}

#[test]
fn brightness_follows_the_largest_component() {
    assert!(!MaschineLEDColor::from_rgb(127, 127, 127).bright);
    assert!(MaschineLEDColor::from_rgb(128, 0, 0).bright);
    assert!(MaschineLEDColor::from_rgb(0, 128, 0).bright);
    assert!(MaschineLEDColor::from_rgb(0, 0, 128).bright);
    assert!(!MaschineLEDColor::from_rgb(0, 0, 127).bright);
}

#[test]
fn from_rgb_is_nearest_neighbour_on_a_grid_of_inputs() {
    for r in (0..=255u16).step_by(15) {
        for g in (0..=255u16).step_by(15) {
            for b in (0..=255u16).step_by(15) {
                let rgb = (r as u8, g as u8, b as u8);
                let color = MaschineLEDColor::from_rgb(rgb.0, rgb.1, rgb.2);
                assert!(color.index <= 16);
                if rgb == (0, 0, 0) {
                    assert_eq!(color.to_rgb(), (0, 0, 0));
                    continue;
                }
                let chosen = distance_squared(rgb, PALETTE[color.index as usize]);
                for (j, entry) in PALETTE.iter().enumerate() {
                    let d = distance_squared(rgb, *entry);
                    assert!(chosen <= d);
                    if j < color.index as usize {
                        assert!(chosen < d);
                    }
                }
                if color.bright {
                    assert_eq!(distance_squared(rgb, color.to_rgb()), chosen);
                }
            }
        }
    }
}

#[test]
fn dim_preview_can_be_farther_than_the_palette_entry() {
    let color = MaschineLEDColor::from_rgb(127, 0, 127);
    assert_eq!(color, MaschineLEDColor { index: 14, bright: false });
    assert_eq!(color.to_rgb(), (32, 0, 64));
    assert_eq!(distance_squared((127, 0, 127), PALETTE[14]), 3970);
    assert_eq!(distance_squared((127, 0, 127), color.to_rgb()), 12994);
}

#[test]
fn to_rgb_gives_palette_entry_or_half() {
    assert_eq!(MaschineLEDColor { index: 0, bright: false }.to_rgb(), (0, 0, 0));
    assert_eq!(MaschineLEDColor { index: 0, bright: true }.to_rgb(), (255, 0, 0));
    assert_eq!(MaschineLEDColor { index: 1, bright: true }.to_rgb(), (255, 165, 0));
    assert_eq!(MaschineLEDColor { index: 1, bright: false }.to_rgb(), (127, 82, 0));
    assert_eq!(MaschineLEDColor { index: 16, bright: false }.to_rgb(), (127, 127, 127));
    assert_eq!(MaschineLEDColor { index: 17, bright: true }.to_rgb(), (255, 0, 0));
    for index in 0..17u8 {
        assert_eq!(MaschineLEDColor { index, bright: true }.to_rgb(), PALETTE[index as usize]);
    }
}

#[test]
fn from_brightness_gives_grey_levels() {
    assert_eq!(MaschineLEDColor::from_brightness(0), MaschineLEDColor { index: 0, bright: false });
    assert_eq!(MaschineLEDColor::from_brightness(1), MaschineLEDColor { index: 16, bright: false });
    assert_eq!(MaschineLEDColor::from_brightness(127), MaschineLEDColor { index: 16, bright: false });
    assert_eq!(MaschineLEDColor::from_brightness(128), MaschineLEDColor { index: 16, bright: true });
}

#[test]
fn rgb_color_conversions_agree() {
    let rgb = RgbColor::new(255, 182, 0);
    assert_eq!(rgb, RgbColor { r: 255, g: 182, b: 0 });
    assert_eq!(MaschineLEDColor::from_rgb_color(rgb), MaschineLEDColor { index: 1, bright: true });
    assert_eq!(MaschineLEDColor::from(rgb), MaschineLEDColor { index: 1, bright: true });
    assert_eq!(RgbColor::black(), RgbColor { r: 0, g: 0, b: 0 });
    assert_eq!(RgbColor::white(), RgbColor { r: 255, g: 255, b: 255 });
    assert_eq!(RgbColor::red(), RgbColor { r: 255, g: 0, b: 0 });
    assert_eq!(RgbColor::green(), RgbColor { r: 0, g: 255, b: 0 });
    assert_eq!(RgbColor::blue(), RgbColor { r: 0, g: 0, b: 255 });
    assert_eq!(RgbColor::default(), RgbColor::black());
}

#[test]
fn default_button_led_packet_is_63_bytes_tagged_0x80() {
    let packet = ButtonLedState::default().to_packet();
    assert_eq!(packet.len(), 63);
    assert_eq!(packet[0], 0x80);
    assert!(packet[1..].iter().all(|b| *b == 0));
}

#[test]
fn button_led_packet_has_fixed_offsets() {
    let mut state = ButtonLedState::default();
    state.channel_midi = 1;
    state.plugin_instance = 2;
    state.arranger = 3;
    state.mixer = 4;
    state.browser_plugin = MaschineLEDColor { index: 16, bright: true };
    state.sampler = 6;
    state.macro_set = 12;
    state.display_button_1 = 13;
    state.display_button_8 = 20;
    state.volume = 21;
    state.notes = 29;
    state.group_a = MaschineLEDColor { index: 0, bright: true };
    state.group_h = MaschineLEDColor { index: 1, bright: false };
    state.restart = 38;
    state.play = 42;
    state.rec = 43;
    state.stop = 44;
    state.shift = 45;
    state.fixed_vel = 46;
    state.mute = 58;
    state.nav_up = MaschineLEDColor { index: 5, bright: true };
    state.nav_left = MaschineLEDColor { index: 9, bright: true };
    state.nav_right = MaschineLEDColor { index: 11, bright: false };
    state.nav_down = MaschineLEDColor { index: 16, bright: false };
    let packet = state.to_packet();
    assert_eq!(packet.len(), 63);
    assert_eq!(packet[0], 0x80);
    assert_eq!(&packet[1..=6], &[1, 2, 3, 4, 74, 6]);
    assert_eq!(packet[12], 12);
    assert_eq!(packet[13], 13);
    assert_eq!(packet[20], 20);
    assert_eq!(packet[21], 21);
    assert_eq!(packet[29], 29);
    assert_eq!(packet[30], 6);
    assert_eq!(packet[37], 8);
    assert_eq!(packet[38], 38);
    assert_eq!(&packet[42..=46], &[42, 43, 44, 45, 46]);
    assert_eq!(packet[58], 58);
    assert_eq!(&packet[59..=62], &[26, 42, 48, 72]);
}

#[test]
fn button_led_packet_places_every_field() {
    let mut state = ButtonLedState::default();
    let brightness: [&mut u8; 49] = [
        &mut state.channel_midi,
        &mut state.plugin_instance,
        &mut state.arranger,
        &mut state.mixer,
        &mut state.sampler,
        &mut state.arrow_left,
        &mut state.arrow_right,
        &mut state.file_save,
        &mut state.settings,
        &mut state.auto,
        &mut state.macro_set,
        &mut state.display_button_1,
        &mut state.display_button_2,
        &mut state.display_button_3,
        &mut state.display_button_4,
        &mut state.display_button_5,
        &mut state.display_button_6,
        &mut state.display_button_7,
        &mut state.display_button_8,
        &mut state.volume,
        &mut state.swing,
        &mut state.note_repeat,
        &mut state.tempo,
        &mut state.lock,
        &mut state.pitch,
        &mut state.mod_,
        &mut state.perform,
        &mut state.notes,
        &mut state.restart,
        &mut state.erase,
        &mut state.tap,
        &mut state.follow,
        &mut state.play,
        &mut state.rec,
        &mut state.stop,
        &mut state.shift,
        &mut state.fixed_vel,
        &mut state.pad_mode,
        &mut state.keyboard,
        &mut state.chords,
        &mut state.step,
        &mut state.scene,
        &mut state.pattern,
        &mut state.events,
        &mut state.variation,
        &mut state.duplicate,
        &mut state.select,
        &mut state.solo,
        &mut state.mute,
    ];
    let offsets: [usize; 49] = [
        1, 2, 3, 4, 6, 7, 8, 9, 10, 11, 12, 13, 14, 15, 16, 17, 18, 19, 20, 21, 22, 23, 24, 25, 26,
        27, 28, 29, 38, 39, 40, 41, 42, 43, 44, 45, 46, 47, 48, 49, 50, 51, 52, 53, 54, 55, 56, 57,
        58,
    ];
    for (field, offset) in brightness.into_iter().zip(offsets) {
        *field = 100 + offset as u8;
    }
    let packet = state.to_packet();
    for offset in offsets {
        assert_eq!(packet[offset], 100 + offset as u8);
    }
    for offset in [5usize, 30, 31, 32, 33, 34, 35, 36, 37, 59, 60, 61, 62] {
        assert_eq!(packet[offset], 0);
    }
}

#[test]
fn default_pad_led_packet_is_42_bytes_tagged_0x81() {
    let packet = PadLedState::default().to_packet();
    assert_eq!(packet.len(), 42);
    assert_eq!(packet[0], 0x81);
    assert!(packet[1..].iter().all(|b| *b == 0));
}

#[test]
fn pad_led_packet_puts_strip_then_pads() {
    let mut state = PadLedState::default();
    state.touch_strip_leds[0] = MaschineLEDColor { index: 0, bright: true };
    state.touch_strip_leds[24] = MaschineLEDColor { index: 1, bright: true };
    state.pad_leds[0] = MaschineLEDColor { index: 2, bright: true };
    state.pad_leds[15] = MaschineLEDColor { index: 16, bright: false };
    let packet = state.to_packet();
    assert_eq!(packet.len(), 42);
    assert_eq!(packet[0], 0x81);
    assert_eq!(packet[1], 6);
    assert_eq!(packet[25], 10);
    assert_eq!(packet[26], 14);
    assert_eq!(packet[41], 72);
    assert!(packet[2..25].iter().all(|b| *b == 0));
    assert!(packet[27..41].iter().all(|b| *b == 0));
}
