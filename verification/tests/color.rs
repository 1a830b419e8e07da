use vga_screen::color::Color;
use vga_screen::color::ColorCode;

fn palette() -> [Color; 16] {
    [
        Color::Black,
        Color::Blue,
        Color::Green,
        Color::Cyan,
        Color::Red,
        Color::Magenta,
        Color::Brown,
        Color::LightGray,
        Color::DarkGray,
        Color::LightBlue,
        Color::LightGreen,
        Color::LightCyan,
        Color::LightRed,
        Color::Pink,
        Color::Yellow,
        Color::White,
    ]
}

#[test]
fn palette_positions_run_from_0_to_15() {
    for (position, color) in palette().iter().enumerate() {
        assert_eq!(color.index() as usize, position);
        assert_eq!(Color::from_index(position as u8), Some(*color));
    }
}

#[test]
fn no_color_beyond_position_15() {
    for position in 16u8..=255 {
        assert_eq!(Color::from_index(position), None);
    }
}

#[test]
fn white_on_black_is_0x0f() {
    assert_eq!(ColorCode::new(Color::White, Color::Black), ColorCode(0x0f));
}

#[test]
fn yellow_on_blue_is_0x1e() {
    assert_eq!(ColorCode::new(Color::Yellow, Color::Blue).0, 0x1e);
}

#[test]
fn black_on_white_is_0xf0() {
    assert_eq!(ColorCode::new(Color::Black, Color::White).0, 0xf0);
}

#[test]
fn packing_puts_background_in_the_high_bits() {
    for foreground in palette() {
        for background in palette() {
            let code = ColorCode::new(foreground, background);
            assert_eq!(code.0, (background.index() << 4) | foreground.index());
        }
    }
}

#[test]
fn unpacking_recovers_every_pair() {
    for foreground in palette() {
        for background in palette() {
            let code = ColorCode::new(foreground, background);
            assert_eq!(code.foreground(), foreground);
            assert_eq!(code.background(), background);
            assert_eq!(code.0 & 0xF, foreground.index());
            assert_eq!(code.0 >> 4, background.index());
        }
    }
}

#[test]
fn every_attribute_byte_names_two_colors() {
    for attribute in 0u8..=255 {
        let code = ColorCode(attribute);
        assert_eq!(ColorCode::new(code.foreground(), code.background()), code);
    }
}
