use mipidsi::{
    pico1_offset, y80_offset, ColorOrder, DcsCommand, DisplayBuilder, ModelOptions, Orientation,
    SetAddressMode, WindowOffset, ST7789,
};

const ORIENTATIONS: [Orientation; 8] = [
    Orientation::Portrait(false),
    Orientation::Portrait(true),
    Orientation::Landscape(false),
    Orientation::Landscape(true),
    Orientation::PortraitInverted(false),
    Orientation::PortraitInverted(true),
    Orientation::LandscapeInverted(false),
    Orientation::LandscapeInverted(true),
];

fn quarter_turn(o: Orientation) -> Orientation {
    match o {
        Orientation::Portrait(m) => Orientation::Landscape(m),
        Orientation::Landscape(m) => Orientation::Portrait(m),
        Orientation::PortraitInverted(m) => Orientation::LandscapeInverted(m),
        Orientation::LandscapeInverted(m) => Orientation::PortraitInverted(m),
    }
}

fn flipped(o: Orientation) -> Orientation {
    match o {
        Orientation::Portrait(m) => Orientation::PortraitInverted(!m),
        Orientation::Landscape(m) => Orientation::LandscapeInverted(!m),
        Orientation::PortraitInverted(m) => Orientation::Portrait(!m),
        Orientation::LandscapeInverted(m) => Orientation::Landscape(!m),
    }
}

#[test]
fn pico1_offsets() {
    assert_eq!(pico1_offset(Orientation::Portrait(false)), (52, 40));
    assert_eq!(pico1_offset(Orientation::Portrait(true)), (53, 40));
    assert_eq!(pico1_offset(Orientation::Landscape(false)), (40, 52));
    assert_eq!(pico1_offset(Orientation::Landscape(true)), (40, 53));
    assert_eq!(pico1_offset(Orientation::PortraitInverted(false)), (53, 40));
    assert_eq!(pico1_offset(Orientation::PortraitInverted(true)), (52, 40));
    assert_eq!(pico1_offset(Orientation::LandscapeInverted(false)), (40, 53));
    assert_eq!(pico1_offset(Orientation::LandscapeInverted(true)), (40, 52));
}

#[test]
fn y80_offsets() {
    assert_eq!(y80_offset(Orientation::Portrait(false)), (0, 0));
    assert_eq!(y80_offset(Orientation::Portrait(true)), (0, 0));
    assert_eq!(y80_offset(Orientation::Landscape(false)), (0, 0));
    assert_eq!(y80_offset(Orientation::Landscape(true)), (0, 0));
    assert_eq!(y80_offset(Orientation::PortraitInverted(false)), (0, 80));
    assert_eq!(y80_offset(Orientation::PortraitInverted(true)), (0, 80));
    assert_eq!(y80_offset(Orientation::LandscapeInverted(false)), (80, 0));
    assert_eq!(y80_offset(Orientation::LandscapeInverted(true)), (80, 0));
}

#[test]
fn quarter_turn_swaps_offset_axes() {
    for o in ORIENTATIONS {
        let (x, y) = pico1_offset(o);
        assert_eq!(pico1_offset(quarter_turn(o)), (y, x));
        let (x, y) = y80_offset(o);
        assert_eq!(y80_offset(quarter_turn(o)), (y, x));
    }
}

#[test]
fn pico1_flip_keeps_offset() {
    for o in ORIENTATIONS {
        assert_eq!(pico1_offset(flipped(o)), pico1_offset(o));
    }
}

#[test]
fn window_offset_follows_rule_and_orientation() {
    let mut options = ModelOptions::with_all((135, 240), (135, 240), WindowOffset::Pico1);
    assert_eq!(options.window_offset(), (52, 40));
    options.orientation = Orientation::Landscape(true);
    assert_eq!(options.window_offset(), (40, 53));
    options.window_offset = WindowOffset::Y80;
    assert_eq!(options.window_offset(), (0, 0));
    options.orientation = Orientation::LandscapeInverted(false);
    assert_eq!(options.window_offset(), (80, 0));
    options.window_offset = WindowOffset::Zero;
    assert_eq!(options.window_offset(), (0, 0));
}

#[test]
fn with_display_size_defaults() {
    let options = ModelOptions::with_display_size(240, 320);
    assert_eq!(options.display_size, (240, 320));
    assert_eq!(options.framebuffer_size, (240, 320));
    assert_eq!(options.orientation, Orientation::Portrait(false));
    assert_eq!(options.color_order, ColorOrder::Rgb);
    assert!(!options.invert_colors);
    assert_eq!(options.window_offset, WindowOffset::Zero);
}

#[test]
fn address_mode_bytes() {
    let mut options = ModelOptions::with_display_size(240, 320);
    let expected = [0x00u8, 0x40, 0x20, 0x60, 0xC0, 0x80, 0xE0, 0xA0];
    for (o, e) in ORIENTATIONS.iter().zip(expected) {
        options.orientation = *o;
        options.color_order = ColorOrder::Rgb;
        assert_eq!(SetAddressMode::from_options(&options).value(), e);
        options.color_order = ColorOrder::Bgr;
        assert_eq!(SetAddressMode::from_options(&options).value(), e | 0x08);
    }
}

#[test]
fn address_mode_command() {
    let mut options = ModelOptions::with_display_size(240, 320);
    options.orientation = Orientation::Landscape(true);
    options.color_order = ColorOrder::Bgr;
    let madctl = SetAddressMode::from_options(&options);
    assert_eq!(madctl.instruction(), 0x36);
    let mut bytes = [0u8; 2];
    assert_eq!(madctl.fill_params_buf(&mut bytes), 1);
    assert_eq!(bytes, [0x68, 0]);
}

#[test]
fn st7789_variants() {
    let b = DisplayBuilder::<(), ST7789>::st7789(());
    assert_eq!(b.options().display_size, (240, 320));
    assert_eq!(b.options().framebuffer_size, (240, 320));
    assert_eq!(b.options().window_offset, WindowOffset::Zero);

    let b = DisplayBuilder::<(), ST7789>::st7789_240x240(());
    assert_eq!(b.options().display_size, (240, 240));
    assert_eq!(b.options().framebuffer_size, (240, 240));
    assert_eq!(b.options().window_offset, WindowOffset::Zero);

    let b = DisplayBuilder::<(), ST7789>::st7789_240x240_b240x320(());
    assert_eq!(b.options().display_size, (240, 240));
    assert_eq!(b.options().framebuffer_size, (240, 320));
    assert_eq!(b.options().window_offset, WindowOffset::Y80);
    assert_eq!(b.options().window_offset(), (0, 0));

    let b = DisplayBuilder::<u8, ST7789>::st7789_pico1(7u8);
    assert_eq!(b.options().display_size, (135, 240));
    assert_eq!(b.options().framebuffer_size, (135, 240));
    assert_eq!(b.options().window_offset, WindowOffset::Pico1);
    assert_eq!(b.options().window_offset(), (52, 40));
    let (di, model, options) = b.into_parts();
    assert_eq!(di, 7);
    assert_eq!(model.framebuffer_size(), (240, 320));
    assert_eq!(options.orientation, Orientation::Portrait(false));
}
