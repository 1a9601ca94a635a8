use mipidsi::{BitsPerPixel, DcsCommand, PixelFormat, SetPixelFormat};

#[test]
fn colmod_rgb565_is_16bit() {
    let colmod = SetPixelFormat::new(PixelFormat::new(
        BitsPerPixel::Sixteen,
        BitsPerPixel::Sixteen,
    ));

    let mut bytes = [0u8];
    assert_eq!(colmod.fill_params_buf(&mut bytes), 1);
    assert_eq!(bytes, [0b0101_0101u8]);
}

#[test]
fn colmod_rgb666_is_18bit() {
    let colmod = SetPixelFormat::new(PixelFormat::new(
        BitsPerPixel::Eighteen,
        BitsPerPixel::Eighteen,
    ));

    let mut bytes = [0u8];
    assert_eq!(colmod.fill_params_buf(&mut bytes), 1);
    assert_eq!(bytes, [0b0110_0110u8]);
}

#[test]
fn colmod_rgb888_is_24bit() {
    let colmod = SetPixelFormat::new(PixelFormat::new(
        BitsPerPixel::Eighteen,
        BitsPerPixel::TwentyFour,
    ));

    let mut bytes = [0u8];
    assert_eq!(colmod.fill_params_buf(&mut bytes), 1);
    assert_eq!(bytes, [0b0110_0111u8]);
}

#[test]
fn test_pixel_format_as_u8() {
    let pf = PixelFormat::new(BitsPerPixel::Sixteen, BitsPerPixel::TwentyFour);
    assert_eq!(pf.as_u8(), 0b0101_0111);
}

#[test]
fn colmod_instruction_is_3a() {
    let colmod = SetPixelFormat::new(PixelFormat::with_all(BitsPerPixel::Three));
    assert_eq!(colmod.instruction(), 0x3A);
}

#[test]
fn colmod_writes_only_first_byte() {
    let colmod = SetPixelFormat::new(PixelFormat::with_all(BitsPerPixel::Twelve));
    let mut bytes = [0xAAu8, 0xBB, 0xCC];
    assert_eq!(colmod.fill_params_buf(&mut bytes), 1);
    assert_eq!(bytes, [0b0011_0011u8, 0xBB, 0xCC]);
}

#[test]
fn with_all_equals_new_with_same_depths() {
    for bpp in [
        BitsPerPixel::Three,
        BitsPerPixel::Eight,
        BitsPerPixel::Twelve,
        BitsPerPixel::Sixteen,
        BitsPerPixel::Eighteen,
        BitsPerPixel::TwentyFour,
    ] {
        assert_eq!(PixelFormat::with_all(bpp), PixelFormat::new(bpp, bpp));
    }
}

#[test]
fn depth_codes() {
    assert_eq!(BitsPerPixel::Three.code(), 0b001);
    assert_eq!(BitsPerPixel::Eight.code(), 0b010);
    assert_eq!(BitsPerPixel::Twelve.code(), 0b011);
    assert_eq!(BitsPerPixel::Sixteen.code(), 0b101);
    assert_eq!(BitsPerPixel::Eighteen.code(), 0b110);
    assert_eq!(BitsPerPixel::TwentyFour.code(), 0b111);
}

#[test]
fn colmod_byte_determines_both_depths() {
    let all = [
        BitsPerPixel::Three,
        BitsPerPixel::Eight,
        BitsPerPixel::Twelve,
        BitsPerPixel::Sixteen,
        BitsPerPixel::Eighteen,
        BitsPerPixel::TwentyFour,
    ];
    for a in all {
        for b in all {
            let byte = PixelFormat::new(a, b).as_u8();
            assert_eq!(byte >> 4, a.code());
            assert_eq!(byte & 0x0F, b.code());
            for c in all {
                for d in all {
                    if PixelFormat::new(c, d).as_u8() == byte {
                        assert_eq!((c, d), (a, b));
                    }
                }
            }
        }
    }
}

#[test]
fn depth_from_bit_count() {
    assert_eq!(BitsPerPixel::from_bit_count(3), Some(BitsPerPixel::Three));
    assert_eq!(BitsPerPixel::from_bit_count(8), Some(BitsPerPixel::Eight));
    assert_eq!(BitsPerPixel::from_bit_count(12), Some(BitsPerPixel::Twelve));
    assert_eq!(BitsPerPixel::from_bit_count(16), Some(BitsPerPixel::Sixteen));
    assert_eq!(BitsPerPixel::from_bit_count(18), Some(BitsPerPixel::Eighteen));
    assert_eq!(BitsPerPixel::from_bit_count(24), Some(BitsPerPixel::TwentyFour));
    assert_eq!(BitsPerPixel::from_bit_count(15), None);
    assert_eq!(BitsPerPixel::from_bit_count(0), None);
}

#[test]
fn depth_from_channel_maxima() {
    assert_eq!(BitsPerPixel::from_channel_maxima(31, 63, 31), Some(BitsPerPixel::Sixteen));
    assert_eq!(BitsPerPixel::from_channel_maxima(63, 63, 63), Some(BitsPerPixel::Eighteen));
    assert_eq!(BitsPerPixel::from_channel_maxima(255, 255, 255), Some(BitsPerPixel::TwentyFour));
    assert_eq!(BitsPerPixel::from_channel_maxima(1, 1, 1), Some(BitsPerPixel::Three));
    assert_eq!(BitsPerPixel::from_channel_maxima(15, 15, 15), Some(BitsPerPixel::Twelve));
    assert_eq!(BitsPerPixel::from_channel_maxima(31, 31, 31), None);
    assert_eq!(BitsPerPixel::from_channel_maxima(0b1011, 0, 0), None);
}

#[test]
fn rgb565_is_sixteen_bits() {
    assert_eq!(BitsPerPixel::from_rgb565(), BitsPerPixel::Sixteen);
}
