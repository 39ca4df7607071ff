use rui::color::Rgb;

#[test]
fn red_packs_to_ff0000() {
    let red = Rgb { r: 0xFF, g: 0x00, b: 0x00 };
    assert_eq!(red.to_pixel(), 0xFF0000);
}

#[test]
fn green_packs_to_00ff00() {
    let green = Rgb { r: 0x00, g: 0xFF, b: 0x00 };
    assert_eq!(green.to_pixel(), 0x00FF00);
}

#[test]
fn blue_packs_to_0000ff() {
    let blue = Rgb { r: 0x00, g: 0x00, b: 0xFF };
    assert_eq!(blue.to_pixel(), 0x0000FF);
}

#[test]
fn black_and_white_pack_to_the_extremes() {
    assert_eq!(Rgb { r: 0, g: 0, b: 0 }.to_pixel(), 0);
    assert_eq!(Rgb { r: 255, g: 255, b: 255 }.to_pixel(), 0xFF_FFFF);
}

#[test]
fn channels_keep_their_places() {
    let c = Rgb { r: 0x12, g: 0x34, b: 0x56 };
    assert_eq!(c.to_pixel(), 0x123456);
    assert_eq!(c.to_pixel(), (0x12 << 16) | (0x34 << 8) | 0x56);
    assert_eq!(c.to_pixel(), 0x12 * 65536 + 0x34 * 256 + 0x56);
}

#[test]
fn pixel_never_exceeds_24_bits() {
    for r in [0u8, 1, 127, 128, 255] {
        for g in [0u8, 1, 127, 128, 255] {
            for b in [0u8, 1, 127, 128, 255] {
                let p = Rgb { r, g, b }.to_pixel();
                assert!(p <= 0xFF_FFFF);
                assert_eq!((p >> 16) & 0xFF, r as u32);
                assert_eq!((p >> 8) & 0xFF, g as u32);
                assert_eq!(p & 0xFF, b as u32);
            }
        }
    }
}

#[test]
fn equal_colors_compare_equal() {
    let a = Rgb { r: 1, g: 2, b: 3 };
    let b = a;
    assert_eq!(a, b);
    assert_ne!(a, Rgb { r: 1, g: 2, b: 4 });
}
