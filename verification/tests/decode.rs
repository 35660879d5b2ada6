use fbscreenshot::pixel::{expand5, expand6, PixelFormat, Rgba};

fn px(r: u8, g: u8, b: u8, a: u8) -> Rgba {
    Rgba { r, g, b, a }
}

#[test]
fn bytes_per_pixel_values() {
    assert_eq!(PixelFormat::RGBA8888.bytes_per_pixel(), 4);
    assert_eq!(PixelFormat::RGB888.bytes_per_pixel(), 3);
    assert_eq!(PixelFormat::RGB565.bytes_per_pixel(), 2);
    assert_eq!(PixelFormat::ARGB1555.bytes_per_pixel(), 2);
}

#[test]
fn rgba8888_decode() {
    let buf = [0x10u8, 0x20, 0x30, 0x40];
    assert_eq!(
        PixelFormat::RGBA8888.get_pixel(&buf, 0),
        px(0x30, 0x20, 0x10, 0x40)
    );
}

#[test]
fn rgba8888_decode_at_offset() {
    let buf = [0xAAu8, 0xBB, 0xCC, 0xDD, 0x10, 0x20, 0x30, 0x40];
    assert_eq!(
        PixelFormat::RGBA8888.get_pixel(&buf, 4),
        px(0x30, 0x20, 0x10, 0x40)
    );
}

#[test]
fn rgb888_decode() {
    let buf = [0x10u8, 0x20, 0x30];
    assert_eq!(PixelFormat::RGB888.get_pixel(&buf, 0), px(0x30, 0x20, 0x10, 255));
}

#[test]
fn rgb565_boundary_words() {
    // word 0x0000: all channels zero, opaque
    let zero = [0x00u8, 0x00];
    assert_eq!(PixelFormat::RGB565.get_pixel(&zero, 0), px(0, 0, 0, 255));
    // word 0xFFFF: all channels at maximum expand exactly to 255
    let ones = [0xFFu8, 0xFF];
    assert_eq!(PixelFormat::RGB565.get_pixel(&ones, 0), px(255, 255, 255, 255));
}

#[test]
fn rgb565_channel_extraction() {
    // word 0xF800: red = 31 -> 255, others zero
    let red = [0x00u8, 0xF8];
    assert_eq!(PixelFormat::RGB565.get_pixel(&red, 0), px(255, 0, 0, 255));
    // word 0x07E0: green = 63 -> 255
    let green = [0xE0u8, 0x07];
    assert_eq!(PixelFormat::RGB565.get_pixel(&green, 0), px(0, 255, 0, 255));
    // word 0x001F: blue = 31 -> 255
    let blue = [0x1Fu8, 0x00];
    assert_eq!(PixelFormat::RGB565.get_pixel(&blue, 0), px(0, 0, 255, 255));
    // word 0x8410: r = 16 -> 132, g = 0x20 -> 130, b = 16 -> 132
    let mid = [0x10u8, 0x84];
    assert_eq!(PixelFormat::RGB565.get_pixel(&mid, 0), px(132, 130, 132, 255));
}

#[test]
fn argb1555_alpha_flag() {
    // word 0x8000: alpha bit set, all color zero
    let opaque = [0x00u8, 0x80];
    assert_eq!(PixelFormat::ARGB1555.get_pixel(&opaque, 0), px(0, 0, 0, 255));
    // word 0x0000: alpha bit clear
    let clear = [0x00u8, 0x00];
    assert_eq!(PixelFormat::ARGB1555.get_pixel(&clear, 0), px(0, 0, 0, 0));
}

#[test]
fn argb1555_channels() {
    // word 0xFFFF: everything set
    let ones = [0xFFu8, 0xFF];
    assert_eq!(PixelFormat::ARGB1555.get_pixel(&ones, 0), px(255, 255, 255, 255));
    // word 0x7C00: red = 31, alpha clear
    let red = [0x00u8, 0x7C];
    assert_eq!(PixelFormat::ARGB1555.get_pixel(&red, 0), px(255, 0, 0, 0));
    // word 0x03E0: green = 31, alpha clear
    let green = [0xE0u8, 0x03];
    assert_eq!(PixelFormat::ARGB1555.get_pixel(&green, 0), px(0, 255, 0, 0));
    // word 0x001F: blue = 31, alpha clear
    let blue = [0x1Fu8, 0x00];
    assert_eq!(PixelFormat::ARGB1555.get_pixel(&blue, 0), px(0, 0, 255, 0));
}

#[test]
fn expand5_exact_at_ends() {
    assert_eq!(expand5(0), 0);
    assert_eq!(expand5(31), 255);
}

#[test]
fn expand6_exact_at_ends() {
    assert_eq!(expand6(0), 0);
    assert_eq!(expand6(63), 255);
}

#[test]
fn expand5_matches_replication_formula_and_is_monotonic() {
    let mut prev: u8 = 0;
    for v in 0u8..32 {
        let e = expand5(v);
        assert_eq!(e, (v << 3) | (v >> 2));
        assert!(e >= prev);
        prev = e;
    }
}

#[test]
fn expand6_matches_replication_formula_and_is_monotonic() {
    let mut prev: u8 = 0;
    for v in 0u8..64 {
        let e = expand6(v);
        assert_eq!(e, (v << 2) | (v >> 4));
        assert!(e >= prev);
        prev = e;
    }
}
