use lib::ffi::render_frame;
use lib::frame::Frame;
use lib::palette::Palette;

fn pattern_frame() -> Box<[u8; 61440]> {
    let mut data = Box::new([0u8; 61440]);
    for (i, b) in data.iter_mut().enumerate() {
        *b = ((i * 7 + i / 256 * 3) % 256) as u8;
    }
    data
}

#[test]
fn nes_palette_known_entries() {
    let p = Palette::nes();
    assert_eq!(p.colour(0x00), 0xFF545454);
    assert_eq!(p.colour(0x01), 0xFF001E74);
    assert_eq!(p.colour(0x0D), 0xFF000000);
    assert_eq!(p.colour(0x16), 0xFFDC0800);
    assert_eq!(p.colour(0x20), 0xFFFCFCFC);
    assert_eq!(p.colour(0x30), 0xFFFCFCFC);
    assert_eq!(p.colour(0x36), 0xFFFCC8B8);
    assert_eq!(p.colour(0x3F), 0xFF000000);
}

#[test]
fn colour_ignores_high_bits() {
    let p = Palette::nes();
    for i in 0u8..64 {
        assert_eq!(p.colour(i), p.colour(i | 0x40));
        assert_eq!(p.colour(i), p.colour(i | 0x80));
        assert_eq!(p.colour(i), p.colour(i | 0xC0));
    }
    assert_eq!(p.colour(0xFF), p.colour(0x3F));
    assert_eq!(p.colour(0x41), 0xFF001E74);
}

#[test]
fn default_palette_is_nes() {
    let d = Palette::default();
    let n = Palette::nes();
    for i in 0u8..=255 {
        assert_eq!(d.colour(i), n.colour(i));
    }
}

#[test]
fn fill_frame_native_size_is_pixel_for_pixel() {
    let data = pattern_frame();
    let p = Palette::nes();
    let mut out = vec![0u32; 61440];
    p.fill_frame(&data[..], &mut out, 256, 240);
    for i in 0..61440 {
        assert_eq!(out[i], p.colour(data[i]));
    }
}

#[test]
fn fill_frame_half_size_takes_every_other_pixel() {
    let data = pattern_frame();
    let p = Palette::nes();
    let mut out = vec![0u32; 128 * 120];
    p.fill_frame(&data[..], &mut out, 128, 120);
    for y in 0..120 {
        for x in 0..128 {
            assert_eq!(out[y * 128 + x], p.colour(data[(2 * y) * 256 + 2 * x]));
        }
    }
}

#[test]
fn fill_frame_double_size_repeats_each_pixel() {
    let data = pattern_frame();
    let p = Palette::nes();
    let mut out = vec![0u32; 512 * 480];
    p.fill_frame(&data[..], &mut out, 512, 480);
    for y in 0..480 {
        for x in 0..512 {
            assert_eq!(out[y * 512 + x], p.colour(data[(y / 2) * 256 + x / 2]));
        }
    }
}

#[test]
fn fill_frame_odd_size_exact_values() {
    let data = pattern_frame();
    let p = Palette::nes();
    let mut out = vec![0u32; 6];
    p.fill_frame(&data[..], &mut out, 3, 2);
    // columns 0, 85, 170; rows 0, 120
    assert_eq!(out[0], p.colour(data[0]));
    assert_eq!(out[1], p.colour(data[85]));
    assert_eq!(out[2], p.colour(data[170]));
    assert_eq!(out[3], p.colour(data[120 * 256]));
    assert_eq!(out[4], p.colour(data[120 * 256 + 85]));
    assert_eq!(out[5], p.colour(data[120 * 256 + 170]));
}

#[test]
fn fill_frame_leaves_rest_of_dst() {
    let data = pattern_frame();
    let p = Palette::nes();
    let mut out = vec![0xDEADBEEFu32; 20];
    p.fill_frame(&data[..], &mut out, 4, 3);
    for i in 12..20 {
        assert_eq!(out[i], 0xDEADBEEF);
    }
    assert_eq!(out[0], p.colour(data[0]));
    assert_eq!(out[11], p.colour(data[160 * 256 + 192]));
}

#[test]
fn fill_frame_empty_surface_writes_nothing() {
    let data = pattern_frame();
    let p = Palette::nes();
    let mut out = vec![7u32; 5];
    p.fill_frame(&data[..], &mut out, 0, 240);
    p.fill_frame(&data[..], &mut out, 256, 0);
    p.fill_frame(&[], &mut out, 0, 20_000_000);
    p.fill_frame(&[], &mut [], 20_000_000, 0);
    assert_eq!(out, vec![7u32; 5]);
}

#[test]
fn fill_frame_one_pixel_reads_only_first_byte() {
    let p = Palette::nes();
    let src = [0x21u8];
    let mut out = [0u32; 1];
    p.fill_frame(&src, &mut out, 1, 1);
    assert_eq!(out[0], 0xFF64B0FC);
}

#[test]
fn render_frame_uses_nes_palette() {
    let data = pattern_frame();
    let mut a = vec![0x55u8; 300 * 200 * 4 + 3];
    let mut b = vec![0u32; 300 * 200];
    render_frame(&data, &mut a, 300, 200);
    Palette::nes().fill_frame(&data[..], &mut b, 300, 200);
    for i in 0..300 * 200 {
        assert_eq!(&a[4 * i..4 * i + 4], &b[i].to_ne_bytes());
    }
    assert_eq!(&a[300 * 200 * 4..], &[0x55u8; 3]);
}

#[test]
fn render_frame_zero_area_with_huge_side() {
    let data = pattern_frame();
    let mut a = vec![9u8; 4];
    render_frame(&data, &mut a, 0, 20_000_000);
    render_frame(&data, &mut a, 20_000_000, 0);
    assert_eq!(a, vec![9u8; 4]);
}

#[test]
fn nes_palette_is_opaque() {
    let p = Palette::nes();
    for i in 0u8..64 {
        assert_eq!(p.colour(i) >> 24, 0xFF);
    }
}

#[test]
fn fill_frame_from_frame_bytes() {
    let data = pattern_frame();
    let frame = Frame::new(&data);
    let p = Palette::nes();
    let mut out = vec![0u32; 256 * 240];
    p.fill_frame(frame.as_bytes(), &mut out, 256, 240);
    assert_eq!(out[0], p.colour(frame.pixel(0, 0)));
    assert_eq!(out[239 * 256 + 255], p.colour(frame.pixel(255, 239)));
}
