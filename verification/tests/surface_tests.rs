use lib::config::Config;
use lib::frame::Frame;
use lib::gpu::context::GpuContext;
use lib::mcu::{byte_order_of, ByteOrder, McuSurface, BYTE_ORDER_PROBE};
use lib::palette::Palette;
use lib::surface::{create_surface, Error};

fn pattern_frame() -> Box<[u8; 61440]> {
    let mut data = Box::new([0u8; 61440]);
    for (i, b) in data.iter_mut().enumerate() {
        *b = ((i * 13 + i / 256) % 256) as u8;
    }
    data
}

#[test]
fn frame_dimensions_and_bytes() {
    let data = pattern_frame();
    let frame = Frame::new(&data);
    assert_eq!(frame.width(), 256);
    assert_eq!(frame.height(), 240);
    assert_eq!(frame.as_bytes().len(), (frame.width() * frame.height()) as usize);
    assert_eq!(frame.as_bytes(), &data[..]);
}

#[test]
fn frame_pixel_is_row_major() {
    let data = pattern_frame();
    let frame = Frame::new(&data);
    assert_eq!(frame.pixel(0, 0), data[0]);
    assert_eq!(frame.pixel(5, 3), data[3 * 256 + 5]);
    assert_eq!(frame.pixel(255, 239), data[61439]);
    assert_eq!(frame.pixel(300, 0), data[300]);
}

#[test]
fn config_nes_scaled() {
    let c = Config::nes_scaled(3);
    assert_eq!(c.width, 768);
    assert_eq!(c.height, 720);
    assert_eq!(c.title, "x-gfx");
    assert!(c.vsync);
    let one = Config::nes_scaled(1);
    assert_eq!((one.width, one.height), (256, 240));
    let zero = Config::nes_scaled(0);
    assert_eq!((zero.width, zero.height), (0, 0));
}

#[test]
fn config_default() {
    let c = Config::default();
    assert_eq!(c.width, 800);
    assert_eq!(c.height, 600);
    assert_eq!(c.title, "x-gfx");
    assert!(c.vsync);
}

#[test]
fn gpu_backend_is_unsupported() {
    let c = Config::nes_scaled(2);
    assert!(matches!(GpuContext::new(&c), Err(Error::Unsupported)));
    assert!(matches!(create_surface(&c), Err(Error::Unsupported)));
    assert!(matches!(create_surface(&Config::default()), Err(Error::Unsupported)));
}

#[test]
fn mcu_dimensions() {
    let s = McuSurface::new(128, 120);
    assert_eq!(s.dimensions(), (128, 120));
    let t = McuSurface::new(0, 7);
    assert_eq!(t.dimensions(), (0, 7));
}

#[test]
fn mcu_render_into_matches_fill_frame() {
    let data = pattern_frame();
    let frame = Frame::new(&data);
    let palette = Palette::nes();
    let mcu = McuSurface::new(128, 120);
    let mut framebuffer = vec![0u8; 128 * 120 * 4];
    let written = mcu.render_into(&frame, &palette, &mut framebuffer);
    assert_eq!(written, 128 * 120 * 4);

    let mut words = vec![0u32; 128 * 120];
    palette.fill_frame(frame.as_bytes(), &mut words, 128, 120);
    for i in 0..128 * 120 {
        let px = u32::from_ne_bytes(framebuffer[4 * i..4 * i + 4].try_into().unwrap());
        assert_eq!(px, words[i]);
        assert_eq!(&framebuffer[4 * i..4 * i + 4], &words[i].to_ne_bytes());
    }
}

#[test]
fn mcu_render_into_native_size_first_pixels() {
    let data = pattern_frame();
    let frame = Frame::new(&data);
    let palette = Palette::nes();
    let mcu = McuSurface::new(256, 240);
    let mut framebuffer = vec![0u8; 256 * 240 * 4];
    let written = mcu.render_into(&frame, &palette, &mut framebuffer);
    assert_eq!(written, 245760);
    let p0 = u32::from_ne_bytes(framebuffer[0..4].try_into().unwrap());
    let p1 = u32::from_ne_bytes(framebuffer[4..8].try_into().unwrap());
    assert_eq!(p0, palette.colour(data[0]));
    assert_eq!(p1, palette.colour(data[1]));
}

#[test]
fn mcu_render_into_leaves_tail_and_reports_required() {
    let data = pattern_frame();
    let frame = Frame::new(&data);
    let palette = Palette::nes();
    let mcu = McuSurface::new(2, 2);
    let mut framebuffer = vec![0xAAu8; 24];
    let written = mcu.render_into(&frame, &palette, &mut framebuffer);
    assert_eq!(written, 16);
    assert_eq!(&framebuffer[16..], &[0xAAu8; 8]);
    let p3 = u32::from_ne_bytes(framebuffer[12..16].try_into().unwrap());
    assert_eq!(p3, palette.colour(data[120 * 256 + 128]));
}

#[test]
fn mcu_render_into_ordered_lays_out_bytes() {
    let data = pattern_frame();
    let frame = Frame::new(&data);
    let palette = Palette::nes();
    let mcu = McuSurface::new(4, 3);
    let mut le = vec![0u8; 48];
    let mut be = vec![0u8; 48];
    assert_eq!(mcu.render_into_ordered(&frame, &palette, &mut le, ByteOrder::LittleEndian), 48);
    assert_eq!(mcu.render_into_ordered(&frame, &palette, &mut be, ByteOrder::BigEndian), 48);
    let mut words = vec![0u32; 12];
    palette.fill_frame(frame.as_bytes(), &mut words, 4, 3);
    for i in 0..12 {
        assert_eq!(&le[4 * i..4 * i + 4], &words[i].to_le_bytes());
        assert_eq!(&be[4 * i..4 * i + 4], &words[i].to_be_bytes());
    }
}

#[test]
fn mcu_render_into_zero_width_tall() {
    let data = pattern_frame();
    let frame = Frame::new(&data);
    let palette = Palette::nes();
    let mcu = McuSurface::new(0, 100_000);
    let mut framebuffer = vec![3u8; 2];
    assert_eq!(mcu.render_into(&frame, &palette, &mut framebuffer), 0);
    assert_eq!(framebuffer, vec![3u8; 2]);
}

#[test]
fn mcu_render_into_empty_surface() {
    let data = pattern_frame();
    let frame = Frame::new(&data);
    let palette = Palette::nes();
    let mcu = McuSurface::new(0, 0);
    let mut framebuffer = vec![1u8; 4];
    assert_eq!(mcu.render_into(&frame, &palette, &mut framebuffer), 0);
    assert_eq!(framebuffer, vec![1u8; 4]);
}

#[test]
fn byte_order_of_probe() {
    assert!(matches!(byte_order_of(BYTE_ORDER_PROBE.to_le_bytes()), ByteOrder::LittleEndian));
    assert!(matches!(byte_order_of(BYTE_ORDER_PROBE.to_be_bytes()), ByteOrder::BigEndian));
    let native = byte_order_of(BYTE_ORDER_PROBE.to_ne_bytes());
    if 1u32.to_ne_bytes()[0] == 1 {
        assert!(matches!(native, ByteOrder::LittleEndian));
    } else {
        assert!(matches!(native, ByteOrder::BigEndian));
    }
}
