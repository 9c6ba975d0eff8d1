use pixel_render::compose::pack;
use pixel_render::layout::ScaleMode;
use pixel_render::renderer::{PixelRenderer, RenderError, RenderOptions};

fn rgba(pixels: &[(u8, u8, u8, u8)]) -> Vec<u8> {
    let mut out = Vec::new();
    for &(r, g, b, a) in pixels {
        out.extend_from_slice(&[r, g, b, a]);
    }
    out
}

fn channels(p: u32) -> (u32, u32, u32, u32) {
    (p >> 24, (p >> 16) & 0xFF, (p >> 8) & 0xFF, p & 0xFF)
}

#[test]
fn buffer_size_validation() {
    let r = PixelRenderer::new(800, 600);
    let err = r.check_buffer_len(800 * 600 * 4 - 1).unwrap_err();
    assert_eq!(
        err,
        RenderError::BufferSizeMismatch {
            expected: 1_920_000,
            actual: 1_919_999,
            buffer_width: 800,
            buffer_height: 600
        }
    );
    assert_eq!(r.check_buffer_len(1_920_000), Ok(()));
}

#[test]
fn pack_keeps_rgb_and_forces_opaque() {
    assert_eq!(pack(0x12, 0x34, 0x56), 0xFF12_3456);
    assert_eq!(channels(pack(10, 20, 30)), (255, 10, 20, 30));
}

#[test]
fn background_color_round_trip() {
    let mut r = PixelRenderer::new(2, 2);
    r.set_background_color(10, 20, 30, 0);
    let buffer = rgba(&[(1, 2, 3, 4), (5, 6, 7, 8), (9, 10, 11, 12), (13, 14, 15, 16)]);
    let mut frame = vec![0u32; 6 * 2];
    r.render_to_buffer(&mut frame, &buffer, 6, 2);
    // Fit: 2x2 buffer in a 6x2 window stands at columns 2..4.
    for (i, p) in frame.iter().enumerate() {
        let x = i % 6;
        if x < 2 || x >= 4 {
            assert_eq!(channels(*p), (255, 10, 20, 30));
        }
    }
    assert_eq!(frame[2], pack(1, 2, 3));
    assert_eq!(frame[3], pack(5, 6, 7));
    assert_eq!(frame[8], pack(9, 10, 11));
    assert_eq!(frame[9], pack(13, 14, 15));
}

#[test]
fn stretch_fills_window_nearest_neighbour() {
    let mut r = PixelRenderer::new(2, 1);
    r.set_scale_mode(ScaleMode::Stretch);
    r.set_background_color(200, 200, 200, 255);
    let buffer = rgba(&[(255, 0, 0, 255), (0, 0, 255, 255)]);
    let mut frame = vec![0u32; 5 * 2];
    r.render_to_buffer(&mut frame, &buffer, 5, 2);
    let red = pack(255, 0, 0);
    let blue = pack(0, 0, 255);
    // src_x = floor(x * 2 / 5): 0, 0, 0, 1, 1
    assert_eq!(frame, vec![red, red, red, blue, blue, red, red, red, blue, blue]);
}

#[test]
fn integer_replicates_blocks() {
    let mut r = PixelRenderer::new(2, 1);
    r.set_scale_mode(ScaleMode::Integer);
    r.set_background_color(0, 0, 0, 255);
    let buffer = rgba(&[(1, 1, 1, 255), (2, 2, 2, 255)]);
    let mut frame = vec![7u32; 5 * 2];
    r.render_to_buffer(&mut frame, &buffer, 5, 2);
    let a = pack(1, 1, 1);
    let b = pack(2, 2, 2);
    let bg = pack(0, 0, 0);
    // scale 2 (min(5 / 2, 2 / 1)): 4x2 at offset (0, 0)
    assert_eq!(frame, vec![a, a, b, b, bg, a, a, b, b, bg]);
    let mut frame = vec![7u32; 4 * 2];
    r.render_to_buffer(&mut frame, &buffer, 4, 2);
    assert_eq!(frame, vec![a, a, b, b, a, a, b, b]);
}

#[test]
fn unscaled_larger_buffer_shows_top_left() {
    let mut r = PixelRenderer::new(3, 3);
    r.set_scale_mode(ScaleMode::Unscaled);
    let mut px = Vec::new();
    for i in 0..9u8 {
        px.push((i, i, i, 255));
    }
    let buffer = rgba(&px);
    let mut frame = vec![0u32; 4];
    r.render_to_buffer(&mut frame, &buffer, 2, 2);
    assert_eq!(frame, vec![pack(0, 0, 0), pack(1, 1, 1), pack(3, 3, 3), pack(4, 4, 4)]);
}

#[test]
fn fill_crops_and_covers_window() {
    let mut r = PixelRenderer::new(4, 2);
    r.set_scale_mode(ScaleMode::Fill);
    r.set_background_color(9, 9, 9, 255);
    let mut px = Vec::new();
    for i in 0..8u8 {
        px.push((i, 0, 0, 255));
    }
    let buffer = rgba(&px);
    let mut frame = vec![0u32; 2 * 2];
    r.render_to_buffer(&mut frame, &buffer, 2, 2);
    // scale 1 (max(0.5, 1)): 4x2 at offset (-1, 0): columns 1 and 2 show.
    assert_eq!(frame, vec![pack(1, 0, 0), pack(2, 0, 0), pack(5, 0, 0), pack(6, 0, 0)]);
}

#[test]
fn render_twice_gives_same_frame() {
    let r = PixelRenderer::new(3, 2);
    let buffer = rgba(&[(1, 2, 3, 4), (5, 6, 7, 8), (9, 10, 11, 12), (13, 14, 15, 16), (17, 18, 19, 20), (21, 22, 23, 24)]);
    let mut first = vec![0u32; 7 * 5];
    r.render_to_buffer(&mut first, &buffer, 7, 5);
    let mut second = first.clone();
    r.render_to_buffer(&mut second, &buffer, 7, 5);
    assert_eq!(first, second);
    let mut third = vec![0xDEAD_BEEFu32; 7 * 5];
    r.render_to_buffer(&mut third, &buffer, 7, 5);
    assert_eq!(first, third);
}

#[test]
fn pixels_past_window_keep_background() {
    let r = PixelRenderer::new(1, 1);
    let buffer = rgba(&[(50, 60, 70, 255)]);
    let mut frame = vec![0u32; 3];
    r.render_to_buffer(&mut frame, &buffer, 0, 5);
    assert_eq!(frame, vec![pack(0, 0, 0); 3]);
    let mut frame = vec![0u32; 3];
    r.render_to_buffer(&mut frame, &buffer, 1, 1);
    assert_eq!(frame, vec![pack(50, 60, 70), pack(0, 0, 0), pack(0, 0, 0)]);
}

#[test]
fn renderer_defaults() {
    let r = PixelRenderer::new(320, 200);
    assert_eq!(r.buffer_width(), 320);
    assert_eq!(r.buffer_height(), 200);
    assert_eq!(r.scale_mode(), ScaleMode::Fit);
    assert_eq!(r.background_color(), [0, 0, 0, 255]);
}

#[test]
fn with_options_takes_given_values() {
    let opts = RenderOptions {
        buffer_width: 64,
        buffer_height: 32,
        scale_mode: Some(ScaleMode::Integer),
        background_color: Some(vec![1, 2, 3, 4, 5]),
    };
    let r = PixelRenderer::with_options(opts);
    assert_eq!(r.buffer_width(), 64);
    assert_eq!(r.buffer_height(), 32);
    assert_eq!(r.scale_mode(), ScaleMode::Integer);
    assert_eq!(r.background_color(), [1, 2, 3, 4]);
}

#[test]
fn with_options_defaults_short_color() {
    let opts = RenderOptions {
        buffer_width: 8,
        buffer_height: 8,
        scale_mode: None,
        background_color: Some(vec![1, 2, 3]),
    };
    let r = PixelRenderer::with_options(opts);
    assert_eq!(r.scale_mode(), ScaleMode::Fit);
    assert_eq!(r.background_color(), [0, 0, 0, 255]);
}

#[test]
fn render_options_default() {
    let o = RenderOptions::default();
    assert_eq!(o.buffer_width, 800);
    assert_eq!(o.buffer_height, 600);
    assert_eq!(o.scale_mode, Some(ScaleMode::Fit));
    assert_eq!(o.background_color, Some(vec![0, 0, 0, 255]));
}

#[test]
fn error_variants_compare() {
    assert_ne!(RenderError::WindowUnavailable, RenderError::LockFailure);
    let e = RenderError::SurfaceFailure { message: "present".to_string() };
    assert_eq!(e.clone(), e);
}
