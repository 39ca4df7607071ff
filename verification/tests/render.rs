use font8x8::UnicodeFonts;
use rui::color::Rgb;
use rui::protocol::{Envelope, IpcMessage, ServiceError};
use rui::render::RenderState;

const WHITE: Rgb = Rgb { r: 255, g: 255, b: 255 };
const RED: Rgb = Rgb { r: 255, g: 0, b: 0 };
const GPU: u64 = 42;

fn ready(width: u16, height: u16) -> RenderState {
    let mut r = RenderState::new();
    r.begin_init(GPU).unwrap();
    r.complete_init(IpcMessage::GpuFbReply { fb: 0x1000, width, height }).unwrap();
    r
}

fn flush() -> Option<Envelope> {
    Some(Envelope { to: GPU, message: IpcMessage::GpuFlush })
}

fn set_pixels(r: &RenderState) -> Vec<(u16, u16)> {
    let s = r.surface();
    let mut out = Vec::new();
    for y in 0..s.height() {
        for x in 0..s.width() {
            if s.get(x, y) != Some(0) {
                out.push((x, y));
            }
        }
    }
    out
}

#[test]
fn new_rasterizer_is_idle() {
    let r = RenderState::new();
    assert!(!r.is_initialized());
    assert_eq!(r.gpu_pid(), 0);
    assert_eq!(r.halted(), None);
    assert_eq!(r.surface().width(), 0);
    assert_eq!(r.surface().height(), 0);
    assert_eq!(r.surface().base(), 0);
}

#[test]
fn handshake_asks_for_800_by_600() {
    let mut r = RenderState::new();
    let request = r.begin_init(GPU);
    assert_eq!(
        request,
        Ok(Envelope { to: GPU, message: IpcMessage::GpuInit { width: 800, height: 600 } })
    );
    assert_eq!(r.gpu_pid(), GPU);
    assert!(!r.is_initialized());
}

#[test]
fn handshake_without_service_is_not_found() {
    let mut r = RenderState::new();
    assert_eq!(r.begin_init(0), Err(ServiceError::NotFound));
    assert_eq!(r.halted(), Some(ServiceError::NotFound));
    assert_eq!(r.begin_init(GPU), Err(ServiceError::NotFound));
    assert_eq!(
        r.complete_init(IpcMessage::GpuFbReply { fb: 0x1000, width: 800, height: 600 }),
        Err(ServiceError::NotFound)
    );
    assert!(!r.is_initialized());
}

#[test]
fn handshake_completes_with_a_surface() {
    let r = ready(800, 600);
    assert!(r.is_initialized());
    assert_eq!(r.halted(), None);
    assert_eq!(r.surface().base(), 0x1000);
    assert_eq!(r.surface().width(), 800);
    assert_eq!(r.surface().height(), 600);
    assert_eq!(r.surface().pixels().len(), 480_000);
    assert!(set_pixels(&r).is_empty());
}

#[test]
fn reply_without_surface_is_invalid_handle() {
    let mut r = RenderState::new();
    r.begin_init(GPU).unwrap();
    let outcome = r.complete_init(IpcMessage::GpuFbReply { fb: 0, width: 0, height: 0 });
    assert_eq!(outcome, Err(ServiceError::InvalidHandle));
    assert!(!r.is_initialized());
    assert_eq!(r.halted(), Some(ServiceError::InvalidHandle));
}

#[test]
fn reply_with_null_base_or_empty_size_is_invalid_handle() {
    for reply in [
        IpcMessage::GpuFbReply { fb: 0, width: 800, height: 600 },
        IpcMessage::GpuFbReply { fb: 0x1000, width: 0, height: 600 },
        IpcMessage::GpuFbReply { fb: 0x1000, width: 800, height: 0 },
        IpcMessage::GpuFlush,
        IpcMessage::MouseClick { x: 1, y: 1 },
    ] {
        let mut r = RenderState::new();
        r.begin_init(GPU).unwrap();
        assert_eq!(r.complete_init(reply), Err(ServiceError::InvalidHandle));
        assert!(!r.is_initialized());
    }
}

#[test]
fn reply_before_the_handshake_began_is_not_found() {
    let mut r = RenderState::new();
    let outcome = r.complete_init(IpcMessage::GpuFbReply { fb: 0x1000, width: 8, height: 8 });
    assert_eq!(outcome, Err(ServiceError::NotFound));
    assert!(!r.is_initialized());
}

#[test]
fn failed_rasterizer_never_draws() {
    let mut r = RenderState::new();
    r.begin_init(GPU).unwrap();
    let _ = r.complete_init(IpcMessage::GpuFbReply { fb: 0, width: 0, height: 0 });
    r.draw_pixel(0, 0, WHITE);
    assert_eq!(r.draw_rect(0, 0, 10, 10, WHITE), None);
    assert_eq!(r.draw_text(0, 0, "Hi", WHITE), None);
    assert_eq!(
        r.handle_ipc_message(7, IpcMessage::RenderDrawRect { x: 0, y: 0, w: 5, h: 5, color: RED }),
        None
    );
    assert_eq!(
        r.complete_init(IpcMessage::GpuFbReply { fb: 0x1000, width: 800, height: 600 }),
        Err(ServiceError::InvalidHandle)
    );
    assert!(!r.is_initialized());
    assert_eq!(r.surface().pixels().len(), 0);
}

#[test]
fn rasterizer_before_handshake_draws_nothing() {
    let mut r = RenderState::new();
    r.draw_pixel(0, 0, WHITE);
    assert_eq!(r.draw_rect(0, 0, 10, 10, WHITE), None);
    assert_eq!(r.draw_text(0, 0, "Hi", WHITE), None);
    assert_eq!(r.surface().pixels().len(), 0);
}

#[test]
fn second_handshake_keeps_the_surface() {
    let mut r = ready(16, 16);
    r.draw_pixel(3, 3, WHITE);
    let again = r.complete_init(IpcMessage::GpuFbReply { fb: 0x2000, width: 8, height: 8 });
    assert_eq!(again, Ok(()));
    assert_eq!(r.surface().base(), 0x1000);
    assert_eq!(r.surface().width(), 16);
    assert_eq!(r.surface().get(3, 3), Some(0xFF_FFFF));
    assert_eq!(
        r.begin_init(77),
        Ok(Envelope { to: GPU, message: IpcMessage::GpuInit { width: 800, height: 600 } })
    );
    assert_eq!(r.gpu_pid(), GPU);
}

#[test]
fn draw_pixel_writes_at_linear_offset() {
    let mut r = ready(800, 600);
    r.draw_pixel(5, 7, RED);
    assert_eq!(r.surface().pixels()[7 * 800 + 5], 0xFF0000);
    assert_eq!(set_pixels(&r), vec![(5, 7)]);
}

#[test]
fn draw_pixel_off_the_surface_is_dropped() {
    let mut r = ready(800, 600);
    r.draw_pixel(800, 0, RED);
    r.draw_pixel(0, 600, RED);
    r.draw_pixel(u16::MAX, u16::MAX, RED);
    assert!(set_pixels(&r).is_empty());
    r.draw_pixel(799, 599, RED);
    assert_eq!(set_pixels(&r), vec![(799, 599)]);
}

#[test]
fn draw_rect_fills_the_rectangle_and_asks_for_a_refresh() {
    let mut r = ready(20, 10);
    let notice = r.draw_rect(2, 3, 4, 5, RED);
    assert_eq!(notice, flush());
    let mut expected = Vec::new();
    for y in 3..8 {
        for x in 2..6 {
            expected.push((x, y));
        }
    }
    assert_eq!(set_pixels(&r), expected);
    assert_eq!(r.surface().get(2, 3), Some(0xFF0000));
}

#[test]
fn draw_rect_is_cut_at_the_right_and_bottom_edges() {
    let mut r = ready(20, 10);
    assert_eq!(r.draw_rect(15, 8, 100, 100, WHITE), flush());
    let mut expected = Vec::new();
    for y in 8..10 {
        for x in 15..20 {
            expected.push((x, y));
        }
    }
    assert_eq!(set_pixels(&r), expected);
    assert_eq!(r.surface().pixels().len(), 200);
}

#[test]
fn draw_rect_beyond_the_surface_is_moved_to_the_last_column_and_row() {
    let mut r = ready(20, 10);
    assert_eq!(r.draw_rect(500, 500, 3, 3, WHITE), flush());
    assert_eq!(set_pixels(&r), vec![(19, 9)]);
}

#[test]
fn draw_rect_with_the_largest_numbers_stays_on_the_surface() {
    let mut r = ready(20, 10);
    assert_eq!(r.draw_rect(u16::MAX, u16::MAX, u16::MAX, u16::MAX, WHITE), flush());
    assert_eq!(set_pixels(&r), vec![(19, 9)]);
    assert_eq!(r.draw_rect(0, 0, u16::MAX, u16::MAX, RED), flush());
    assert_eq!(set_pixels(&r).len(), 200);
    assert!(r.surface().pixels().iter().all(|&p| p == 0xFF0000));
}

#[test]
fn draw_rect_without_area_writes_nothing_but_still_refreshes() {
    let mut r = ready(20, 10);
    assert_eq!(r.draw_rect(2, 2, 0, 5, WHITE), flush());
    assert_eq!(r.draw_rect(2, 2, 5, 0, WHITE), flush());
    assert_eq!(r.draw_rect(2, 2, 0, 0, WHITE), flush());
    assert!(set_pixels(&r).is_empty());
}

#[test]
fn draw_rect_covers_the_whole_surface() {
    let mut r = ready(800, 600);
    assert_eq!(r.draw_rect(0, 0, 800, 600, RED), flush());
    assert!(r.surface().pixels().iter().all(|&p| p == 0xFF0000));
}

#[test]
fn draw_glyph_sets_the_bits_of_each_row() {
    let mut r = ready(32, 32);
    let glyph: [u8; 8] = [0x01, 0x80, 0x00, 0xFF, 0x00, 0x00, 0x00, 0x81];
    r.draw_glyph(4, 6, &glyph, WHITE);
    let mut expected = vec![(4, 6), (11, 7)];
    for x in 4..12 {
        expected.push((x, 9));
    }
    expected.push((4, 13));
    expected.push((11, 13));
    assert_eq!(set_pixels(&r), expected);
}

#[test]
fn draw_glyph_is_cut_at_the_edges() {
    let mut r = ready(10, 10);
    let glyph: [u8; 8] = [0xFF; 8];
    r.draw_glyph(6, 7, &glyph, WHITE);
    let mut expected = Vec::new();
    for y in 7..10 {
        for x in 6..10 {
            expected.push((x, y));
        }
    }
    assert_eq!(set_pixels(&r), expected);
    r.draw_glyph(u16::MAX, u16::MAX, &glyph, RED);
    assert_eq!(set_pixels(&r), expected);
}

fn cell(rows: [u8; 8], x: u16, y: u16) -> Vec<(u16, u16)> {
    let mut out = Vec::new();
    for (row, bits) in rows.iter().enumerate() {
        for col in 0..8u16 {
            if (bits >> col) & 1 != 0 {
                out.push((x + col, y + row as u16));
            }
        }
    }
    out
}

fn sorted(mut pixels: Vec<(u16, u16)>) -> Vec<(u16, u16)> {
    pixels.sort_by_key(|&(x, y)| (y, x));
    pixels
}

const GLYPH_A: [u8; 8] = [0x0C, 0x1E, 0x33, 0x33, 0x3F, 0x33, 0x33, 0x00];
const GLYPH_H: [u8; 8] = [0x33, 0x33, 0x33, 0x3F, 0x33, 0x33, 0x33, 0x00];
const GLYPH_I: [u8; 8] = [0x0C, 0x00, 0x0E, 0x0C, 0x0C, 0x0C, 0x1E, 0x00];

#[test]
fn draw_text_hi_fills_two_cells() {
    let mut r = ready(800, 600);
    let notice = r.draw_text(10, 10, "Hi", WHITE);
    assert_eq!(notice, flush());
    let drawn = set_pixels(&r);
    assert!(!drawn.is_empty());
    for &(x, y) in &drawn {
        assert!((10..26).contains(&x), "column {} is outside the two cells", x);
        assert!((10..18).contains(&y), "row {} is outside the two cells", y);
        assert_eq!(r.surface().get(x, y), Some(0xFF_FFFF));
    }
    let mut expected = cell(GLYPH_H, 10, 10);
    expected.extend(cell(GLYPH_I, 18, 10));
    assert_eq!(drawn, sorted(expected));
}

#[test]
fn draw_text_draws_the_glyph_of_the_font() {
    let mut r = ready(64, 16);
    assert_eq!(r.draw_text(0, 0, "A", RED), flush());
    assert_eq!(set_pixels(&r), sorted(cell(GLYPH_A, 0, 0)));
    assert_eq!(r.surface().get(2, 0), Some(0xFF0000));
}

#[test]
fn draw_text_matches_the_font_for_every_basic_character() {
    for code in 0u8..128 {
        let c = code as char;
        let text: &'static str = Box::leak(c.to_string().into_boxed_str());
        let mut r = ready(16, 16);
        assert_eq!(r.draw_text(3, 4, text, WHITE), flush());
        let rows = font8x8::BASIC_FONTS.get(c).unwrap();
        assert_eq!(set_pixels(&r), sorted(cell(rows, 3, 4)));
    }
}

#[test]
fn characters_beyond_basic_latin_have_no_glyph() {
    for code in (128u32..0x3100).chain([0xFFFD, 0x1F600, 0x10FFFF]) {
        let c = match char::from_u32(code) {
            Some(c) => c,
            None => panic!("{:#x} is a character", code),
        };
        let mut s = String::from("A");
        s.push(c);
        s.push('H');
        let text: &'static str = Box::leak(s.into_boxed_str());
        let mut r = ready(32, 8);
        assert_eq!(r.draw_text(0, 0, text, WHITE), flush());
        assert_eq!(set_pixels(&r), sorted(cell(GLYPH_A, 0, 0)));
    }
}

#[test]
fn draw_text_longer_than_the_surface_is_wide_is_cut() {
    let text: &'static str = Box::leak("H".repeat(10_000).into_boxed_str());
    let mut r = ready(20, 8);
    assert_eq!(r.draw_text(0, 0, text, WHITE), flush());
    let mut expected = cell(GLYPH_H, 0, 0);
    expected.extend(cell(GLYPH_H, 8, 0));
    expected.extend(cell(GLYPH_H, 16, 0).into_iter().filter(|&(x, _)| x < 20));
    assert_eq!(set_pixels(&r), sorted(expected));
}

#[test]
fn draw_text_stops_at_the_first_character_without_glyph() {
    let mut r = ready(800, 600);
    let notice = r.draw_text(10, 10, "A\u{e9}H", WHITE);
    assert_eq!(notice, flush());
    assert_eq!(set_pixels(&r), sorted(cell(GLYPH_A, 10, 10)));
}

#[test]
fn draw_text_that_begins_without_glyph_draws_nothing() {
    let mut r = ready(800, 600);
    assert_eq!(r.draw_text(10, 10, "\u{4e2d}Hi", WHITE), flush());
    assert!(set_pixels(&r).is_empty());
}

#[test]
fn draw_text_of_nothing_draws_nothing() {
    let mut r = ready(800, 600);
    assert_eq!(r.draw_text(10, 10, "", WHITE), flush());
    assert!(set_pixels(&r).is_empty());
}

#[test]
fn draw_text_advances_eight_columns_per_character() {
    let mut r = ready(800, 600);
    r.draw_text(100, 50, "HHH", WHITE);
    let mut expected = cell(GLYPH_H, 100, 50);
    expected.extend(cell(GLYPH_H, 108, 50));
    expected.extend(cell(GLYPH_H, 116, 50));
    assert_eq!(set_pixels(&r), sorted(expected));
}

#[test]
fn draw_text_does_not_wrap_at_the_right_edge() {
    let mut r = ready(20, 20);
    assert_eq!(r.draw_text(14, 2, "HHHH", WHITE), flush());
    let expected: Vec<(u16, u16)> =
        cell(GLYPH_H, 14, 2).into_iter().filter(|&(x, _)| x < 20).collect();
    assert_eq!(set_pixels(&r), sorted(expected));
}

#[test]
fn draw_text_off_the_surface_draws_nothing() {
    let mut r = ready(20, 20);
    assert_eq!(r.draw_text(20, 0, "Hi", WHITE), flush());
    assert_eq!(r.draw_text(0, 20, "Hi", WHITE), flush());
    assert_eq!(r.draw_text(u16::MAX, u16::MAX, "Hi", WHITE), flush());
    assert!(set_pixels(&r).is_empty());
}

#[test]
fn draw_text_is_cut_at_the_bottom_edge() {
    let mut r = ready(20, 12);
    r.draw_text(0, 8, "H", WHITE);
    let expected: Vec<(u16, u16)> =
        cell(GLYPH_H, 0, 8).into_iter().filter(|&(_, y)| y < 12).collect();
    assert_eq!(set_pixels(&r), sorted(expected));
}

#[test]
fn draw_text_leaves_other_pixels_alone() {
    let mut r = ready(40, 40);
    r.draw_rect(0, 0, 40, 40, RED);
    r.draw_text(8, 8, "i", WHITE);
    let white = cell(GLYPH_I, 8, 8);
    for y in 0..40 {
        for x in 0..40 {
            let expected = if white.contains(&(x, y)) { 0xFF_FFFF } else { 0xFF0000 };
            assert_eq!(r.surface().get(x, y), Some(expected));
        }
    }
}

#[test]
fn rasterizer_serves_the_three_drawing_requests() {
    let mut r = ready(32, 32);
    let none = r.handle_ipc_message(1, IpcMessage::RenderDrawPixel { x: 1, y: 1, color: RED });
    assert_eq!(none, None);
    assert_eq!(r.surface().get(1, 1), Some(0xFF0000));
    let rect = r.handle_ipc_message(
        1,
        IpcMessage::RenderDrawRect { x: 4, y: 4, w: 2, h: 2, color: WHITE },
    );
    assert_eq!(rect, flush());
    assert_eq!(r.surface().get(5, 5), Some(0xFF_FFFF));
    let text = r.handle_ipc_message(
        1,
        IpcMessage::RenderDrawText { x: 16, y: 16, text: "A", color: WHITE },
    );
    assert_eq!(text, flush());
    assert_eq!(r.surface().get(18, 16), Some(0xFF_FFFF));
}

#[test]
fn rasterizer_ignores_other_messages() {
    let mut r = ready(8, 8);
    for message in [
        IpcMessage::GpuInit { width: 1, height: 1 },
        IpcMessage::GpuGetFb,
        IpcMessage::GpuFlush,
        IpcMessage::GpuFbReply { fb: 1, width: 1, height: 1 },
        IpcMessage::WmCreateWindow { x: 0, y: 0, w: 4, h: 4, title: "t" },
        IpcMessage::MouseClick { x: 1, y: 1 },
        IpcMessage::WmWindowOpened { title: "t", window_id: 1 },
        IpcMessage::WmFocusWindow { window_id: 1 },
        IpcMessage::MouseMove { x: 1, y: 1 },
    ] {
        assert_eq!(r.handle_ipc_message(9, message), None);
    }
    assert!(set_pixels(&r).is_empty());
    assert!(r.is_initialized());
}
