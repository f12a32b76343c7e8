use verdi::winit_backend::{pattern_pixel, render_pattern, window_event, WindowAction, WindowEventKind};

#[test]
fn pattern_pixels_pack_red_green_blue() {
    assert_eq!(pattern_pixel(0, 0), 0);
    assert_eq!(pattern_pixel(300, 2), (45 << 16) | (2 << 8) | 90);
    assert_eq!(pattern_pixel(254, 254), (254 << 16) | (254 << 8) | (254 * 254 % 255));
    assert_eq!(pattern_pixel(255, 510), 0);
}

#[test]
fn the_pattern_is_laid_out_row_by_row() {
    let pixels = render_pattern(3, 2);
    assert_eq!(pixels.len(), 6);
    for y in 0..2u32 {
        for x in 0..3u32 {
            assert_eq!(pixels[(y * 3 + x) as usize], pattern_pixel(x, y));
        }
    }
    assert!(render_pattern(0, 5).is_empty());
}

#[test]
fn redraw_needs_the_own_window_and_an_area() {
    assert_eq!(
        window_event(WindowEventKind::RedrawRequested, true, 640, 480),
        WindowAction::Redraw { width: 640, height: 480 }
    );
    assert_eq!(window_event(WindowEventKind::RedrawRequested, true, 0, 480), WindowAction::Ignore);
    assert_eq!(window_event(WindowEventKind::RedrawRequested, false, 640, 480), WindowAction::Ignore);
}

#[test]
fn close_exits_only_for_the_own_window() {
    assert_eq!(window_event(WindowEventKind::CloseRequested, true, 1, 1), WindowAction::Exit);
    assert_eq!(window_event(WindowEventKind::CloseRequested, false, 1, 1), WindowAction::Ignore);
    assert_eq!(window_event(WindowEventKind::Other, true, 1, 1), WindowAction::Ignore);
}
