use custom_titlebar::geometry::Rect;
use custom_titlebar::layout::{
    layout_inputs_ok, win32_fake_shadow_rect, win32_titlebar_rect, win32_window_is_maximized,
    ButtonRects,
};

fn client_800_600() -> Rect {
    Rect { left: 0, top: 0, right: 800, bottom: 600 }
}

#[test]
fn title_bar_rect_at_default_dpi() {
    // Theme caption height 32 at 96 DPI: 32 + 2 hairline borders = 34.
    let title_bar = win32_titlebar_rect(&client_800_600(), 96, 32);
    assert_eq!(title_bar, Rect { left: 0, top: 0, right: 800, bottom: 34 });
}

#[test]
fn title_bar_rect_scales_with_dpi() {
    let title_bar = win32_titlebar_rect(&client_800_600(), 144, 32);
    assert_eq!(title_bar, Rect { left: 0, top: 0, right: 800, bottom: 50 });
}

#[test]
fn button_rects_at_default_dpi() {
    let title_bar = win32_titlebar_rect(&client_800_600(), 96, 32);
    let buttons = ButtonRects::win32_get_title_bar_button_rects(&title_bar, 96);
    // Button width 47; the close button hugs the right edge, its top
    // skips the one-pixel shadow strip.
    assert_eq!(buttons.close, Rect { left: 753, top: 1, right: 800, bottom: 34 });
    assert_eq!(buttons.maximize, Rect { left: 706, top: 1, right: 753, bottom: 34 });
    assert_eq!(buttons.minimize, Rect { left: 659, top: 1, right: 706, bottom: 34 });
}

#[test]
fn button_rects_equal_width_contiguous_flush_right() {
    for dpi in [96u32, 120, 144, 192, 240, 480] {
        let title_bar = win32_titlebar_rect(&client_800_600(), dpi, 32);
        let buttons = ButtonRects::win32_get_title_bar_button_rects(&title_bar, dpi);
        let close_width = buttons.close.right - buttons.close.left;
        let maximize_width = buttons.maximize.right - buttons.maximize.left;
        let minimize_width = buttons.minimize.right - buttons.minimize.left;
        assert_eq!(close_width, maximize_width);
        assert_eq!(maximize_width, minimize_width);
        assert_eq!(buttons.close.right, title_bar.right);
        assert_eq!(buttons.maximize.right, buttons.close.left);
        assert_eq!(buttons.minimize.right, buttons.maximize.left);
        // Non-overlapping and inside the bar while it is wide enough.
        assert!(buttons.minimize.right <= buttons.maximize.left);
        assert!(buttons.maximize.right <= buttons.close.left);
        if title_bar.right - title_bar.left >= 3 * close_width {
            assert!(buttons.minimize.left >= title_bar.left);
        }
    }
}

#[test]
fn fake_shadow_is_topmost_pixel_row() {
    let shadow = win32_fake_shadow_rect(&client_800_600());
    assert_eq!(shadow, Rect { left: 0, top: 0, right: 800, bottom: 1 });
}

#[test]
fn window_is_maximized_only_on_the_maximized_show_command() {
    assert!(win32_window_is_maximized(3));
    assert!(!win32_window_is_maximized(0));
    assert!(!win32_window_is_maximized(1));
    assert!(!win32_window_is_maximized(2));
    assert!(!win32_window_is_maximized(6));
}

#[test]
fn layout_inputs_reject_invalid_host_data() {
    let client = client_800_600();
    assert!(layout_inputs_ok(&client, 96, 32));
    assert!(!layout_inputs_ok(&client, 0, 32));
    assert!(!layout_inputs_ok(&client, 96, -1));
    let backwards = Rect { left: 10, top: 0, right: 0, bottom: 600 };
    assert!(!layout_inputs_ok(&backwards, 96, 32));
}
