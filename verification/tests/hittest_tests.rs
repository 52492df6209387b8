use custom_titlebar::geometry::Point;
use custom_titlebar::hittest::{
    hit_result_code, resolve_hit_test, HitTestResult, HTBOTTOM, HTBOTTOMLEFT, HTBOTTOMRIGHT,
    HTCAPTION, HTCLIENT, HTLEFT, HTMAXBUTTON, HTNOWHERE, HTRIGHT, HTTOP, HTTOPLEFT, HTTOPRIGHT,
};
use custom_titlebar::hover::HoveredButton;

const FRAME_Y: i32 = 4;
const PADDING: i32 = 4;

fn resolve(host_code: isize, hovered: HoveredButton, y: i32) -> HitTestResult {
    resolve_hit_test(host_code, hovered, Point { x: 400, y }, FRAME_Y, PADDING, Some(34))
}

#[test]
fn side_and_corner_classifications_pass_through() {
    for code in [
        HTNOWHERE,
        HTLEFT,
        HTRIGHT,
        HTTOPLEFT,
        HTTOPRIGHT,
        HTBOTTOM,
        HTBOTTOMLEFT,
        HTBOTTOMRIGHT,
    ] {
        assert_eq!(resolve(code, HoveredButton::NoButton, 20), HitTestResult::KeepHost);
        assert_eq!(hit_result_code(HitTestResult::KeepHost, code), code);
        // Even a hovered maximize button does not override these.
        assert_eq!(resolve(code, HoveredButton::Maximize, 20), HitTestResult::KeepHost);
    }
}

#[test]
fn hovered_maximize_button_takes_precedence() {
    // The point lies in the synthetic top resize band, yet the hovered
    // maximize button wins.
    assert_eq!(resolve(HTCLIENT, HoveredButton::Maximize, 5), HitTestResult::MaxButton);
    assert_eq!(resolve(HTCAPTION, HoveredButton::Maximize, 20), HitTestResult::MaxButton);
    assert_eq!(
        hit_result_code(resolve(HTCLIENT, HoveredButton::Maximize, 5), HTCLIENT),
        HTMAXBUTTON
    );
}

#[test]
fn thin_top_band_restores_the_resize_edge() {
    assert_eq!(resolve(HTCLIENT, HoveredButton::NoButton, 1), HitTestResult::TopResize);
    assert_eq!(resolve(HTCLIENT, HoveredButton::NoButton, 7), HitTestResult::TopResize);
    // The band is open at both ends: y = 0 and y = frame + padding lie
    // outside it.
    assert_ne!(resolve(HTCLIENT, HoveredButton::NoButton, 0), HitTestResult::TopResize);
    assert_ne!(resolve(HTCLIENT, HoveredButton::NoButton, 8), HitTestResult::TopResize);
    assert_eq!(
        hit_result_code(resolve(HTCLIENT, HoveredButton::NoButton, 5), HTCLIENT),
        HTTOP
    );
}

#[test]
fn title_bar_height_is_caption_and_below_is_client() {
    assert_eq!(resolve(HTCLIENT, HoveredButton::NoButton, 20), HitTestResult::Caption);
    assert_eq!(resolve(HTCLIENT, HoveredButton::NoButton, 33), HitTestResult::Caption);
    assert_eq!(resolve(HTCLIENT, HoveredButton::NoButton, 34), HitTestResult::ClientArea);
    assert_eq!(resolve(HTCLIENT, HoveredButton::NoButton, 300), HitTestResult::ClientArea);
    assert_eq!(
        hit_result_code(resolve(HTCLIENT, HoveredButton::NoButton, 20), HTCLIENT),
        HTCAPTION
    );
    assert_eq!(
        hit_result_code(resolve(HTCLIENT, HoveredButton::NoButton, 300), HTCLIENT),
        HTCLIENT
    );
}

#[test]
fn missing_title_bar_keeps_the_host_classification() {
    let r = resolve_hit_test(
        HTCLIENT,
        HoveredButton::NoButton,
        Point { x: 400, y: 20 },
        FRAME_Y,
        PADDING,
        None,
    );
    assert_eq!(r, HitTestResult::KeepHost);
    assert_eq!(hit_result_code(r, HTCLIENT), HTCLIENT);
}

#[test]
fn negative_y_is_not_in_the_top_band() {
    assert_eq!(resolve(HTCLIENT, HoveredButton::NoButton, -3), HitTestResult::Caption);
}
