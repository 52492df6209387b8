use custom_titlebar::geometry::{Point, Rect};
use custom_titlebar::hover::{hovered_at, HoveredButton};
use custom_titlebar::layout::{win32_titlebar_rect, ButtonRects};

#[test]
fn hover_code_round_trip() {
    for state in [
        HoveredButton::NoButton,
        HoveredButton::Minimize,
        HoveredButton::Maximize,
        HoveredButton::Close,
    ] {
        assert_eq!(HoveredButton::from_code(state.to_code()), state);
    }
}

#[test]
fn unrecognized_codes_fall_back_to_no_button() {
    assert_eq!(HoveredButton::from_code(0), HoveredButton::NoButton);
    assert_eq!(HoveredButton::from_code(4), HoveredButton::NoButton);
    assert_eq!(HoveredButton::from_code(-1), HoveredButton::NoButton);
    assert_eq!(HoveredButton::from_code(isize::MAX), HoveredButton::NoButton);
}

fn buttons_800_600() -> ButtonRects {
    let client = Rect { left: 0, top: 0, right: 800, bottom: 600 };
    let title_bar = win32_titlebar_rect(&client, 96, 32);
    ButtonRects::win32_get_title_bar_button_rects(&title_bar, 96)
}

#[test]
fn hovered_at_finds_each_button() {
    let buttons = buttons_800_600();
    assert_eq!(hovered_at(&buttons, Point { x: 660, y: 10 }), HoveredButton::Minimize);
    assert_eq!(hovered_at(&buttons, Point { x: 710, y: 10 }), HoveredButton::Maximize);
    assert_eq!(hovered_at(&buttons, Point { x: 760, y: 10 }), HoveredButton::Close);
    assert_eq!(hovered_at(&buttons, Point { x: 400, y: 10 }), HoveredButton::NoButton);
    assert_eq!(hovered_at(&buttons, Point { x: 760, y: 300 }), HoveredButton::NoButton);
}

#[test]
fn hovered_at_respects_shared_edges() {
    let buttons = buttons_800_600();
    // x = 706 is the first column of the maximize button, not minimize.
    assert_eq!(hovered_at(&buttons, Point { x: 706, y: 10 }), HoveredButton::Maximize);
    // x = 753 is the first column of the close button.
    assert_eq!(hovered_at(&buttons, Point { x: 753, y: 10 }), HoveredButton::Close);
    // y = 0 is the shadow strip above all buttons.
    assert_eq!(hovered_at(&buttons, Point { x: 760, y: 0 }), HoveredButton::NoButton);
}
