//! The painter: turns the window's state into the exact sequence of
//! drawing operations the host is asked to perform, in paint order.

use vstd::prelude::*;

verus! {

use crate::color::rgb;
use crate::color::spec_blend;
use crate::color::spec_rgb;
use crate::geometry::lemma_half_toward_zero_bounds;
use crate::geometry::spec_dpi_scale;
use crate::geometry::spec_centered_rect;
use crate::geometry::win32_center_rect_in_rect;
use crate::geometry::win32_dpi_scale;
use crate::geometry::Rect;
use crate::hover::HoveredButton;
use crate::layout::lemma_button_width_range;
use crate::layout::lemma_dpi_scale_range;
use crate::layout::lemma_title_bar_rect_bounds;
use crate::layout::spec_button_rects;
use crate::layout::spec_fake_shadow_rect;
use crate::layout::spec_layout_inputs_ok;
use crate::layout::spec_title_bar_rect;
use crate::layout::ButtonRects;
use crate::layout::win32_fake_shadow_rect;
use crate::layout::win32_titlebar_rect;
use crate::layout::ICON_DIMENSION_96;
use crate::layout::MAXIMIZED_BUTTON_OFFSET;
use crate::layout::MAX_HOST_DPI;

/// Pixels kept free between the caption text and its neighbours.
pub const TEXT_PADDING: i32 = 10;

/// One drawing operation handed to the host, with every coordinate and
/// color already decided.
#[derive(Clone, Copy, PartialEq, Eq, Structural, Debug)]
pub enum DrawOp {
    /// Fill a rectangle with a solid color.
    FillRect { rect: Rect, color: u32 },
    /// Draw a one-pixel line from the first point up to, excluding, the
    /// second.
    Line { x1: i32, y1: i32, x2: i32, y2: i32, color: u32 },
    /// Draw a one-pixel rectangle outline.
    FrameRect { rect: Rect, color: u32 },
    /// Draw the window caption, vertically centered and ellipsis
    /// truncated, within a rectangle.
    CaptionText { rect: Rect, color: u32 },
}

pub open spec fn spec_background_color() -> u32 {
    spec_rgb(200, 250, 230)
}

pub open spec fn spec_title_bar_color() -> u32 {
    spec_rgb(150, 200, 180)
}

pub open spec fn spec_title_bar_hover_color() -> u32 {
    spec_rgb(130, 180, 160)
}

pub open spec fn spec_shadow_color() -> u32 {
    spec_rgb(100, 100, 100)
}

/// Icon and caption-text color: dark on a focused window, gray otherwise.
pub open spec fn spec_item_color(has_focus: bool) -> u32 {
    if has_focus {
        spec_rgb(33, 33, 33)
    } else {
        spec_rgb(127, 127, 127)
    }
}

pub open spec fn spec_close_hover_fill_color() -> u32 {
    spec_rgb(255, 0, 0)
}

pub open spec fn spec_close_hover_x_color() -> u32 {
    spec_rgb(255, 255, 255)
}

/// The fake top shadow's color: the full shadow color when focused,
/// otherwise the channel-wise average of the title-bar color and the
/// shadow color.
pub open spec fn spec_top_shadow_color(has_focus: bool) -> u32 {
    if has_focus {
        spec_shadow_color()
    } else {
        spec_blend(spec_title_bar_color(), spec_shadow_color())
    }
}

/// The minimize button's operations: its hover fill when hovered, then
/// a one-pixel-high centered line as its icon.
pub open spec fn spec_minimize_button_ops(
    minimize: Rect,
    icon_dim: int,
    hovered: HoveredButton,
    has_focus: bool,
) -> Seq<DrawOp> {
    let icon = spec_centered_rect(icon_dim, 1, minimize);
    let line = seq![DrawOp::FillRect { rect: icon, color: spec_item_color(has_focus) }];
    if hovered == HoveredButton::Minimize {
        seq![
            DrawOp::FillRect { rect: minimize, color: spec_title_bar_hover_color() },
        ] + line
    } else {
        line
    }
}

/// The maximize button's operations: its hover fill when hovered; on a
/// maximized window a second offset outline first, with the gap between
/// the outlines filled back in the bar's (or hover) color; then the
/// centered square outline.
pub open spec fn spec_maximize_button_ops(
    maximize: Rect,
    icon_dim: int,
    hovered: HoveredButton,
    is_maximized: bool,
    has_focus: bool,
) -> Seq<DrawOp> {
    let icon = spec_centered_rect(icon_dim, icon_dim, maximize);
    let offset = Rect {
        left: (icon.left + MAXIMIZED_BUTTON_OFFSET) as i32,
        top: (icon.top - MAXIMIZED_BUTTON_OFFSET) as i32,
        right: (icon.right + MAXIMIZED_BUTTON_OFFSET) as i32,
        bottom: (icon.bottom - MAXIMIZED_BUTTON_OFFSET) as i32,
    };
    let hover_ops = if hovered == HoveredButton::Maximize {
        seq![DrawOp::FillRect { rect: maximize, color: spec_title_bar_hover_color() }]
    } else {
        Seq::<DrawOp>::empty()
    };
    let restore_ops = if is_maximized {
        seq![
            DrawOp::FrameRect { rect: offset, color: spec_item_color(has_focus) },
            DrawOp::FillRect {
                rect: icon,
                color: if hovered == HoveredButton::Maximize {
                    spec_title_bar_hover_color()
                } else {
                    spec_title_bar_color()
                },
            },
        ]
    } else {
        Seq::<DrawOp>::empty()
    };
    hover_ops + restore_ops + seq![
        DrawOp::FrameRect { rect: icon, color: spec_item_color(has_focus) },
    ]
}

/// The close button's operations: a red fill when hovered, then the two
/// diagonals of the X, white when hovered and in the item color
/// otherwise.
pub open spec fn spec_close_button_ops(
    close: Rect,
    icon_dim: int,
    hovered: HoveredButton,
    has_focus: bool,
) -> Seq<DrawOp> {
    let icon = spec_centered_rect(icon_dim, icon_dim, close);
    let x_color = if hovered == HoveredButton::Close {
        spec_close_hover_x_color()
    } else {
        spec_item_color(has_focus)
    };
    let lines = seq![
        DrawOp::Line {
            x1: icon.left,
            y1: icon.top,
            x2: (icon.right + 1) as i32,
            y2: (icon.bottom + 1) as i32,
            color: x_color,
        },
        DrawOp::Line {
            x1: icon.left,
            y1: icon.bottom,
            x2: (icon.right + 1) as i32,
            y2: (icon.top - 1) as i32,
            color: x_color,
        },
    ];
    if hovered == HoveredButton::Close {
        seq![
            DrawOp::FillRect { rect: close, color: spec_close_hover_fill_color() },
        ] + lines
    } else {
        lines
    }
}

/// Where the caption text goes: the title bar, padded on the left and
/// kept clear of the buttons on the right.
pub open spec fn spec_caption_text_rect(title_bar_rect: Rect, minimize_left: i32) -> Rect {
    Rect {
        left: (title_bar_rect.left + TEXT_PADDING) as i32,
        top: title_bar_rect.top,
        right: (minimize_left - TEXT_PADDING) as i32,
        bottom: title_bar_rect.bottom,
    }
}

/// Everything one paint draws, in order: background, title bar, the
/// three buttons with their state-dependent fills and icons, the caption
/// text, and the one-pixel fake top shadow.
pub open spec fn spec_paint_ops(
    invalidated: Rect,
    client: Rect,
    dpi: int,
    caption_height: int,
    hovered: HoveredButton,
    is_maximized: bool,
    has_focus: bool,
) -> Seq<DrawOp> {
    let title_bar = spec_title_bar_rect(client, dpi, caption_height);
    let buttons = spec_button_rects(title_bar, dpi);
    let icon_dim = spec_dpi_scale(ICON_DIMENSION_96 as int, dpi);
    seq![
        DrawOp::FillRect { rect: invalidated, color: spec_background_color() },
        DrawOp::FillRect { rect: title_bar, color: spec_title_bar_color() },
    ] + spec_minimize_button_ops(buttons.minimize, icon_dim, hovered, has_focus)
        + spec_maximize_button_ops(buttons.maximize, icon_dim, hovered, is_maximized, has_focus)
        + spec_close_button_ops(buttons.close, icon_dim, hovered, has_focus) + seq![
        DrawOp::CaptionText {
            rect: spec_caption_text_rect(title_bar, buttons.minimize.left),
            color: spec_item_color(has_focus),
        },
        DrawOp::FillRect { rect: spec_fake_shadow_rect(client), color: spec_top_shadow_color(has_focus) },
    ]
}

/// Build the paint operations for one paint message.
#[verifier::rlimit(80)]
pub fn win32_paint_ops(
    invalidated: &Rect,
    client: &Rect,
    dpi: u32,
    caption_height: i32,
    hovered: HoveredButton,
    is_maximized: bool,
    has_focus: bool,
) -> (ops: Vec<DrawOp>)
    requires
        spec_layout_inputs_ok(*client, dpi, caption_height),
    ensures
        ops@ == spec_paint_ops(
            *invalidated,
            *client,
            dpi as int,
            caption_height as int,
            hovered,
            is_maximized,
            has_focus,
        ),
{
    proof {
        lemma_title_bar_rect_bounds(*client, dpi, caption_height);
        lemma_button_width_range(dpi);
        lemma_dpi_scale_range(ICON_DIMENSION_96 as int, dpi as int, MAX_HOST_DPI as int);
        assert((ICON_DIMENSION_96 as int * MAX_HOST_DPI as int) / 96 == 6826);
    }
    let ghost expected = spec_paint_ops(
        *invalidated,
        *client,
        dpi as int,
        caption_height as int,
        hovered,
        is_maximized,
        has_focus,
    );

    let mut ops: Vec<DrawOp> = Vec::new();

    let title_bar_rect = win32_titlebar_rect(client, dpi, caption_height);
    let button_rects = ButtonRects::win32_get_title_bar_button_rects(&title_bar_rect, dpi);
    let icon_dimension = win32_dpi_scale(ICON_DIMENSION_96, dpi);
    let item_color = if has_focus {
        rgb(33, 33, 33)
    } else {
        rgb(127, 127, 127)
    };
    let titlebar_color = rgb(150, 200, 180);
    let titlebar_hover_color = rgb(130, 180, 160);

    ops.push(DrawOp::FillRect { rect: *invalidated, color: rgb(200, 250, 230) });
    ops.push(DrawOp::FillRect { rect: title_bar_rect, color: titlebar_color });

    // Minimize button.
    if hovered == HoveredButton::Minimize {
        ops.push(DrawOp::FillRect { rect: button_rects.minimize, color: titlebar_hover_color });
    }
    proof {
        lemma_half_toward_zero_bounds(button_rects.minimize.width() - icon_dimension);
        lemma_half_toward_zero_bounds(button_rects.minimize.height() - 1);
    }
    let mut minimize_icon = Rect { left: 0, top: 0, right: icon_dimension, bottom: 1 };
    win32_center_rect_in_rect(&mut minimize_icon, &button_rects.minimize);
    ops.push(DrawOp::FillRect { rect: minimize_icon, color: item_color });
    let ghost prefix_minimize = seq![
        DrawOp::FillRect { rect: *invalidated, color: spec_background_color() },
        DrawOp::FillRect { rect: title_bar_rect, color: spec_title_bar_color() },
    ] + spec_minimize_button_ops(button_rects.minimize, icon_dimension as int, hovered, has_focus);
    proof {
        assert(minimize_icon == spec_centered_rect(
            icon_dimension as int,
            1,
            button_rects.minimize,
        ));
        assert(ops@ =~= prefix_minimize);
    }

    // Maximize button.
    if hovered == HoveredButton::Maximize {
        ops.push(DrawOp::FillRect { rect: button_rects.maximize, color: titlebar_hover_color });
    }
    proof {
        lemma_half_toward_zero_bounds(button_rects.maximize.width() - icon_dimension);
        lemma_half_toward_zero_bounds(button_rects.maximize.height() - icon_dimension);
    }
    let mut maximize_icon = Rect { left: 0, top: 0, right: icon_dimension, bottom: icon_dimension };
    win32_center_rect_in_rect(&mut maximize_icon, &button_rects.maximize);
    if is_maximized {
        let offset_icon = Rect {
            left: maximize_icon.left + MAXIMIZED_BUTTON_OFFSET,
            top: maximize_icon.top - MAXIMIZED_BUTTON_OFFSET,
            right: maximize_icon.right + MAXIMIZED_BUTTON_OFFSET,
            bottom: maximize_icon.bottom - MAXIMIZED_BUTTON_OFFSET,
        };
        ops.push(DrawOp::FrameRect { rect: offset_icon, color: item_color });
        ops.push(
            DrawOp::FillRect {
                rect: maximize_icon,
                color: if hovered == HoveredButton::Maximize {
                    titlebar_hover_color
                } else {
                    titlebar_color
                },
            },
        );
    }
    ops.push(DrawOp::FrameRect { rect: maximize_icon, color: item_color });
    let ghost prefix_maximize = prefix_minimize + spec_maximize_button_ops(
        button_rects.maximize,
        icon_dimension as int,
        hovered,
        is_maximized,
        has_focus,
    );
    proof {
        assert(maximize_icon == spec_centered_rect(
            icon_dimension as int,
            icon_dimension as int,
            button_rects.maximize,
        ));
        assert(ops@ =~= prefix_maximize);
    }

    // Close button.
    let x_color = if hovered == HoveredButton::Close {
        ops.push(DrawOp::FillRect { rect: button_rects.close, color: rgb(255, 0, 0) });
        rgb(255, 255, 255)
    } else {
        item_color
    };
    proof {
        lemma_half_toward_zero_bounds(button_rects.close.width() - icon_dimension);
        lemma_half_toward_zero_bounds(button_rects.close.height() - icon_dimension);
    }
    let mut close_icon = Rect { left: 0, top: 0, right: icon_dimension, bottom: icon_dimension };
    win32_center_rect_in_rect(&mut close_icon, &button_rects.close);
    ops.push(
        DrawOp::Line {
            x1: close_icon.left,
            y1: close_icon.top,
            x2: close_icon.right + 1,
            y2: close_icon.bottom + 1,
            color: x_color,
        },
    );
    ops.push(
        DrawOp::Line {
            x1: close_icon.left,
            y1: close_icon.bottom,
            x2: close_icon.right + 1,
            y2: close_icon.top - 1,
            color: x_color,
        },
    );
    let ghost prefix_close = prefix_maximize + spec_close_button_ops(
        button_rects.close,
        icon_dimension as int,
        hovered,
        has_focus,
    );
    proof {
        assert(close_icon == spec_centered_rect(
            icon_dimension as int,
            icon_dimension as int,
            button_rects.close,
        ));
        assert(ops@ =~= prefix_close);
    }

    // Caption text, kept clear of the buttons.
    ops.push(
        DrawOp::CaptionText {
            rect: Rect {
                left: title_bar_rect.left + TEXT_PADDING,
                top: title_bar_rect.top,
                right: button_rects.minimize.left - TEXT_PADDING,
                bottom: title_bar_rect.bottom,
            },
            color: item_color,
        },
    );

    // Fake top shadow.
    let shadow_color = rgb(100, 100, 100);
    let top_shadow_color = if has_focus {
        shadow_color
    } else {
        crate::color::blend(titlebar_color, shadow_color)
    };
    let fake_shadow = win32_fake_shadow_rect(client);
    ops.push(DrawOp::FillRect { rect: fake_shadow, color: top_shadow_color });

    proof {
        assert(expected =~= prefix_close + seq![
            DrawOp::CaptionText {
                rect: spec_caption_text_rect(title_bar_rect, button_rects.minimize.left),
                color: spec_item_color(has_focus),
            },
            DrawOp::FillRect {
                rect: spec_fake_shadow_rect(*client),
                color: spec_top_shadow_color(has_focus),
            },
        ]);
        assert(ops@ =~= expected);
    }
    ops
}

} // verus!
