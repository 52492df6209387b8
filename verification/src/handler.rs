//! The message handler: one pure decision per host message, from the
//! current hover state and the values the shell queried from the host,
//! to the next hover state, the side effects to request, and the result
//! to return.

use vstd::prelude::*;

verus! {

use crate::geometry::Point;
use crate::geometry::Rect;
use crate::hittest::spec_hit_result_code;
use crate::hittest::spec_hit_test;
use crate::hittest::hit_result_code;
use crate::hittest::resolve_hit_test;
use crate::hover::spec_hovered_at;
use crate::hover::hovered_at;
use crate::hover::HoveredButton;
use crate::layout::spec_button_rects;
use crate::layout::spec_layout_inputs_ok;
use crate::layout::spec_title_bar_rect;
use crate::layout::layout_inputs_ok;
use crate::layout::win32_titlebar_rect;
use crate::layout::win32_window_is_maximized;
use crate::layout::ButtonRects;
use crate::layout::SHOW_CMD_MAXIMIZED;
use crate::paint::spec_paint_ops;
use crate::paint::win32_paint_ops;
use crate::paint::DrawOp;
use crate::sizing::spec_adjusted_client_rect;
use crate::sizing::spec_metrics_ok;
use crate::sizing::adjust_client_rect;
use crate::sizing::metrics_ok;

/// One host message, already decoded into its payload. Only the kinds
/// the handler decides something for appear; everything else is
/// `Other` and is delegated.
#[derive(Clone, Copy, Debug)]
pub enum WindowMessage {
    /// Size negotiation: the host proposes a non-client frame rectangle.
    /// `has_params` is false when the message carries no rectangle to
    /// adjust.
    NcCalcSize { has_params: bool, proposed: Rect },
    /// The window was just created; its outer rectangle, if the query
    /// succeeded.
    Created { window_rect: Option<Rect> },
    /// The window's activation changed.
    ActivationChanged,
    /// Non-client hit test: the host's own classification and the cursor
    /// in client coordinates.
    NcHitTest { host_code: isize, cursor: Point },
    /// Paint request, with the invalidated region.
    Paint { invalidated: Rect },
    /// Pointer move over the non-client area; the cursor in client
    /// coordinates, if the query succeeded.
    NcPointerMove { cursor: Option<Point> },
    /// Pointer move over the client area.
    PointerMove,
    /// Non-client left button press.
    NcButtonDown,
    /// Non-client left button release.
    NcButtonUp,
    /// Cursor shape request.
    CursorShape,
    /// The window is being destroyed.
    Destroyed,
    /// Any message the handler has no decision for.
    Other,
}

/// The host state a message is handled against, as the shell queried
/// it: a `None` marks a failed query, and the handler falls back to
/// default handling wherever it would have needed the value.
#[derive(Clone, Copy, Debug)]
pub struct HostInfo {
    /// The window's DPI.
    pub dpi: u32,
    /// The window's client rectangle, if the query succeeded.
    pub client_rect: Option<Rect>,
    /// The theme's logical caption height, if the query succeeded.
    pub caption_height: Option<i32>,
    /// Horizontal frame border metric for the DPI.
    pub frame_x: i32,
    /// Vertical frame border metric for the DPI.
    pub frame_y: i32,
    /// Padded border metric for the DPI.
    pub padding: i32,
    /// The window placement's show command, if the query succeeded.
    pub show_cmd: Option<u32>,
    /// Whether the window has keyboard focus.
    pub has_focus: bool,
}

/// Whether the host reports the window as currently maximized; a failed
/// placement query counts as not maximized.
pub open spec fn spec_is_maximized(h: HostInfo) -> bool {
    h.show_cmd == Option::Some(SHOW_CMD_MAXIMIZED)
}

/// Whether the queried client rectangle and caption height are present
/// and acceptable, so the title-bar layout can be derived.
pub open spec fn spec_host_layout_ok(h: HostInfo) -> bool {
    match (h.client_rect, h.caption_height) {
        (Option::Some(client), Option::Some(caption_height)) => spec_layout_inputs_ok(
            client,
            h.dpi,
            caption_height,
        ),
        _ => false,
    }
}

/// The title-bar rectangle the host state yields; meaningful only when
/// `spec_host_layout_ok` holds.
pub open spec fn spec_host_title_bar(h: HostInfo) -> Rect {
    spec_title_bar_rect(
        h.client_rect->Some_0,
        h.dpi as int,
        h.caption_height->Some_0 as int,
    )
}

/// The button rectangles the host state yields; meaningful only when
/// `spec_host_layout_ok` holds.
pub open spec fn spec_host_buttons(h: HostInfo) -> ButtonRects {
    spec_button_rects(spec_host_title_bar(h), h.dpi as int)
}

/// One side effect the handler asks the shell to perform.
#[derive(Clone, Debug)]
pub enum HostCommand {
    /// Mark a rectangle of the window for repaint.
    Invalidate(Rect),
    /// Write the adjusted client rectangle back into the size
    /// negotiation.
    SetClientRect(Rect),
    /// Re-apply the window's frame at its current rectangle so the new
    /// non-client sizing takes effect.
    RefreshFrame(Rect),
    /// Ask the window to close.
    RequestClose,
    /// Minimize the window.
    ShowMinimized,
    /// Maximize the window.
    ShowMaximized,
    /// Restore the window from its maximized state.
    ShowRestored,
    /// Show the ordinary arrow cursor.
    SetArrowCursor,
    /// End the message loop.
    Quit,
    /// Perform these drawing operations, in order, within one paint.
    Draw(Vec<DrawOp>),
}

/// The mathematical form of a command, with sequences in place of
/// vectors.
pub enum CommandView {
    Invalidate(Rect),
    SetClientRect(Rect),
    RefreshFrame(Rect),
    RequestClose,
    ShowMinimized,
    ShowMaximized,
    ShowRestored,
    SetArrowCursor,
    Quit,
    Draw(Seq<DrawOp>),
}

impl View for HostCommand {
    type V = CommandView;

    open spec fn view(&self) -> CommandView {
        match self {
            HostCommand::Invalidate(r) => CommandView::Invalidate(*r),
            HostCommand::SetClientRect(r) => CommandView::SetClientRect(*r),
            HostCommand::RefreshFrame(r) => CommandView::RefreshFrame(*r),
            HostCommand::RequestClose => CommandView::RequestClose,
            HostCommand::ShowMinimized => CommandView::ShowMinimized,
            HostCommand::ShowMaximized => CommandView::ShowMaximized,
            HostCommand::ShowRestored => CommandView::ShowRestored,
            HostCommand::SetArrowCursor => CommandView::SetArrowCursor,
            HostCommand::Quit => CommandView::Quit,
            HostCommand::Draw(ops) => CommandView::Draw(ops@),
        }
    }
}

/// What the handler returns to the host for a message.
#[derive(Clone, Copy, PartialEq, Eq, Structural, Debug)]
pub enum WmResult {
    /// Forward the message to the host's default handling.
    Delegate,
    /// Return this value without default handling.
    Value(isize),
}

/// Everything one handled message produces.
#[derive(Clone, Debug)]
pub struct HandlerOutcome {
    /// The hover state to store back.
    pub hovered: HoveredButton,
    /// The side effects to perform, in order.
    pub commands: Vec<HostCommand>,
    /// The result to return to the host.
    pub result: WmResult,
}

impl HandlerOutcome {
    /// The commands as their mathematical views.
    pub open spec fn commands_view(self) -> Seq<CommandView> {
        self.commands@.map_values(|c: HostCommand| c@)
    }
}

/// The decision the handler owes for one message: the next hover state,
/// the command views, and the result.
pub struct HandlerSpec {
    pub hovered: HoveredButton,
    pub commands: Seq<CommandView>,
    pub result: WmResult,
}

/// A decision that leaves everything alone and delegates.
pub open spec fn spec_delegate(hovered: HoveredButton) -> HandlerSpec {
    HandlerSpec { hovered, commands: Seq::<CommandView>::empty(), result: WmResult::Delegate }
}

/// Size negotiation: with a rectangle to adjust and acceptable metrics,
/// report the shrunken client rectangle and a zero result; otherwise
/// delegate.
pub open spec fn spec_handle_nc_calc_size(
    hovered: HoveredButton,
    has_params: bool,
    proposed: Rect,
    h: HostInfo,
) -> HandlerSpec {
    if !has_params {
        spec_delegate(hovered)
    } else if !(crate::layout::host_rect_ok(proposed) && spec_metrics_ok(
        h.frame_x as int,
        h.frame_y as int,
        h.padding as int,
    )) {
        spec_delegate(hovered)
    } else {
        HandlerSpec {
            hovered,
            commands: seq![
                CommandView::SetClientRect(
                    spec_adjusted_client_rect(
                        proposed,
                        h.frame_x as int,
                        h.frame_y as int,
                        h.padding as int,
                        spec_is_maximized(h),
                    ),
                ),
            ],
            result: WmResult::Value(0),
        }
    }
}

/// Window creation: when the outer rectangle is known, ask for a frame
/// refresh at that rectangle; the message is always delegated as well.
pub open spec fn spec_handle_created(
    hovered: HoveredButton,
    window_rect: Option<Rect>,
) -> HandlerSpec {
    match window_rect {
        Option::Some(r) => HandlerSpec {
            hovered,
            commands: seq![CommandView::RefreshFrame(r)],
            result: WmResult::Delegate,
        },
        Option::None => spec_delegate(hovered),
    }
}

/// Activation change: repaint the title bar, then delegate.
pub open spec fn spec_handle_activation(hovered: HoveredButton, h: HostInfo) -> HandlerSpec {
    if spec_host_layout_ok(h) {
        HandlerSpec {
            hovered,
            commands: seq![CommandView::Invalidate(spec_host_title_bar(h))],
            result: WmResult::Delegate,
        }
    } else {
        spec_delegate(hovered)
    }
}

/// Hit test: with acceptable metrics, return the resolved region code;
/// the title-bar bottom joins in only when the layout could be derived.
pub open spec fn spec_handle_nc_hit_test(
    hovered: HoveredButton,
    host_code: isize,
    cursor: Point,
    h: HostInfo,
) -> HandlerSpec {
    if !spec_metrics_ok(h.frame_x as int, h.frame_y as int, h.padding as int) {
        spec_delegate(hovered)
    } else {
        HandlerSpec {
            hovered,
            commands: Seq::<CommandView>::empty(),
            result: WmResult::Value(
                spec_hit_result_code(
                    spec_hit_test(
                        host_code as int,
                        hovered,
                        cursor,
                        h.frame_y as int,
                        h.padding as int,
                        if spec_host_layout_ok(h) {
                            Option::Some(spec_host_title_bar(h).bottom)
                        } else {
                            Option::None
                        },
                    ),
                    host_code as int,
                ) as isize,
            ),
        }
    }
}

/// Paint: draw the chrome for the current state, then delegate.
pub open spec fn spec_handle_paint(
    hovered: HoveredButton,
    invalidated: Rect,
    h: HostInfo,
) -> HandlerSpec {
    if spec_host_layout_ok(h) {
        HandlerSpec {
            hovered,
            commands: seq![
                CommandView::Draw(
                    spec_paint_ops(
                        invalidated,
                        h.client_rect->Some_0,
                        h.dpi as int,
                        h.caption_height->Some_0 as int,
                        hovered,
                        spec_is_maximized(h),
                        h.has_focus,
                    ),
                ),
            ],
            result: WmResult::Delegate,
        }
    } else {
        spec_delegate(hovered)
    }
}

/// Non-client pointer move: recompute which button the pointer is over;
/// on a change, repaint all three buttons and store the new state. The
/// message is always delegated as well.
pub open spec fn spec_handle_nc_pointer_move(
    hovered: HoveredButton,
    cursor: Option<Point>,
    h: HostInfo,
) -> HandlerSpec {
    match cursor {
        Option::None => spec_delegate(hovered),
        Option::Some(p) => if !spec_host_layout_ok(h) {
            spec_delegate(hovered)
        } else {
            let new_hovered = spec_hovered_at(spec_host_buttons(h), p);
            if new_hovered == hovered {
                spec_delegate(hovered)
            } else {
                HandlerSpec {
                    hovered: new_hovered,
                    commands: seq![
                        CommandView::Invalidate(spec_host_buttons(h).close),
                        CommandView::Invalidate(spec_host_buttons(h).minimize),
                        CommandView::Invalidate(spec_host_buttons(h).maximize),
                    ],
                    result: WmResult::Delegate,
                }
            }
        },
    }
}

/// Client pointer move: the pointer has left the custom buttons, so a
/// stored hover state is cleared and the title bar repainted. The
/// message is always delegated as well.
pub open spec fn spec_handle_pointer_move(hovered: HoveredButton, h: HostInfo) -> HandlerSpec {
    if hovered == HoveredButton::NoButton {
        spec_delegate(hovered)
    } else if !spec_host_layout_ok(h) {
        spec_delegate(hovered)
    } else {
        HandlerSpec {
            hovered: HoveredButton::NoButton,
            commands: seq![CommandView::Invalidate(spec_host_title_bar(h))],
            result: WmResult::Delegate,
        }
    }
}

/// Button press: while a custom button is hovered, swallow the press so
/// no drag starts; otherwise default handling keeps dragging and
/// double-click working.
pub open spec fn spec_handle_nc_button_down(hovered: HoveredButton) -> HandlerSpec {
    if hovered != HoveredButton::NoButton {
        HandlerSpec {
            hovered,
            commands: Seq::<CommandView>::empty(),
            result: WmResult::Value(0),
        }
    } else {
        spec_delegate(hovered)
    }
}

/// Button release: the command a completed click issues. A release over
/// the maximize button restores a maximized window and maximizes any
/// other; with no hovered button the release is delegated.
pub open spec fn spec_handle_nc_button_up(hovered: HoveredButton, h: HostInfo) -> HandlerSpec {
    match hovered {
        HoveredButton::Close => HandlerSpec {
            hovered,
            commands: seq![CommandView::RequestClose],
            result: WmResult::Value(0),
        },
        HoveredButton::Minimize => HandlerSpec {
            hovered,
            commands: seq![CommandView::ShowMinimized],
            result: WmResult::Value(0),
        },
        HoveredButton::Maximize => HandlerSpec {
            hovered,
            commands: if spec_is_maximized(h) {
                seq![CommandView::ShowRestored]
            } else {
                seq![CommandView::ShowMaximized]
            },
            result: WmResult::Value(0),
        },
        HoveredButton::NoButton => spec_delegate(hovered),
    }
}

/// The whole decision table, one entry per message kind.
pub open spec fn spec_handle(
    hovered: HoveredButton,
    msg: WindowMessage,
    h: HostInfo,
) -> HandlerSpec {
    match msg {
        WindowMessage::NcCalcSize { has_params, proposed } => spec_handle_nc_calc_size(
            hovered,
            has_params,
            proposed,
            h,
        ),
        WindowMessage::Created { window_rect } => spec_handle_created(hovered, window_rect),
        WindowMessage::ActivationChanged => spec_handle_activation(hovered, h),
        WindowMessage::NcHitTest { host_code, cursor } => spec_handle_nc_hit_test(
            hovered,
            host_code,
            cursor,
            h,
        ),
        WindowMessage::Paint { invalidated } => spec_handle_paint(hovered, invalidated, h),
        WindowMessage::NcPointerMove { cursor } => spec_handle_nc_pointer_move(hovered, cursor, h),
        WindowMessage::PointerMove => spec_handle_pointer_move(hovered, h),
        WindowMessage::NcButtonDown => spec_handle_nc_button_down(hovered),
        WindowMessage::NcButtonUp => spec_handle_nc_button_up(hovered, h),
        WindowMessage::CursorShape => HandlerSpec {
            hovered,
            commands: seq![CommandView::SetArrowCursor],
            result: WmResult::Delegate,
        },
        WindowMessage::Destroyed => HandlerSpec {
            hovered,
            commands: seq![CommandView::Quit],
            result: WmResult::Value(0),
        },
        WindowMessage::Other => spec_delegate(hovered),
    }
}

/// A returned outcome delivers exactly a decision.
pub open spec fn outcome_matches(o: HandlerOutcome, s: HandlerSpec) -> bool {
    &&& o.hovered == s.hovered
    &&& o.commands_view() == s.commands
    &&& o.result == s.result
}

/// An outcome that leaves the state alone and delegates.
fn delegate_outcome(hovered: HoveredButton) -> (o: HandlerOutcome)
    ensures
        outcome_matches(o, spec_delegate(hovered)),
{
    let o = HandlerOutcome { hovered, commands: Vec::new(), result: WmResult::Delegate };
    proof {
        assert(o.commands_view() =~= Seq::<CommandView>::empty());
    }
    o
}

/// An outcome with one command.
fn one_command_outcome(hovered: HoveredButton, command: HostCommand, result: WmResult) -> (o:
    HandlerOutcome)
    ensures
        outcome_matches(
            o,
            HandlerSpec { hovered, commands: seq![command@], result },
        ),
{
    let ghost command_view = command@;
    let mut commands: Vec<HostCommand> = Vec::new();
    commands.push(command);
    let o = HandlerOutcome { hovered, commands, result };
    proof {
        assert(o.commands_view() =~= seq![command_view]);
    }
    o
}

/// Handle one message: every decision the window makes for it, from
/// plain values to plain values.
pub fn handle_message(hovered: HoveredButton, msg: &WindowMessage, host: &HostInfo) -> (o:
    HandlerOutcome)
    ensures
        outcome_matches(o, spec_handle(hovered, *msg, *host)),
{
    match msg {
        WindowMessage::NcCalcSize { has_params, proposed } => {
            if !*has_params {
                delegate_outcome(hovered)
            } else {
                let rect_ok = layout_rect_ok(proposed);
                let m_ok = metrics_ok(host.frame_x, host.frame_y, host.padding);
                if !(rect_ok && m_ok) {
                    delegate_outcome(hovered)
                } else {
                    let adjusted = adjust_client_rect(
                        proposed,
                        host.frame_x,
                        host.frame_y,
                        host.padding,
                        host_is_maximized(host),
                    );
                    one_command_outcome(
                        hovered,
                        HostCommand::SetClientRect(adjusted),
                        WmResult::Value(0),
                    )
                }
            }
        },
        WindowMessage::Created { window_rect } => {
            match window_rect {
                Option::Some(r) => one_command_outcome(
                    hovered,
                    HostCommand::RefreshFrame(*r),
                    WmResult::Delegate,
                ),
                Option::None => delegate_outcome(hovered),
            }
        },
        WindowMessage::ActivationChanged => {
            match host_title_bar(host) {
                Option::Some(title_bar) => one_command_outcome(
                    hovered,
                    HostCommand::Invalidate(title_bar),
                    WmResult::Delegate,
                ),
                Option::None => delegate_outcome(hovered),
            }
        },
        WindowMessage::NcHitTest { host_code, cursor } => {
            if !metrics_ok(host.frame_x, host.frame_y, host.padding) {
                delegate_outcome(hovered)
            } else {
                let title_bar_bottom: Option<i32> = match host_title_bar(host) {
                    Option::Some(title_bar) => Option::Some(title_bar.bottom),
                    Option::None => Option::None,
                };
                let region = resolve_hit_test(
                    *host_code,
                    hovered,
                    *cursor,
                    host.frame_y,
                    host.padding,
                    title_bar_bottom,
                );
                let o = HandlerOutcome {
                    hovered,
                    commands: Vec::new(),
                    result: WmResult::Value(hit_result_code(region, *host_code)),
                };
                proof {
                    assert(o.commands_view() =~= Seq::<CommandView>::empty());
                }
                o
            }
        },
        WindowMessage::Paint { invalidated } => {
            match (host.client_rect, host.caption_height) {
                (Option::Some(client), Option::Some(caption_height)) => {
                    if layout_inputs_ok(&client, host.dpi, caption_height) {
                        let ops = win32_paint_ops(
                            invalidated,
                            &client,
                            host.dpi,
                            caption_height,
                            hovered,
                            host_is_maximized(host),
                            host.has_focus,
                        );
                        one_command_outcome(hovered, HostCommand::Draw(ops), WmResult::Delegate)
                    } else {
                        delegate_outcome(hovered)
                    }
                },
                _ => delegate_outcome(hovered),
            }
        },
        WindowMessage::NcPointerMove { cursor } => {
            match cursor {
                Option::None => delegate_outcome(hovered),
                Option::Some(p) => {
                    match host_buttons(host) {
                        Option::None => delegate_outcome(hovered),
                        Option::Some(buttons) => {
                            let new_hovered = hovered_at(&buttons, *p);
                            if new_hovered == hovered {
                                delegate_outcome(hovered)
                            } else {
                                let mut commands: Vec<HostCommand> = Vec::new();
                                commands.push(HostCommand::Invalidate(buttons.close));
                                commands.push(HostCommand::Invalidate(buttons.minimize));
                                commands.push(HostCommand::Invalidate(buttons.maximize));
                                let o = HandlerOutcome {
                                    hovered: new_hovered,
                                    commands,
                                    result: WmResult::Delegate,
                                };
                                proof {
                                    assert(o.commands_view() =~= seq![
                                        CommandView::Invalidate(buttons.close),
                                        CommandView::Invalidate(buttons.minimize),
                                        CommandView::Invalidate(buttons.maximize),
                                    ]);
                                }
                                o
                            }
                        },
                    }
                },
            }
        },
        WindowMessage::PointerMove => {
            if hovered == HoveredButton::NoButton {
                delegate_outcome(hovered)
            } else {
                match host_title_bar(host) {
                    Option::Some(title_bar) => one_command_outcome(
                        HoveredButton::NoButton,
                        HostCommand::Invalidate(title_bar),
                        WmResult::Delegate,
                    ),
                    Option::None => delegate_outcome(hovered),
                }
            }
        },
        WindowMessage::NcButtonDown => {
            if hovered == HoveredButton::NoButton {
                delegate_outcome(hovered)
            } else {
                let o = HandlerOutcome {
                    hovered,
                    commands: Vec::new(),
                    result: WmResult::Value(0),
                };
                proof {
                    assert(o.commands_view() =~= Seq::<CommandView>::empty());
                }
                o
            }
        },
        WindowMessage::NcButtonUp => {
            match hovered {
                HoveredButton::Close => one_command_outcome(
                    hovered,
                    HostCommand::RequestClose,
                    WmResult::Value(0),
                ),
                HoveredButton::Minimize => one_command_outcome(
                    hovered,
                    HostCommand::ShowMinimized,
                    WmResult::Value(0),
                ),
                HoveredButton::Maximize => {
                    if host_is_maximized(host) {
                        one_command_outcome(hovered, HostCommand::ShowRestored, WmResult::Value(0))
                    } else {
                        one_command_outcome(hovered, HostCommand::ShowMaximized, WmResult::Value(0))
                    }
                },
                HoveredButton::NoButton => delegate_outcome(hovered),
            }
        },
        WindowMessage::CursorShape => one_command_outcome(
            hovered,
            HostCommand::SetArrowCursor,
            WmResult::Delegate,
        ),
        WindowMessage::Destroyed => one_command_outcome(
            hovered,
            HostCommand::Quit,
            WmResult::Value(0),
        ),
        WindowMessage::Other => delegate_outcome(hovered),
    }
}

/// Check a proposed frame rectangle from a size negotiation.
fn layout_rect_ok(r: &Rect) -> (ok: bool)
    ensures
        ok == crate::layout::host_rect_ok(*r),
{
    r.left <= r.right && r.top <= r.bottom && -crate::layout::MAX_HOST_COORD <= r.left && r.left
        <= crate::layout::MAX_HOST_COORD && -crate::layout::MAX_HOST_COORD <= r.top && r.top
        <= crate::layout::MAX_HOST_COORD && -crate::layout::MAX_HOST_COORD <= r.right && r.right
        <= crate::layout::MAX_HOST_COORD && -crate::layout::MAX_HOST_COORD <= r.bottom && r.bottom
        <= crate::layout::MAX_HOST_COORD
}

/// Whether the host state says the window is maximized.
fn host_is_maximized(host: &HostInfo) -> (r: bool)
    ensures
        r == spec_is_maximized(*host),
{
    match host.show_cmd {
        Option::Some(show_cmd) => win32_window_is_maximized(show_cmd),
        Option::None => false,
    }
}

/// The title-bar rectangle for the queried host state, when it can be
/// derived.
fn host_title_bar(host: &HostInfo) -> (r: Option<Rect>)
    ensures
        spec_host_layout_ok(*host) ==> r == Option::Some(spec_host_title_bar(*host)),
        !spec_host_layout_ok(*host) ==> r == Option::<Rect>::None,
{
    match (host.client_rect, host.caption_height) {
        (Option::Some(client), Option::Some(caption_height)) => {
            if layout_inputs_ok(&client, host.dpi, caption_height) {
                Option::Some(win32_titlebar_rect(&client, host.dpi, caption_height))
            } else {
                Option::None
            }
        },
        _ => Option::None,
    }
}

/// The button rectangles for the queried host state, when they can be
/// derived.
fn host_buttons(host: &HostInfo) -> (r: Option<ButtonRects>)
    ensures
        spec_host_layout_ok(*host) ==> r == Option::Some(spec_host_buttons(*host)),
        !spec_host_layout_ok(*host) ==> r == Option::<ButtonRects>::None,
{
    match host_title_bar(host) {
        Option::Some(title_bar) => {
            proof {
                if spec_host_layout_ok(*host) {
                    crate::layout::lemma_title_bar_rect_bounds(
                        host.client_rect->Some_0,
                        host.dpi,
                        host.caption_height->Some_0,
                    );
                }
            }
            Option::Some(ButtonRects::win32_get_title_bar_button_rects(&title_bar, host.dpi))
        },
        Option::None => Option::None,
    }
}

} // verus!
