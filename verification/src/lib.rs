//! Custom window title bar chrome: the verified core of an application-drawn
//! title bar that keeps native window-management behaviour.
//!
//! The library holds the geometry, layout, hit-testing, hover tracking,
//! painting and command-dispatch logic as pure functions over plain values.
//! The host-facing shell (window creation, the message pump, the drawing
//! primitives) lives outside and hands every handler call the values it
//! queried from the host.

pub mod color;
pub mod geometry;
pub mod handler;
pub mod hittest;
pub mod hover;
pub mod layout;
pub mod paint;
pub mod sizing;
pub mod params;

pub use color::{get_b_value, get_g_value, get_r_value, rgb};
pub use geometry::{win32_center_rect_in_rect, win32_dpi_scale, Point, Rect};
pub use params::{get_x_param, get_y_param, make_point_param};
