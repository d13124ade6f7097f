//! Interactive selection engine of a Wayland screen-capture tool: the
//! selection rectangle and its edits, the per-monitor model and projection,
//! the capture barrier, output assembly geometry, JPEG output and the state
//! machine that reacts to pointer, keyboard and compositor events.

pub mod action;
pub mod config;
pub mod select_rect;
pub mod monitors;
pub mod notify;
pub mod zwlr_screencopy_mode;
pub mod wayland_ctx;
pub mod save_helper;
pub mod foamcore;
pub mod jpg;
