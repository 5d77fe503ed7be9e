//! A status bar widget library: a progress/health/mana bar model.
//!
//! The widget holds a progress value inside an inclusive `[min, max]` range
//! and a direction; a synchronization routine maps the progress linearly onto
//! a percentage and rewrites one axis of each tagged child node's size.

pub mod mapping;
pub mod status_bar;

pub use mapping::{map_range, map_range_spec, div_trunc, in_val_range, VAL_LIMIT};
pub use status_bar::{
    StatusBarWidget, StatusBarDirection, StatusBarInner, Val, Size, is_synced, update_status_bar,
};
