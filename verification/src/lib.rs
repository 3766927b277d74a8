//! Status aggregation behind a small persistent status-bar widget.
//!
//! Several independently updating sources — per-provider install statuses,
//! per-provider progress work, an optional application auto-updater, and a
//! registry of named background tasks — are reduced on every change to one
//! prioritized status line with at most one click action.

pub mod content;
pub mod indicator;
pub mod pending;
pub mod status;
pub mod text;
