//! Cascaded first-order low-pass filters (one, two and three poles) in fixed point.
//!
//! Samples are `i32` values in whatever unit the caller uses; the filters are linear,
//! so the scale of a sample does not matter. The per-step gain `k` is held as a
//! fraction of [`GAIN_ONE`]. Cutoff frequencies are given in millihertz and sample
//! periods in microseconds.
pub mod gain;
pub mod pole;
pub mod cascade;
pub mod filters;

pub use gain::{FilterError, GAIN_ONE, filter_gain};
pub use filters::{
    Filter, Pt1, Pt2, Pt3, adjust_pt1_gain, adjust_pt2_gain, adjust_pt3_gain, apply_pt1, apply_pt2,
    apply_pt3, make_pt1, make_pt2, make_pt3,
};
