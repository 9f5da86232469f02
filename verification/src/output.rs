//! Outputs: arrival, layout placement, and the per-frame render loop.

pub mod manager;
pub mod output;
