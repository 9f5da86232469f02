//! Shell-surface handling.

pub mod xdg_v6;
