//! Input dispatching: keyboards and pointers.

pub mod keyboard;
pub mod manager;
pub mod pointer;
