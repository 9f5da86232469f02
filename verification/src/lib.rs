//! Core logic of a small display-server compositor.
//!
//! The compositor coordinates access to backend-owned objects (outputs,
//! input devices, surfaces, the cursor, the seat) whose lifetimes the
//! backend controls: a monitor can be unplugged or a client surface
//! destroyed between the moment a reference is stored and the moment it
//! is used.  Every stored reference is therefore a weak [`handle::Handle`]
//! resolved through the [`handle::Broker`] before use.
//!
//! The modules hold the decision logic of the compositor: what each
//! device or protocol event does to the compositor state, and which
//! backend actions it requests.  Performing those actions (drawing,
//! seat notifications, device attachment) is left to the thin runtime
//! around this library.

pub mod geometry;
pub mod handle;
pub mod state;
pub mod shells;
pub mod input;
pub mod output;
pub mod logger;
pub mod run;
