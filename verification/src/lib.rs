//! The decision core of a windowing backend for OpenHarmony.
//!
//! The crate holds what the backend decides: which events reach the
//! application for each event of the system, which calls go over the window
//! bridge for each request of the application, and what the cached state is in
//! between. The parts that talk to the system pass plain values in and carry
//! out what comes back.

pub mod address;
pub mod channel;
pub mod device;
pub mod dpi;
pub mod error;
pub mod event;
pub mod event_laws;
pub mod event_loop;
pub mod float;
pub mod handle;
pub mod ids;
pub mod inbox;
pub mod input;
pub mod keyboard;
pub mod laws;
pub mod monitor;
pub mod state;
pub mod theme;
pub mod window;
pub mod window_laws;
