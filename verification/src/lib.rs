//! Window and event-loop logic of the OpenHarmony backend of a windowing library.
//!
//! The ability framework reports lifecycle and input events; this crate decides which window
//! events they become, keeps the state those decisions depend on, and says which calls the
//! platform layer has to make.

pub mod ability;
pub mod binary64;
pub mod channel;
pub mod color;
pub mod event;
pub mod event_loop;
pub mod geometry;
pub mod handles;
pub mod ids;
pub mod inbox;
pub mod input;
pub mod keyboard;
pub mod links;
pub mod monitor;
pub mod window;
