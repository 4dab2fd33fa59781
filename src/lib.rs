//! Display power agent: a message-bus control loop that switches a display
//! on and off, with a verified connection-lifecycle state machine, message
//! decoder, backoff policy and actuation gate.

pub mod autostart;
pub mod backoff;
pub mod config;
pub mod decoder;
pub mod icon;
pub mod screen;
pub mod session;
pub mod stats;
pub mod supervisor;

pub use autostart::{toggle_autostart, toggle_plan, AutostartChange};
pub use icon::generate_icon_rgba;
pub use screen::{get_display_state, set_display_smart, ActuationGate, ScreenState};
