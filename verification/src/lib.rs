//! Verified core of a desktop pet application.
//!
//! The modules hold the rules of the application as plain values and functions:
//! which frame is shown, what a settings patch changes, what a click means, which
//! step follows a landing, when a worker is due. Windows, threads, files and the
//! event bus are driven from outside; they hand plain values in and act on what
//! comes back.

pub mod bridge;
pub mod calendar;
pub mod commands;
pub mod coreloop;
pub mod economy_rt;
pub mod hit_latest;
pub mod hook_sink;
pub mod interaction_consumer;
pub mod ports;
pub mod queue;
pub mod scalar;
pub mod supervisor;
pub mod text;
pub mod tray_menu;
