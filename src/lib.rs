//! Per-chat ephemeral-screen navigation for a menu-driven catalog bot.
//!
//! Every navigation step retires the messages of the previous screen before
//! the next screen is rendered, so that a chat shows exactly one screen.
pub mod screen;
pub mod keyboard;
pub mod catalog;
pub mod store;
pub mod engine;
pub mod laws;
