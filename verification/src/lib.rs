//! Verified core of a clipboard translation daemon: the rules that decide
//! which clipboard text is worth translating, how a model reply is read,
//! what a notification says, and how the pause switch behaves.

pub mod config;
pub mod state;
pub mod text;
pub mod hotkey;
pub mod tray;
pub mod clipboard;
pub mod translator;
pub mod pipeline;
pub mod control;
