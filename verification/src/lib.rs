//! Command parsing, help text and webhook checks for a Threema Gateway bot.
pub mod text;
pub mod commands;
pub mod errors;
pub mod webhook;
pub mod server;
