//! Types that the bot server exchanges with message handlers.
pub mod handler;
