//! The decisions of a Telegram bot that unpins channel posts forwarded into
//! the connected discussion group.

pub mod chat;
pub mod commands;
pub mod config;
pub mod dispatch;
pub mod i18n;
pub mod laws;
pub mod path;
pub mod profile;
pub mod retry;
pub mod rights;
pub mod state;
pub mod text;
pub mod unpin;
