//! Stored data of the bot.

pub mod bindings;
