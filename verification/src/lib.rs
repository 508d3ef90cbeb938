//! Sly: a Discord bot that links Discord users to Steam accounts and
//! suggests games from their Steam library or wishlist.
//!
//! This crate holds the bot's decisions: how a chat message is routed to a
//! command, how the store of account links changes, and what each command
//! answers. Sending and receiving (gateway, HTTP, files) is done by callers.

pub mod bot;
pub mod command_parse;
pub mod commands;
pub mod data;
pub mod dispatch;
pub mod embed;
pub mod random;
pub mod schemas;
pub mod text;
