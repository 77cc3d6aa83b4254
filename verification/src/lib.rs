//! A Discord bot that answers chat commands, keeps per-user settings and
//! relays an IRC channel, with its decisions verified: command parsing,
//! payload routing, and the reaction of the bot's state to each event.
//! Reading and writing the connections is left to the program around it.

pub mod bot;
pub mod command;
pub mod event;
pub mod gateway;
pub mod irc;
pub mod laws;
pub mod text;
pub mod user;
