//! A bot that reads its access token from a configuration file, logs in to
//! the messaging service, and answers every message it receives with a fixed
//! text.
//!
//! The library holds the bot's decisions: what the configuration holds, the
//! texts it shows, and the session that turns each thing that happened into
//! the next thing to do. Performing those actions (files, network) is left to
//! the caller.
pub mod config;
pub mod laws;
pub mod session;
