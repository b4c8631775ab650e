//! Client logic for a chat platform's private REST API: the two-step login
//! protocol (credentials, then an optional one-time code) and the listing of
//! guilds and their voice channels.
//!
//! Transport and JSON decoding are left to the caller; every decision taken on
//! what came back lives here and is verified.
pub mod discord;

pub use discord::endpoint;
pub use discord::login;
