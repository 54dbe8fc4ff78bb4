//! Decision logic for a chat bot that opens modal (pop-up form) dialogs.
//!
//! Every inbound gateway event is reduced to a plain value; the functions
//! here map each event to the response the bot owes for it. The gateway
//! client itself (websocket, dispatch, retries) lives outside this crate.

pub mod config;
pub mod handler;
pub mod model;
