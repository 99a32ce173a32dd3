//! Cinema-schedule chat dialogue core: a token codec for the buttons of an
//! inline keyboard, a pagination cursor over a result set whose size can
//! change between renders, and the conversation state machine that turns a
//! decoded button press into render effects and a next state.
//!
//! All I/O (chat transport, relational store, clock, web) stays outside; the
//! modules here work on plain values and are verified.

pub mod callback_handler;
pub mod callbackdata;
pub mod dates;
pub mod dialogue;
pub mod keyboard;
pub mod numbers;
pub mod scrape;
pub mod store;
pub mod tools;
