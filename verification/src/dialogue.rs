//! The conversation's persisted state and the render effects the handlers
//! ask the chat transport to perform.
//!
//! Handlers never talk to the transport themselves: they return [`Effect`]
//! values describing the sends, edits and deletions, and an [`Outcome`]
//! saying what to persist. The driver outside the library performs the
//! effects in order and stores the outcome.

use vstd::prelude::*;
use crate::callbackdata::{CallbackDataCinema, CallbackDataDefault};
use crate::keyboard::Keyboard;

verus! {

/// Where a conversation stands, persisted per chat between interactions.
#[derive(Debug, Default, Clone)]
pub enum State {
    /// Picking the day; the entry screen.
    #[default]
    DayOption,
    /// Picking between "all movies" and "by cinema".
    StartOption { date: crate::dates::Date },
    /// Picking a cinema.
    Cinemas { date: crate::dates::Date },
    /// Browsing the paginated list of one cinema's movies.
    FromCinema { data: CallbackDataCinema },
    /// Browsing the paginated list over every cinema.
    FromMovie { data: CallbackDataDefault },
}

/// What the handler wants done with the conversation state afterwards.
#[derive(Debug, Clone)]
pub enum Outcome {
    /// Persist this state.
    Update(State),
    /// Keep the state that is already stored.
    Keep,
    /// Drop the conversation state entirely.
    Exit,
}

/// One render-boundary action, in the order returned.
#[derive(Debug, Clone)]
pub enum Effect {
    /// Replace the text and keyboard of an existing message.
    EditMessage { chat_msg_id: i32, text: String, keyboard: Keyboard },
    /// Replace the text of an existing message, dropping its keyboard.
    EditMessageText { chat_msg_id: i32, text: String },
    /// Send a new message.
    SendMessage { text: String, keyboard: Keyboard },
    /// Delete a message.
    DeleteMessage { chat_msg_id: i32 },
    /// Answer the pressed button with a transient alert.
    AnswerAlert { text: String },
}

/// Which screen "one level up" from a browse list is.
#[derive(Debug, Clone, Copy, PartialEq, Eq, Structural)]
pub enum PrevTarget {
    /// Back to the all-movies/by-cinema choice.
    MainMenu,
    /// Back to the cinema choice, which needs the cinema list queried anew.
    CinemaMenu,
}

} // verus!
