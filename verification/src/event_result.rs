//! Results handed back by the widgets after handling one input event.

use vstd::prelude::*;

use crate::state::{State, SubState};

verus! {

/// Enum representing the different event results.
#[derive(Debug, Clone, Copy, PartialEq, Eq)]
pub enum EventResult {
    /// The user confirmed the current input (Enter in a text box).
    Submit,
    /// Request to move the application to the given state.
    SetState(State),
    /// Request to move the menu to the given substate.
    SetSubState(SubState),
    /// Nothing to apply; carries the error status of the event.
    Nothing(ResultError),
    /// Request to exit the application.
    Exit,
}

/// Enum representing the different result errors.
#[derive(Debug, Clone, Copy, PartialEq, Eq)]
pub enum ResultError {
    NoError,
    SQLite,
    Io,
    NoLessons,
    MaxLenReached,
    Timestamp,
    WrongInput,
    OutOfBounds,
    TextBoxError,
}

impl ResultError {
    /// The status line shown for this error.
    pub open spec fn message_spec(self) -> Seq<char> {
        match self {
            ResultError::NoError => "No error occurred!"@,
            ResultError::SQLite => "SQLite error occurred!"@,
            ResultError::Io => "Io error occurred!"@,
            ResultError::NoLessons => "No lessons found!"@,
            ResultError::MaxLenReached => "Max length reached!"@,
            ResultError::Timestamp => "Timestamp error occurred!"@,
            ResultError::WrongInput => "Wrong input!"@,
            ResultError::OutOfBounds => "Out of bounds error occurred!"@,
            ResultError::TextBoxError => "TextBox error occurred!"@,
        }
    }

    /// Render the error as a status message.
    pub fn message(&self) -> (r: String)
        ensures
            r@ == self.message_spec(),
    {
        match self {
            ResultError::NoError => "No error occurred!".to_owned(),
            ResultError::SQLite => "SQLite error occurred!".to_owned(),
            ResultError::Io => "Io error occurred!".to_owned(),
            ResultError::NoLessons => "No lessons found!".to_owned(),
            ResultError::MaxLenReached => "Max length reached!".to_owned(),
            ResultError::Timestamp => "Timestamp error occurred!".to_owned(),
            ResultError::WrongInput => "Wrong input!".to_owned(),
            ResultError::OutOfBounds => "Out of bounds error occurred!".to_owned(),
            ResultError::TextBoxError => "TextBox error occurred!".to_owned(),
        }
    }
}

} // verus!
