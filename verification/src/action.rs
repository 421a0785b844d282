//! One-letter menu actions.

use vstd::prelude::*;

use crate::strutil::str_eq;

verus! {

#[derive(Debug, Clone, Copy, PartialEq, Eq)]
pub enum Action {
    Help,
    Print,
    Append,
    Delete,
    Exit,
    Invalid,
}

/// The action named by `s`: a single letter, either case; anything else is
/// invalid.
pub open spec fn action_of(s: Seq<char>) -> Action {
    if s == "h"@ || s == "H"@ {
        Action::Help
    } else if s == "p"@ || s == "P"@ {
        Action::Print
    } else if s == "a"@ || s == "A"@ {
        Action::Append
    } else if s == "d"@ || s == "D"@ {
        Action::Delete
    } else if s == "e"@ || s == "E"@ {
        Action::Exit
    } else {
        Action::Invalid
    }
}

impl Action {
    /// Parse an action from its one-letter name, ignoring letter case.
    pub fn from(from: &str) -> (r: Self)
        ensures
            r == action_of(from@),
    {
        if str_eq(from, "h") || str_eq(from, "H") {
            Action::Help
        } else if str_eq(from, "p") || str_eq(from, "P") {
            Action::Print
        } else if str_eq(from, "a") || str_eq(from, "A") {
            Action::Append
        } else if str_eq(from, "d") || str_eq(from, "D") {
            Action::Delete
        } else if str_eq(from, "e") || str_eq(from, "E") {
            Action::Exit
        } else {
            Action::Invalid
        }
    }
}

} // verus!
