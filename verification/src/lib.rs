//! Interactive editor for tipp10 typing-session records.
//!
//! The crate is organised around five components: a cursor-addressable text
//! buffer (`text_box`), a persistence layer over an embedded SQLite table
//! (`db` for the trusted statement wrappers, `store` for the verified
//! operations on top of them), a field-sequenced record editor
//! (`lesson_widget`), a scrollable record-list controller
//! (`lessons_widget`), and the application state machine (`tipp10w`) that
//! routes each input event to whichever component is active.

pub mod action;
pub mod action_selection;
pub mod clock;
pub mod db;
pub mod digits;
pub mod event_result;
pub mod input;
pub mod lesson;
pub mod lesson_savedata;
pub mod lesson_selection;
pub mod lesson_widget;
pub mod lessons_widget;
pub mod parameter_widget;
pub mod state;
pub mod store;
pub mod strutil;
pub mod text_box;
pub mod tipp10w;
