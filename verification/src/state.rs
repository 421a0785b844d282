//! The application's top-level states.

use vstd::prelude::*;

use crate::lessons_widget::LessonsWidget;
use crate::text_box::TextBox;

verus! {

/// Main application state: the current state, the shared input text box,
/// the record-list controller, and the current status message.
pub struct AppState {
    pub state: State,
    pub text_box: TextBox,
    pub lessons_widget: LessonsWidget,
    pub error: String,
}

impl AppState {
    /// The widgets a state machine routes into are well formed.
    pub open spec fn wf(&self) -> bool {
        &&& self.text_box.wf()
        &&& self.lessons_widget.wf()
    }

    /// Creates a new instance of AppState with default values
    pub fn new() -> (r: Self)
        ensures
            r.wf(),
            r.state == State::Setup,
            r.text_box.text() == Seq::<char>::empty(),
            r.text_box.pointer() == 0,
            r.text_box.limit() == Option::<usize>::None,
            r.lessons_widget.ptr == 0,
            r.lessons_widget.lessons@ == Seq::<crate::lesson_widget::LessonWidget>::empty(),
            r.error@ == Seq::<char>::empty(),
    {
        Self {
            state: State::Setup,
            text_box: TextBox::new(None),
            lessons_widget: LessonsWidget::new(),
            error: String::new(),
        }
    }
}

/// Identifier of a stored record.
pub type ID = usize;

/// Enum representing the different states of the application.
#[derive(Debug, Clone, Copy, PartialEq, Eq)]
pub enum State {
    /// Initial setup state: no store is open yet.
    Setup,
    /// The store is open; the menu is shown with a substate.
    Menu(SubState),
}

/// Enum representing the substates of the `Menu` state.
#[derive(Debug, Clone, Copy, PartialEq, Eq)]
pub enum SubState {
    /// One record, named by its id, is open for editing.
    Edit(ID),
    /// Browsing the record list.
    Browse,
}

} // verus!
