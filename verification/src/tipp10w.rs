//! The top-level application state machine.
//!
//! In `Setup` every event feeds the path text box; confirming the input
//! tries to open the store, staying in `Setup` (with the input cleared) when
//! that fails.  In `Menu` every event goes to the record-list controller,
//! whose transition requests become state changes and whose errors become
//! the current status message.

use vstd::prelude::*;

use vstd::string::StringExecFns;

use crate::db::{open_connection, table_of};
use crate::event_result::{EventResult, ResultError};
use crate::input::{InputEvent, KeyCode};
use crate::lessons_widget::{list_step, widgets_of};
use crate::state::{AppState, State, SubState};
use crate::text_box::TextBox;

verus! {

/// Main application struct for Tipp10W
pub struct Tipp10W {
    /// Holds the state of the application
    pub app_state: AppState,
    /// Database connection to the SQLite database; `Some` once setup completed
    pub conn: Option<rusqlite::Connection>,
}

/// What one event does in the `Setup` state.
pub open spec fn setup_step(pre: Tipp10W, event: InputEvent, post: Tipp10W, r: EventResult) -> bool {
    if event matches InputEvent::Key(KeyCode::Esc) {
        post == pre && r == EventResult::Exit
    } else if event matches InputEvent::Key(KeyCode::Enter) {
        // The entered path is confirmed: try to open the store there.
        &&& (r == EventResult::Nothing(ResultError::NoError) ==> {
            // The store opened and the record list was mirrored.
            &&& post.app_state.state == State::Menu(SubState::Browse)
            &&& (match post.conn {
                Some(c) => post.app_state.lessons_widget.lessons@ == widgets_of(table_of(c)),
                None => false,
            })
            &&& post.app_state.text_box.text() == Seq::<char>::empty()
            &&& post.app_state.lessons_widget.ptr == if post.app_state.lessons_widget.lessons@.len()
                > 0 {
                (post.app_state.lessons_widget.lessons@.len() - 1) as usize
            } else {
                pre.app_state.lessons_widget.ptr
            }
        })
        &&& (r == EventResult::Nothing(ResultError::SQLite) ==> {
            // Either the store could not be opened (input cleared, still in
            // Setup), or it opened but the first mirror refresh failed.
            &&& (post.app_state.state == State::Setup || post.app_state.state == State::Menu(
                SubState::Browse,
            ))
            &&& (post.app_state.state == State::Setup ==> {
                &&& post.conn == pre.conn
                &&& post.app_state.text_box.text() == Seq::<char>::empty()
                &&& post.app_state.lessons_widget == pre.app_state.lessons_widget
            })
            &&& (post.app_state.state == State::Menu(SubState::Browse) ==> post.conn is Some)
        })
        &&& (r == EventResult::Nothing(ResultError::NoError) || r == EventResult::Nothing(
            ResultError::SQLite,
        ))
    } else {
        // Every other event goes to the path text box.
        &&& post.app_state.state == pre.app_state.state
        &&& post.app_state.lessons_widget == pre.app_state.lessons_widget
        &&& post.conn == pre.conn
        &&& TextBox::step(pre.app_state.text_box, event, post.app_state.text_box, r)
    }
}

/// What one event does in the `Menu` state with an open store: the
/// controller takes a [`list_step`], and its result is interpreted as a
/// state transition or surfaced as the status message.  A storage failure
/// reported while a record is open for editing also leaves editing.
pub open spec fn menu_step(
    pre: Tipp10W,
    sub: SubState,
    event: InputEvent,
    post: Tipp10W,
    r: EventResult,
    wr: EventResult,
) -> bool {
    &&& (match (pre.conn, post.conn) {
        (Some(c1), Some(c2)) => list_step(
            pre.app_state.lessons_widget,
            pre.app_state.text_box,
            event,
            sub,
            post.app_state.lessons_widget,
            post.app_state.text_box,
            table_of(c1),
            table_of(c2),
            wr,
        ),
        _ => false,
    })
    &&& (match wr {
        EventResult::SetState(s) => {
            &&& post.app_state.state == s
            &&& post.app_state.error == pre.app_state.error
            &&& r == EventResult::Nothing(ResultError::NoError)
        },
        EventResult::SetSubState(s) => {
            &&& post.app_state.state == State::Menu(s)
            &&& post.app_state.error == pre.app_state.error
            &&& r == EventResult::Nothing(ResultError::NoError)
        },
        EventResult::Nothing(e) => {
            if e is NoError {
                &&& post.app_state.state == pre.app_state.state
                &&& post.app_state.error@ == Seq::<char>::empty()
                &&& r == EventResult::Nothing(ResultError::NoError)
            } else {
                &&& post.app_state.state == if e is SQLite && sub is Edit {
                    State::Menu(SubState::Browse)
                } else {
                    pre.app_state.state
                }
                &&& post.app_state.error@ == e.message_spec()
                &&& r == EventResult::Nothing(e)
            }
        },
        _ => post.app_state.state == pre.app_state.state && post.app_state.error
            == pre.app_state.error && r == wr,
    })
}

/// Whenever one record is open for editing, a record with that id is
/// present in the mirrored list.
pub open spec fn edit_targets_mirrored(t: Tipp10W) -> bool {
    t.app_state.state matches State::Menu(SubState::Edit(id)) ==> exists|j: int|
        0 <= j < t.app_state.lessons_widget.lessons@.len() && (#[trigger] t.app_state.lessons_widget.lessons@[j]).lesson.id == id
}

/// State-invariant law: a menu step never opens a record that is missing
/// from the mirrored list — `Edit(id)` is only reached with `id` present.
pub proof fn lemma_menu_step_keeps_edit_mirrored(
    pre: Tipp10W,
    sub: SubState,
    event: InputEvent,
    post: Tipp10W,
    r: EventResult,
    wr: EventResult,
)
    requires
        pre.app_state.state == State::Menu(sub),
        pre.app_state.lessons_widget.wf(),
        edit_targets_mirrored(pre),
        menu_step(pre, sub, event, post, r, wr),
    ensures
        edit_targets_mirrored(post),
{
    let pre_w = pre.app_state.lessons_widget;
    let post_w = post.app_state.lessons_widget;
    match post.app_state.state {
        State::Menu(SubState::Edit(id2)) => match event {
            InputEvent::Key(k) => match sub {
                SubState::Browse => match k {
                    KeyCode::Enter => {
                        // Opening the selected record: it sits at the pointer.
                        assert(post_w.lessons@[pre_w.ptr as int].lesson.id == id2);
                    },
                    KeyCode::Char(c) => {
                        if c == 'n' {
                            // The fresh record is the last of the refreshed
                            // mirror, and it bears the new id.
                            let n = post_w.lessons@.len();
                            assert(post_w.lessons@[n - 1].lesson.id == id2);
                        }
                    },
                    _ => {},
                },
                SubState::Edit(id0) => {
                    // Editing keeps every mirrored id: the dispatched editor
                    // never changes its record's id.
                    if exists|j: int|
                        0 <= j < pre_w.lessons@.len() && (#[trigger] pre_w.lessons@[j]).lesson.id
                            == id0 {
                        let j = choose|j: int|
                            {
                                &&& 0 <= j < pre_w.lessons@.len()
                                &&& (#[trigger] pre_w.lessons@[j]).lesson.id == id0
                                &&& forall|q: int|
                                    0 <= q < j ==> (#[trigger] pre_w.lessons@[q]).lesson.id != id0
                                &&& post_w.lessons@ == pre_w.lessons@.update(
                                    j,
                                    post_w.lessons@[j],
                                )
                                &&& post_w.ptr == pre_w.ptr
                                &&& crate::lesson_widget::edit_step(
                                    pre_w.lessons@[j],
                                    pre.app_state.text_box,
                                    event,
                                    post_w.lessons@[j],
                                    post.app_state.text_box,
                                    crate::db::table_of(pre.conn->0),
                                    crate::db::table_of(post.conn->0),
                                    wr,
                                )
                            };
                        assert(post_w.lessons@[j].lesson.id == pre_w.lessons@[j].lesson.id);
                        assert(id2 == id0);
                        assert(post_w.lessons@[j].lesson.id == id0 || exists|q: int|
                            0 <= q < post_w.lessons@.len() && (#[trigger] post_w.lessons@[q]).lesson.id
                                == id2);
                    }
                },
            },
            _ => {},
        },
        _ => {},
    }
}

impl Tipp10W {
    /// The widgets the machine routes into are well formed.
    pub open spec fn wf(&self) -> bool {
        self.app_state.wf()
    }

    /// Creates a new instance of Tipp10W with default values
    pub fn new() -> (r: Self)
        ensures
            r.wf(),
            r.app_state.state == State::Setup,
            r.conn is None,
            r.app_state.text_box.text() == Seq::<char>::empty(),
            r.app_state.lessons_widget.lessons@ == Seq::<
                crate::lesson_widget::LessonWidget,
            >::empty(),
    {
        Self { app_state: AppState::new(), conn: None }
    }

    /// Constructs the path to the database file under the given directory.
    pub fn get_path_to_db(path: &str) -> (r: String)
        ensures
            r@ == path@ + "/portable/tipp10v2.db"@,
    {
        let mut p = path.to_owned();
        p.append("/portable/tipp10v2.db");
        p
    }

    /// Route one input event to the component that is active for the
    /// current state and apply the resulting transition.
    pub fn handle_events(&mut self, event: &InputEvent) -> (r: EventResult)
        requires
            old(self).wf(),
        ensures
            final(self).wf(),
            match old(self).app_state.state {
                State::Setup => setup_step(*old(self), *event, *final(self), r),
                State::Menu(sub) => {
                    if old(self).conn is Some {
                        exists|wr: EventResult|
                            menu_step(*old(self), sub, *event, *final(self), r, wr)
                    } else {
                        // No store is open: fall back to Setup.
                        &&& final(self).app_state.state == State::Setup
                        &&& final(self).conn is None
                        &&& r == EventResult::SetState(State::Setup)
                    }
                },
            },
    {
        match self.app_state.state {
            State::Setup => {
                if let InputEvent::Key(KeyCode::Esc) = event {
                    return EventResult::Exit;
                }
                let tb_result = self.app_state.text_box.handle_events(event);
                match tb_result {
                    EventResult::Submit => {
                        // Open a connection to the database using the path
                        // from the text box buffer
                        let buf = self.app_state.text_box.get_buffer();
                        let path = Self::get_path_to_db(buf.as_str());
                        match open_connection(path.as_str()) {
                            Ok(c) => {
                                // Mirror the record list, then enter the menu
                                let refreshed =
                                    self.app_state.lessons_widget.update_lessons_and_move_ptr_to_last(
                                    &c,
                                );
                                self.conn = Some(c);
                                self.app_state.state = State::Menu(SubState::Browse);
                                match refreshed {
                                    Ok(()) => {
                                        self.app_state.text_box.reset();
                                        EventResult::Nothing(ResultError::NoError)
                                    },
                                    Err(_) => EventResult::Nothing(ResultError::SQLite),
                                }
                            },
                            Err(_) => {
                                self.app_state.text_box.reset();
                                EventResult::Nothing(ResultError::SQLite)
                            },
                        }
                    },
                    // Return the original event result for other cases
                    other => other,
                }
            },
            State::Menu(sub) => {
                match &mut self.conn {
                    Some(c) => {
                        let wr = self.app_state.lessons_widget.handle_events(
                            event,
                            &sub,
                            c,
                            &mut self.app_state.text_box,
                        );
                        let result = match wr {
                            EventResult::SetState(s) => {
                                // Change the application state
                                self.app_state.state = s;
                                EventResult::Nothing(ResultError::NoError)
                            },
                            EventResult::SetSubState(s) => {
                                // Change the substate of the Menu state
                                self.app_state.state = State::Menu(s);
                                EventResult::Nothing(ResultError::NoError)
                            },
                            EventResult::Nothing(e) => match e {
                                ResultError::NoError => {
                                    // Clear any existing error message
                                    self.app_state.error = String::new();
                                    EventResult::Nothing(ResultError::NoError)
                                },
                                ResultError::SQLite => {
                                    // A storage failure while editing exits
                                    // the editing session
                                    if let SubState::Edit(_) = sub {
                                        self.app_state.state = State::Menu(SubState::Browse);
                                    }
                                    self.app_state.error = ResultError::SQLite.message();
                                    EventResult::Nothing(ResultError::SQLite)
                                },
                                other_error => {
                                    // Surface the error as the status message
                                    self.app_state.error = other_error.message();
                                    EventResult::Nothing(other_error)
                                },
                            },
                            other => other,
                        };
                        proof {
                            assert(menu_step(
                                *old(self),
                                sub,
                                *event,
                                *self,
                                result,
                                wr,
                            ));
                        }
                        result
                    },
                    None => {
                        // If the connection is None, return to the Setup state
                        self.app_state.state = State::Setup;
                        EventResult::SetState(State::Setup)
                    },
                }
            },
        }
    }
}

} // verus!
