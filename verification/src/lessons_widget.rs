//! The scrollable record-list controller.
//!
//! It mirrors the stored records locally, keeps a selection pointer clamped
//! to the list, and dispatches to the editor of the record that is open.

use vstd::prelude::*;

use crate::db::table_of;
use crate::event_result::{EventResult, ResultError};
use crate::input::{InputEvent, KeyCode};
use crate::lesson::Lesson;
use crate::lesson_widget::{edit_step, LessonWidget};
use crate::state::SubState;
use crate::store::{
    append_default_lesson, appended_row, delete_lesson, get_lessons, lessons_of, remove_id,
    renumbered,
};
use crate::text_box::TextBox;

verus! {

/// The widget list that mirrors the given table: one editor per record, in
/// stored order, each starting at its first field.
pub open spec fn widgets_of(table: Seq<crate::db::RowModel>) -> Seq<LessonWidget> {
    lessons_of(table).map_values(|l: Lesson| LessonWidget { ptr: 0, lesson: l })
}

// This widget is responsible for rendering and handling events for the lessons
pub struct LessonsWidget {
    pub ptr: usize,
    pub lessons: Vec<LessonWidget>,
}

/// What one input event does while browsing (`SubState::Browse`): how the
/// mirrored list, the selection pointer, and the stored table change, and
/// which result comes back.
pub open spec fn browse_step(
    pre: LessonsWidget,
    key: KeyCode,
    post: LessonsWidget,
    pre_table: Seq<crate::db::RowModel>,
    post_table: Seq<crate::db::RowModel>,
    r: EventResult,
) -> bool {
    let same = post.ptr == pre.ptr && post.lessons@ == pre.lessons@;
    let n = pre.lessons@.len();
    match key {
        KeyCode::Up => {
            &&& post.lessons@ == pre.lessons@
            &&& post.ptr == if pre.ptr > 0 {
                (pre.ptr - 1) as usize
            } else {
                0
            }
            &&& post_table == pre_table
            &&& r == EventResult::Nothing(ResultError::NoError)
        },
        KeyCode::Down => {
            &&& post.lessons@ == pre.lessons@
            &&& post.ptr == if n > 0 && pre.ptr < n - 1 {
                (pre.ptr + 1) as usize
            } else {
                pre.ptr
            }
            &&& post_table == pre_table
            &&& r == EventResult::Nothing(ResultError::NoError)
        },
        KeyCode::Enter => {
            if n == 0 {
                same && post_table == pre_table && r == EventResult::Nothing(
                    ResultError::NoLessons,
                )
            } else {
                same && post_table == pre_table && r == EventResult::SetSubState(
                    SubState::Edit(pre.lessons@[pre.ptr as int].lesson.id),
                )
            }
        },
        KeyCode::Delete => {
            if n == 0 {
                same && post_table == pre_table && r == EventResult::Nothing(
                    ResultError::NoLessons,
                )
            } else {
                match r {
                    EventResult::Nothing(ResultError::NoError) => {
                        let deleted = renumbered(
                            remove_id(pre_table, pre.lessons@[pre.ptr as int].lesson.id as u64),
                        );
                        &&& post_table == deleted
                        &&& post.lessons@ == widgets_of(deleted)
                        &&& post.ptr == if pre.ptr >= post.lessons@.len()
                            && post.lessons@.len() > 0 {
                            (post.lessons@.len() - 1) as usize
                        } else {
                            pre.ptr
                        }
                    },
                    EventResult::Nothing(ResultError::SQLite) => same,
                    _ => false,
                }
            }
        },
        KeyCode::Char(c) => {
            if c == 'n' {
                match r {
                    EventResult::SetSubState(SubState::Edit(id)) => {
                        &&& (exists|ts: u64|
                            post_table == renumbered(
                                pre_table.push(#[trigger] appended_row(18, 0, 0, 600, ts)),
                            ))
                        &&& id == pre_table.len()
                        &&& post.lessons@ == widgets_of(post_table)
                        &&& post.lessons@.len() > 0
                        &&& post.ptr == post.lessons@.len() - 1
                    },
                    EventResult::Nothing(ResultError::SQLite) => same,
                    _ => false,
                }
            } else if c == 'u' {
                match r {
                    EventResult::Nothing(ResultError::NoError) => {
                        &&& post_table == pre_table
                        &&& post.lessons@ == widgets_of(pre_table)
                        &&& post.lessons@.len() > 0
                        &&& post.ptr == if pre.ptr > post.lessons@.len() - 1 {
                            (post.lessons@.len() - 1) as usize
                        } else {
                            pre.ptr
                        }
                    },
                    EventResult::Nothing(ResultError::NoLessons) => {
                        &&& post_table == pre_table
                        &&& post.lessons@ == widgets_of(pre_table)
                        &&& post.lessons@.len() == 0
                        &&& post.ptr == pre.ptr
                    },
                    EventResult::Nothing(ResultError::SQLite) => same,
                    _ => false,
                }
            } else {
                same && post_table == pre_table && r == EventResult::Nothing(
                    ResultError::NoError,
                )
            }
        },
        KeyCode::Esc => same && post_table == pre_table && r == EventResult::Exit,
        _ => same && post_table == pre_table && r == EventResult::Nothing(ResultError::NoError),
    }
}

/// What one input event does to the controller as a whole: while browsing it
/// is a [`browse_step`]; while a record is open it is an [`edit_step`] of the
/// first mirrored editor bearing the record's id, with every other mirrored
/// editor untouched; other events change nothing.
pub open spec fn list_step(
    pre: LessonsWidget,
    pre_tb: TextBox,
    event: InputEvent,
    sub: SubState,
    post: LessonsWidget,
    post_tb: TextBox,
    pre_table: Seq<crate::db::RowModel>,
    post_table: Seq<crate::db::RowModel>,
    r: EventResult,
) -> bool {
    match (event, sub) {
        (InputEvent::Key(k), SubState::Browse) => {
            &&& browse_step(pre, k, post, pre_table, post_table, r)
            &&& post_tb == pre_tb
        },
        (InputEvent::Key(k), SubState::Edit(id)) => {
            if exists|j: int|
                0 <= j < pre.lessons@.len() && (#[trigger] pre.lessons@[j]).lesson.id == id {
                exists|j: int|
                    {
                        &&& 0 <= j < pre.lessons@.len()
                        &&& (#[trigger] pre.lessons@[j]).lesson.id == id
                        &&& forall|k: int|
                            0 <= k < j ==> (#[trigger] pre.lessons@[k]).lesson.id != id
                        &&& post.lessons@ == pre.lessons@.update(j, post.lessons@[j])
                        &&& post.ptr == pre.ptr
                        &&& edit_step(
                            pre.lessons@[j],
                            pre_tb,
                            event,
                            post.lessons@[j],
                            post_tb,
                            pre_table,
                            post_table,
                            r,
                        )
                    }
            } else {
                &&& post == pre
                &&& post_tb == pre_tb
                &&& post_table == pre_table
                &&& r == EventResult::SetSubState(SubState::Browse)
            }
        },
        _ => {
            &&& post == pre
            &&& post_tb == pre_tb
            &&& post_table == pre_table
            &&& r == EventResult::Nothing(ResultError::NoError)
        },
    }
}

impl Default for LessonsWidget {
    fn default() -> (r: Self)
        ensures
            r.wf(),
            r.ptr == 0,
            r.lessons@ == Seq::<LessonWidget>::empty(),
    {
        Self::new()
    }
}

impl LessonsWidget {
    /// Every mirrored editor is well formed, and the selection pointer stays
    /// inside the list whenever the list is non-empty.
    pub open spec fn wf(&self) -> bool {
        &&& (self.lessons@.len() > 0 ==> self.ptr < self.lessons@.len())
        &&& forall|i: int| 0 <= i < self.lessons@.len() ==> (#[trigger] self.lessons@[i]).wf()
    }

    pub fn new() -> (r: Self)
        ensures
            r.wf(),
            r.ptr == 0,
            r.lessons@ == Seq::<LessonWidget>::empty(),
    {
        Self { ptr: 0, lessons: Vec::new() }
    }

    /// Update the lessons from the database; the mirrored list is replaced
    /// on success and kept as it was on failure.  The pointer does not move.
    pub fn update_lessons(&mut self, conn: &rusqlite::Connection) -> (r: Result<
        (),
        rusqlite::Error,
    >)
        ensures
            final(self).ptr == old(self).ptr,
            match r {
                Ok(()) => final(self).lessons@ == widgets_of(table_of(*conn)),
                Err(_) => *final(self) == *old(self),
            },
    {
        let ls = match get_lessons(conn) {
            Ok(ls) => ls,
            Err(e) => {
                return Err(e);
            },
        };
        let mut widgets: Vec<LessonWidget> = Vec::new();
        let n = ls.len();
        let mut i: usize = 0;
        while i < n
            invariant
                i <= n,
                n == ls@.len(),
                widgets@.len() == i,
                forall|j: int|
                    0 <= j < i ==> #[trigger] widgets@[j] == (LessonWidget {
                        ptr: 0,
                        lesson: ls@[j],
                    }),
            decreases n - i,
        {
            widgets.push(LessonWidget::new(ls[i]));
            i = i + 1;
        }
        proof {
            assert(widgets@ =~= widgets_of(table_of(*conn)));
        }
        self.lessons = widgets;
        Ok(())
    }

    /// Move the pointer to the last lesson
    pub fn move_ptr_to_last(&mut self)
        ensures
            final(self).lessons@ == old(self).lessons@,
            final(self).ptr == if old(self).lessons@.len() > 0 {
                (old(self).lessons@.len() - 1) as usize
            } else {
                old(self).ptr
            },
    {
        if self.lessons.len() > 0 {
            self.ptr = self.lessons.len() - 1;
        }
    }

    /// Update the lessons from the database and move the pointer to the last lesson
    pub fn update_lessons_and_move_ptr_to_last(&mut self, conn: &rusqlite::Connection) -> (r:
        Result<(), rusqlite::Error>)
        ensures
            match r {
                Ok(()) => {
                    &&& final(self).lessons@ == widgets_of(table_of(*conn))
                    &&& final(self).ptr == if final(self).lessons@.len() > 0 {
                        (final(self).lessons@.len() - 1) as usize
                    } else {
                        old(self).ptr
                    }
                },
                Err(_) => *final(self) == *old(self),
            },
    {
        let r = self.update_lessons(conn);
        match r {
            Ok(()) => {
                self.move_ptr_to_last();
                Ok(())
            },
            Err(e) => Err(e),
        }
    }

    /// Apply one input event: navigate or mutate the list while browsing, or
    /// dispatch to the open record's editor.
    pub fn handle_events(
        &mut self,
        event: &InputEvent,
        sub_state: &SubState,
        conn: &mut rusqlite::Connection,
        text_box: &mut TextBox,
    ) -> (r: EventResult)
        requires
            old(self).wf(),
            old(text_box).wf(),
        ensures
            final(self).wf(),
            final(text_box).wf(),
            list_step(
                *old(self),
                *old(text_box),
                *event,
                *sub_state,
                *final(self),
                *final(text_box),
                table_of(*old(conn)),
                table_of(*final(conn)),
                r,
            ),
    {
        match event {
            InputEvent::Key(key) => match sub_state {
                SubState::Browse => match key {
                    KeyCode::Up => {
                        // Move the pointer up unless it is at the first lesson
                        if self.ptr > 0 {
                            self.ptr = self.ptr - 1;
                        }
                        EventResult::Nothing(ResultError::NoError)
                    },
                    KeyCode::Down => {
                        // Check if there are any lessons
                        if self.lessons.len() == 0 {
                            return EventResult::Nothing(ResultError::NoError);
                        }
                        // Move the pointer down unless it is at the last lesson
                        if self.ptr < self.lessons.len() - 1 {
                            self.ptr = self.ptr + 1;
                        }
                        EventResult::Nothing(ResultError::NoError)
                    },
                    KeyCode::Enter => {
                        if self.lessons.len() == 0 {
                            return EventResult::Nothing(ResultError::NoLessons);
                        }
                        EventResult::SetSubState(
                            SubState::Edit(self.lessons[self.ptr].lesson.id),
                        )
                    },
                    KeyCode::Delete => {
                        // Check if there are any lessons
                        if self.lessons.len() == 0 {
                            return EventResult::Nothing(ResultError::NoLessons);
                        }
                        // Delete the lesson from the database
                        match delete_lesson(conn, self.lessons[self.ptr].lesson.id) {
                            Ok(()) => (),
                            Err(_) => {
                                return EventResult::Nothing(ResultError::SQLite);
                            },
                        }
                        // Refresh the mirrored list and re-clamp the pointer
                        match self.update_lessons(conn) {
                            Ok(()) => (),
                            Err(_) => {
                                return EventResult::Nothing(ResultError::SQLite);
                            },
                        }
                        if self.ptr >= self.lessons.len() && self.lessons.len() > 0 {
                            self.ptr = self.lessons.len() - 1;
                        }
                        EventResult::Nothing(ResultError::NoError)
                    },
                    KeyCode::Char(c) => {
                        if *c == 'n' {
                            // Append a record with the documented defaults and open it
                            let id = match append_default_lesson(conn) {
                                Ok(id) => id,
                                Err(_) => {
                                    return EventResult::Nothing(ResultError::SQLite);
                                },
                            };
                            match self.update_lessons_and_move_ptr_to_last(conn) {
                                Ok(()) => (),
                                Err(_) => {
                                    return EventResult::Nothing(ResultError::SQLite);
                                },
                            }
                            EventResult::SetSubState(SubState::Edit(id))
                        } else if *c == 'u' {
                            // Reload the mirrored list and re-clamp the pointer
                            match self.update_lessons(conn) {
                                Ok(()) => (),
                                Err(_) => {
                                    return EventResult::Nothing(ResultError::SQLite);
                                },
                            }
                            if self.lessons.len() == 0 {
                                return EventResult::Nothing(ResultError::NoLessons);
                            }
                            if self.ptr > self.lessons.len() - 1 {
                                self.move_ptr_to_last();
                            }
                            EventResult::Nothing(ResultError::NoError)
                        } else {
                            EventResult::Nothing(ResultError::NoError)
                        }
                    },
                    KeyCode::Esc => EventResult::Exit,
                    _ => EventResult::Nothing(ResultError::NoError),
                },
                SubState::Edit(id) => {
                    // Handle events for the lesson being edited
                    let n = self.lessons.len();
                    let mut i: usize = 0;
                    while i < n
                        invariant
                            i <= n,
                            n == self.lessons@.len(),
                            *self == *old(self),
                            *text_box == *old(text_box),
                            table_of(*conn) == table_of(*old(conn)),
                            old(self).wf(),
                            old(text_box).wf(),
                            *event matches InputEvent::Key(_),
                            *sub_state == SubState::Edit(*id),
                            forall|k: int|
                                0 <= k < i ==> (#[trigger] self.lessons@[k]).lesson.id != *id,
                        decreases n - i,
                    {
                        if self.lessons[i].lesson.id == *id {
                            let ghost pre_w = self.lessons@[i as int];
                            let mut w = self.lessons.remove(i);
                            assert(w == pre_w);
                            let r = w.handle_events(event, conn, text_box);
                            let ghost post_w = w;
                            self.lessons.insert(i, w);
                            proof {
                                assert(self.lessons@ =~= old(self).lessons@.update(
                                    i as int,
                                    post_w,
                                ));
                                assert(self.lessons@[i as int] == post_w);
                                assert(old(self).lessons@[i as int].lesson.id == *id);
                                assert(edit_step(
                                    old(self).lessons@[i as int],
                                    *old(text_box),
                                    *event,
                                    post_w,
                                    *text_box,
                                    table_of(*old(conn)),
                                    table_of(*conn),
                                    r,
                                ));
                            }
                            return r;
                        }
                        i = i + 1;
                    }
                    EventResult::SetSubState(SubState::Browse)
                },
            },
            _ => EventResult::Nothing(ResultError::NoError),
        }
    }
}

} // verus!
