//! The field-sequenced editor for one record.
//!
//! An editing session walks a fixed field order — lesson code, timestamp,
//! duration, strokes, errors — binding one text box to the active field.
//! Confirming an empty buffer keeps the field's prior value; confirming
//! unparsable input reports it and changes nothing; confirming the last
//! field persists the record through the store.

use vstd::prelude::*;

use crate::db::table_of;
use crate::digits::{all_digits, digits_val, parse_u64};
use crate::event_result::{EventResult, ResultError};
use crate::input::{InputEvent, KeyCode};
use crate::lesson::Lesson;
use crate::lesson_selection::{lesson_code, lesson_from_code, LessonSelection};
use crate::clock::{validate_timestamp_chars, valid_timestamp_chars};
use crate::state::SubState;
use crate::store::{update_lesson, updated_row};
use crate::text_box::TextBox;

verus! {

/// Whether the buffer counts as empty input: nothing but spaces.
pub open spec fn is_blank(s: Seq<char>) -> bool {
    forall|i: int| 0 <= i < s.len() ==> #[trigger] s[i] == ' '
}

/// Whether `s` parses as a known lesson code (1 to 20).
pub open spec fn code_input_ok(s: Seq<char>) -> bool {
    s.len() > 0 && all_digits(s) && 1 <= digits_val(s) <= 20
}

/// Whether `s` parses as a number that fits the platform's pointer width.
pub open spec fn num_input_ok(s: Seq<char>) -> bool {
    s.len() > 0 && all_digits(s) && digits_val(s) <= usize::MAX
}

/// The display width of field `i`, which pre-sizes the text box bound to it.
pub open spec fn field_width(i: int) -> usize {
    if i == 0 {
        2
    } else if i == 1 {
        14
    } else if i == 2 {
        4
    } else {
        6
    }
}

/// A widget that represents a lesson being edited field by field.
pub struct LessonWidget {
    /// The active field index: 0 lesson code, 1 timestamp, 2 duration,
    /// 3 strokes, 4 errors.
    pub ptr: usize,
    pub lesson: Lesson,
}

/// What one input event does to an editing session: how the widget, the
/// bound text box, and the stored table change, and which result comes back.
pub open spec fn edit_step(
    pre: LessonWidget,
    pre_tb: TextBox,
    event: InputEvent,
    post: LessonWidget,
    post_tb: TextBox,
    pre_table: Seq<crate::db::RowModel>,
    post_table: Seq<crate::db::RowModel>,
    r: EventResult,
) -> bool {
    let s = pre_tb.text();
    let same_widget = post.ptr == pre.ptr && post.lesson == pre.lesson;
    let same_tb = post_tb.text() == pre_tb.text() && post_tb.pointer() == pre_tb.pointer()
        && post_tb.limit() == pre_tb.limit();
    match event {
        InputEvent::Key(k) => match k {
            KeyCode::Enter => {
                if pre.ptr == 4 {
                    // Last field: parse the errors, then persist the record.
                    if !is_blank(s) && !num_input_ok(s) {
                        &&& same_widget
                        &&& same_tb
                        &&& post_table == pre_table
                        &&& r == EventResult::Nothing(ResultError::WrongInput)
                    } else {
                        let errors = if is_blank(s) {
                            pre.lesson.errors
                        } else {
                            digits_val(s) as usize
                        };
                        &&& post.ptr == 0
                        &&& post.lesson == (Lesson { errors, ..pre.lesson })
                        &&& (is_blank(s) ==> post_tb.text() == pre_tb.text()
                            && post_tb.pointer() == pre_tb.pointer())
                        &&& (!is_blank(s) ==> post_tb.text() == Seq::<char>::empty()
                            && post_tb.pointer() == 0)
                        &&& post_tb.limit() == pre_tb.limit()
                        &&& (r == EventResult::SetSubState(SubState::Browse) ==> post_table
                            == crate::db::updated_rows(
                            pre_table,
                            updated_row(
                                pre.lesson.id,
                                lesson_code(pre.lesson.lesson_id) as u8,
                                pre.lesson.strokes,
                                errors,
                                pre.lesson.duration,
                                pre.lesson.timestamp,
                            ),
                        ))
                        &&& (r == EventResult::Nothing(ResultError::SQLite) ==> post_table
                            == pre_table)
                        &&& (r == EventResult::SetSubState(SubState::Browse) || r
                            == EventResult::Nothing(ResultError::SQLite))
                    }
                } else {
                    // Fields 0 to 3: parse, store in the transient record,
                    // advance, and pre-size the next field's text box.
                    let ok = if pre.ptr == 0 {
                        code_input_ok(s)
                    } else if pre.ptr == 1 {
                        valid_timestamp_chars(s)
                    } else {
                        num_input_ok(s)
                    };
                    if !is_blank(s) && !ok {
                        &&& same_widget
                        &&& same_tb
                        &&& post_table == pre_table
                        &&& r == if pre.ptr == 1 {
                            EventResult::Nothing(ResultError::Timestamp)
                        } else {
                            EventResult::Nothing(ResultError::WrongInput)
                        }
                    } else {
                        &&& post.ptr == pre.ptr + 1
                        &&& post.lesson == if is_blank(s) {
                            pre.lesson
                        } else if pre.ptr == 0 {
                            Lesson { lesson_id: lesson_from_code(digits_val(s)), ..pre.lesson }
                        } else if pre.ptr == 1 {
                            Lesson { timestamp: digits_val(s) as u64, ..pre.lesson }
                        } else if pre.ptr == 2 {
                            Lesson { duration: digits_val(s) as usize, ..pre.lesson }
                        } else {
                            Lesson { strokes: digits_val(s) as usize, ..pre.lesson }
                        }
                        &&& (is_blank(s) ==> post_tb.text() == pre_tb.text()
                            && post_tb.pointer() == pre_tb.pointer())
                        &&& (!is_blank(s) ==> post_tb.text() == Seq::<char>::empty()
                            && post_tb.pointer() == 0)
                        &&& post_tb.limit() == Some(field_width(pre.ptr + 1))
                        &&& post_table == pre_table
                        &&& r == EventResult::Nothing(ResultError::NoError)
                    }
                }
            },
            KeyCode::Tab => {
                // Step back one field, discarding the uncommitted text.
                &&& post.ptr == if pre.ptr > 0 {
                    (pre.ptr - 1) as usize
                } else {
                    0
                }
                &&& post.lesson == pre.lesson
                &&& post_tb.text() == Seq::<char>::empty()
                &&& post_tb.pointer() == 0
                &&& post_tb.limit() == Some(field_width(post.ptr as int))
                &&& post_table == pre_table
                &&& r == EventResult::Nothing(ResultError::NoError)
            },
            _ => {
                // Every other key goes to the text box.
                &&& same_widget
                &&& post_table == pre_table
                &&& TextBox::step(pre_tb, event, post_tb, r)
            },
        },
        _ => same_widget && same_tb && post_table == pre_table && r == EventResult::Nothing(
            ResultError::NoError,
        ),
    }
}

impl LessonWidget {
    /// The field index stays on one of the five fields.
    pub open spec fn wf(&self) -> bool {
        self.ptr <= 4
    }

    /// Creates a new instance of LessonWidget.
    pub fn new(lesson: Lesson) -> (r: Self)
        ensures
            r.wf(),
            r.ptr == 0,
            r.lesson == lesson,
    {
        Self { lesson, ptr: 0 }
    }

    /// Pre-size the text box to the active field's display width.
    fn set_max_lenght(&self, text_box: &mut TextBox)
        requires
            old(text_box).wf(),
            self.wf(),
        ensures
            final(text_box).wf(),
            final(text_box).text() == old(text_box).text(),
            final(text_box).pointer() == old(text_box).pointer(),
            final(text_box).limit() == Some(field_width(self.ptr as int)),
    {
        if self.ptr == 0 {
            text_box.set_max_len(Some(2));
        } else if self.ptr == 1 {
            text_box.set_max_len(Some(14));
        } else if self.ptr == 2 {
            text_box.set_max_len(Some(4));
        } else {
            text_box.set_max_len(Some(6));
        }
    }

    /// Whether the buffer holds nothing but spaces.
    fn buffer_blank(text_box: &TextBox) -> (r: bool)
        ensures
            r == is_blank(text_box.text()),
    {
        let chars = text_box.get_buffer_ref();
        let n = chars.len();
        let mut i: usize = 0;
        while i < n
            invariant
                i <= n,
                n == chars@.len(),
                chars@ == text_box.text(),
                forall|j: int| 0 <= j < i ==> #[trigger] chars@[j] == ' ',
            decreases n - i,
        {
            if chars[i] != ' ' {
                return false;
            }
            i = i + 1;
        }
        true
    }

    /// Apply one input event to the editing session.
    pub fn handle_events(
        &mut self,
        event: &InputEvent,
        conn: &mut rusqlite::Connection,
        text_box: &mut TextBox,
    ) -> (r: EventResult)
        requires
            old(self).wf(),
            old(text_box).wf(),
        ensures
            final(self).wf(),
            final(text_box).wf(),
            edit_step(
                *old(self),
                *old(text_box),
                *event,
                *final(self),
                *final(text_box),
                table_of(*old(conn)),
                table_of(*final(conn)),
                r,
            ),
    {
        match event {
            InputEvent::Key(k) => match k {
                KeyCode::Enter => {
                    let blank = Self::buffer_blank(text_box);
                    if self.ptr == 4 {
                        // Change the errors
                        if !blank {
                            let errors = match parse_u64(text_box.get_buffer_ref()) {
                                Some(v) => {
                                    if v > usize::MAX as u64 {
                                        return EventResult::Nothing(ResultError::WrongInput);
                                    }
                                    v as usize
                                },
                                Option::None => {
                                    return EventResult::Nothing(ResultError::WrongInput);
                                },
                            };
                            text_box.reset();
                            self.lesson.errors = errors;
                        }
                        self.ptr = 0;
                        // Persist the record
                        match update_lesson(
                            conn,
                            self.lesson.id,
                            self.lesson.lesson_id.get_lesson_id(),
                            self.lesson.strokes,
                            self.lesson.errors,
                            self.lesson.duration,
                            self.lesson.timestamp,
                        ) {
                            Ok(()) => EventResult::SetSubState(SubState::Browse),
                            Err(_) => EventResult::Nothing(ResultError::SQLite),
                        }
                    } else {
                        if !blank {
                            if self.ptr == 0 {
                                // Change the lesson selection
                                match parse_u64(text_box.get_buffer_ref()) {
                                    Some(v) => {
                                        if v < 1 || v > 20 {
                                            return EventResult::Nothing(ResultError::WrongInput);
                                        }
                                        self.lesson.lesson_id = LessonSelection::from_lesson_id(
                                            v as u8,
                                        );
                                    },
                                    Option::None => {
                                        return EventResult::Nothing(ResultError::WrongInput);
                                    },
                                }
                            } else if self.ptr == 1 {
                                // Change the timestamp
                                match validate_timestamp_chars(text_box.get_buffer_ref()) {
                                    Some(v) => {
                                        self.lesson.timestamp = v;
                                    },
                                    Option::None => {
                                        return EventResult::Nothing(ResultError::Timestamp);
                                    },
                                }
                            } else if self.ptr == 2 {
                                // Change the duration
                                match parse_u64(text_box.get_buffer_ref()) {
                                    Some(v) => {
                                        if v > usize::MAX as u64 {
                                            return EventResult::Nothing(ResultError::WrongInput);
                                        }
                                        self.lesson.duration = v as usize;
                                    },
                                    Option::None => {
                                        return EventResult::Nothing(ResultError::WrongInput);
                                    },
                                }
                            } else {
                                // Change the strokes
                                match parse_u64(text_box.get_buffer_ref()) {
                                    Some(v) => {
                                        if v > usize::MAX as u64 {
                                            return EventResult::Nothing(ResultError::WrongInput);
                                        }
                                        self.lesson.strokes = v as usize;
                                    },
                                    Option::None => {
                                        return EventResult::Nothing(ResultError::WrongInput);
                                    },
                                }
                            }
                            text_box.reset();
                        }
                        // Move on to the next field and pre-size its text box
                        self.ptr = self.ptr + 1;
                        self.set_max_lenght(text_box);
                        EventResult::Nothing(ResultError::NoError)
                    }
                },
                KeyCode::Tab => {
                    // Move the pointer to the left if it is not at the beginning
                    if self.ptr > 0 {
                        self.ptr = self.ptr - 1;
                    }
                    self.set_max_lenght(text_box);
                    text_box.reset();
                    EventResult::Nothing(ResultError::NoError)
                },
                _ => {
                    text_box.handle_events(event)
                },
            },
            _ => EventResult::Nothing(ResultError::NoError),
        }
    }
}

} // verus!
