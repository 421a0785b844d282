//! A parameter list for appending a record directly: lesson code, strokes,
//! errors, duration, and timestamp, edited in order through a text box.

use vstd::prelude::*;

use crate::clock::get_timestamp;
use crate::db::table_of;
use crate::digits::{dec_rep, parse_u64, u64_to_string};
use crate::event_result::{EventResult, ResultError};
use crate::input::{InputEvent, KeyCode};
use crate::state::SubState;
use crate::store::{append_lesson, appended_row, renumbered};
use crate::text_box::TextBox;

verus! {

pub struct ParameterWidget {
    ptr: usize,
    // 0: lesson code, 1: strokes, 2: errors, 3: duration, 4: timestamp
    parameters: Vec<u64>,
}

/// What one input event does to the parameter list: how the selection, the
/// values, the bound text box, and the stored table change, and which
/// result comes back.
pub open spec fn param_step(
    pre: ParameterWidget,
    pre_tb: TextBox,
    event: InputEvent,
    post: ParameterWidget,
    post_tb: TextBox,
    pre_table: Seq<crate::db::RowModel>,
    post_table: Seq<crate::db::RowModel>,
    r: EventResult,
) -> bool {
    let same_tb = post_tb.text() == pre_tb.text() && post_tb.pointer() == pre_tb.pointer();
    let same = post.selected() == pre.selected() && post.values() == pre.values() && same_tb
        && post_table == pre_table;
    match event {
        InputEvent::Key(k) => match k {
            KeyCode::Tab => {
                // Step back one parameter and show its current value.
                &&& post.selected() == if pre.selected() != 0 {
                    pre.selected() - 1
                } else {
                    0int
                }
                &&& post.values() == pre.values()
                &&& post_tb.text() == dec_rep(pre.values()[post.selected()] as nat)
                &&& post_tb.pointer() == post_tb.text().len()
                &&& post_table == pre_table
                &&& r == EventResult::Nothing(ResultError::NoError)
            },
            KeyCode::Enter => {
                if pre.selected() == 5 {
                    // All parameters confirmed: append the record.
                    match r {
                        EventResult::SetSubState(SubState::Browse) => {
                            // On success the widget is back at the defaults
                            // and the input is cleared; a failed append
                            // leaves the parameters for another try.
                            (post.is_default() && post_tb.text() == Seq::<char>::empty()
                                && post_table == renumbered(
                                pre_table.push(
                                    appended_row(
                                        pre.values()[0] as u8,
                                        pre.values()[1] as usize,
                                        pre.values()[2] as usize,
                                        pre.values()[3] as usize,
                                        pre.values()[4],
                                    ),
                                ),
                            )) || (post.selected() == pre.selected() && post.values()
                                == pre.values() && same_tb)
                        },
                        _ => false,
                    }
                } else {
                    // Store the entered value (an unreadable entry keeps the
                    // previous value, or takes a fresh timestamp at the
                    // timestamp parameter) and move on.
                    let s = pre_tb.text();
                    let parsed_ok = s.len() > 0 && crate::digits::all_digits(s)
                        && crate::digits::digits_val(s) <= u64::MAX;
                    &&& post.selected() == pre.selected() + 1
                    &&& post.values().len() == pre.values().len()
                    &&& (forall|j: int|
                        0 <= j < pre.values().len() && j != pre.selected()
                            ==> post.values()[j] == pre.values()[j])
                    &&& (parsed_ok ==> post.values()[pre.selected()]
                        == crate::digits::digits_val(s))
                    &&& (!parsed_ok && pre.selected() != 4 ==> post.values()[pre.selected()]
                        == pre.values()[pre.selected()])
                    &&& (!parsed_ok && pre.selected() == 4 ==> 0 < post.values()[4]
                        < 100000000000000)
                    &&& (post.selected() <= 4 ==> post_tb.text() == dec_rep(
                        post.values()[post.selected()] as nat,
                    ) && post_tb.pointer() == post_tb.text().len())
                    &&& (post.selected() == 5 ==> same_tb)
                    &&& post_table == pre_table
                    &&& r == EventResult::Nothing(ResultError::NoError)
                }
            },
            KeyCode::Esc => {
                // Abandon the entry: back to the defaults and to browsing.
                &&& post.is_default()
                &&& post_tb.text() == Seq::<char>::empty()
                &&& post_table == pre_table
                &&& r == EventResult::SetSubState(SubState::Browse)
            },
            _ => same && r == EventResult::Nothing(ResultError::NoError),
        },
        _ => same && r == EventResult::Nothing(ResultError::NoError),
    }
}

impl ParameterWidget {
    /// The selected parameter index; 5 means every parameter was confirmed.
    pub closed spec fn selected(&self) -> int {
        self.ptr as int
    }

    /// The parameter values.
    pub closed spec fn values(&self) -> Seq<u64> {
        self.parameters@
    }

    /// Five parameters, with the selection at one of them or just past.
    pub open spec fn wf(&self) -> bool {
        self.values().len() == 5 && self.selected() <= 5
    }

    /// The default parameters: lesson code 18, no strokes, no errors, a
    /// 600-second duration, and some current timestamp.
    pub open spec fn is_default(&self) -> bool {
        &&& self.selected() == 0
        &&& self.values().len() == 5
        &&& self.values()[0] == 18
        &&& self.values()[1] == 0
        &&& self.values()[2] == 0
        &&& self.values()[3] == 600
        &&& 0 < self.values()[4] < 100000000000000
    }

    pub fn new() -> (r: Self)
        ensures
            r.wf(),
            r.is_default(),
    {
        let ts = get_timestamp();
        let mut parameters: Vec<u64> = Vec::new();
        parameters.push(18);
        parameters.push(0);
        parameters.push(0);
        parameters.push(600);
        parameters.push(ts);
        Self { ptr: 0, parameters }
    }

    /// Put the widget back to the defaults, with a fresh timestamp.
    pub fn reset(&mut self)
        ensures
            final(self).wf(),
            final(self).is_default(),
    {
        let fresh = Self::new();
        self.ptr = fresh.ptr;
        self.parameters = fresh.parameters;
    }

    /// Get the selected parameter index.
    pub fn get_selected(&self) -> (r: usize)
        ensures
            r == self.selected(),
    {
        self.ptr
    }

    /// Get the parameter values.
    pub fn get_parameters(&self) -> (r: &Vec<u64>)
        ensures
            r@ == self.values(),
    {
        &self.parameters
    }

    /// Show the selected parameter's value in the text box, with the cursor
    /// at its end.
    fn show_selected(&self, text_box: &mut TextBox)
        requires
            old(text_box).wf(),
            self.wf(),
            self.selected() <= 4,
        ensures
            final(text_box).wf(),
            final(text_box).limit() == old(text_box).limit(),
            final(text_box).text() == dec_rep(self.values()[self.selected()] as nat),
            final(text_box).pointer() == final(text_box).text().len(),
    {
        let buf = u64_to_string(self.parameters[self.ptr]);
        text_box.set_buf(buf.as_str());
        let n = text_box.get_buffer_ref().len();
        let set = text_box.set_ptr(n);
        assert(set is Ok);
    }

    /// Apply one input event to the parameter list.
    pub fn handle_events(
        &mut self,
        conn: &mut rusqlite::Connection,
        text_box: &mut TextBox,
        event: &InputEvent,
    ) -> (r: EventResult)
        requires
            old(self).wf(),
            old(text_box).wf(),
        ensures
            final(self).wf(),
            final(text_box).wf(),
            param_step(
                *old(self),
                *old(text_box),
                *event,
                *final(self),
                *final(text_box),
                table_of(*old(conn)),
                table_of(*final(conn)),
                r,
            ),
    {
        match event {
            InputEvent::Key(k) => match k {
                KeyCode::Tab => {
                    if self.ptr != 0 {
                        self.ptr = self.ptr - 1;
                    }
                    self.show_selected(text_box);
                    EventResult::Nothing(ResultError::NoError)
                },
                KeyCode::Enter => {
                    if self.ptr == 5 {
                        match append_lesson(
                            conn,
                            self.parameters[0] as u8,
                            self.parameters[1] as usize,
                            self.parameters[2] as usize,
                            self.parameters[3] as usize,
                            self.parameters[4],
                        ) {
                            Ok(_) => {
                                self.reset();
                                text_box.reset();
                                EventResult::SetSubState(SubState::Browse)
                            },
                            Err(_) => EventResult::SetSubState(SubState::Browse),
                        }
                    } else {
                        match parse_u64(text_box.get_buffer_ref()) {
                            Some(v) => {
                                self.parameters.set(self.ptr, v);
                            },
                            Option::None => {
                                if self.ptr == 4 {
                                    let ts = get_timestamp();
                                    self.parameters.set(self.ptr, ts);
                                }
                            },
                        }
                        self.ptr = self.ptr + 1;
                        if self.ptr <= 4 {
                            self.show_selected(text_box);
                        }
                        EventResult::Nothing(ResultError::NoError)
                    }
                },
                KeyCode::Esc => {
                    self.reset();
                    text_box.reset();
                    EventResult::SetSubState(SubState::Browse)
                },
                _ => EventResult::Nothing(ResultError::NoError),
            },
            _ => EventResult::Nothing(ResultError::NoError),
        }
    }
}

} // verus!
