//! A single-line text buffer with an editing cursor.
//!
//! The buffer holds a sequence of characters and a pointer into it;
//! insertion happens immediately before the pointer.  An optional maximum
//! length (counted in characters) rejects, in their entirety, insertions
//! that would exceed it.

use vstd::prelude::*;

use crate::event_result::{EventResult, ResultError};
use crate::input::{InputEvent, KeyCode};
use crate::strutil::{str_chars, string_from_chars};

verus! {

/// `t` with `s` inserted immediately before position `p`.
pub open spec fn seq_inserted(t: Seq<char>, p: int, s: Seq<char>) -> Seq<char> {
    t.subrange(0, p) + s + t.subrange(p, t.len() as int)
}

/// A text box widget that allows the user to input text.
#[derive(Debug)]
pub struct TextBox {
    /// Points to the char the cursor is at. Insertion will happen before the pointer.
    ptr: usize,
    buf: Vec<char>,
    max_len: Option<usize>,
}

impl TextBox {
    /// The buffered text.
    pub closed spec fn text(&self) -> Seq<char> {
        self.buf@
    }

    /// The cursor position.
    pub closed spec fn pointer(&self) -> int {
        self.ptr as int
    }

    /// The configured maximum length, in characters.
    pub closed spec fn limit(&self) -> Option<usize> {
        self.max_len
    }

    /// The pointer always stays within the buffer: `0 <= ptr <= len`.
    pub closed spec fn wf(&self) -> bool {
        self.ptr <= self.buf.len()
    }

    /// What one input event does to the buffer: how the text and pointer
    /// after the event relate to those before it, and which result comes back.
    pub open spec fn step(pre: TextBox, event: InputEvent, post: TextBox, r: EventResult) -> bool {
        let same = post.text() == pre.text() && post.pointer() == pre.pointer();
        let ok = EventResult::Nothing(ResultError::NoError);
        match event {
            InputEvent::Key(k) => match k {
                KeyCode::Left => {
                    &&& post.text() == pre.text()
                    &&& post.pointer() == if pre.pointer() > 0 { pre.pointer() - 1 } else { 0int }
                    &&& r == ok
                },
                KeyCode::Right => {
                    &&& post.text() == pre.text()
                    &&& post.pointer() == if pre.pointer() < pre.text().len() {
                        pre.pointer() + 1
                    } else {
                        pre.pointer()
                    }
                    &&& r == ok
                },
                KeyCode::Enter => same && r == EventResult::Submit,
                KeyCode::Backspace => {
                    if pre.pointer() > 0 {
                        &&& post.text() == pre.text().remove(pre.pointer() - 1)
                        &&& post.pointer() == pre.pointer() - 1
                        &&& r == ok
                    } else {
                        same && r == ok
                    }
                },
                KeyCode::Delete => {
                    if pre.pointer() < pre.text().len() {
                        &&& post.text() == pre.text().remove(pre.pointer())
                        &&& post.pointer() == pre.pointer()
                        &&& r == ok
                    } else {
                        same && r == ok
                    }
                },
                KeyCode::Char(c) => {
                    if pre.limit() matches Some(m) && pre.text().len() >= m {
                        same && r == EventResult::Nothing(ResultError::MaxLenReached)
                    } else {
                        &&& post.text() == pre.text().insert(pre.pointer(), c)
                        &&& post.pointer() == pre.pointer() + 1
                        &&& r == ok
                    }
                },
                _ => same && r == ok,
            },
            InputEvent::Paste(s) => {
                if pre.limit() matches Some(m) && pre.text().len() + s@.len() > m {
                    same && r == EventResult::Nothing(ResultError::MaxLenReached)
                } else {
                    &&& post.text() == seq_inserted(pre.text(), pre.pointer(), s@)
                    &&& post.pointer() == pre.pointer() + s@.len()
                    &&& r == ok
                }
            },
            InputEvent::Other => same && r == ok,
        }
    }

    /// Creates a new instance of TextBox.
    pub fn new(max_len: Option<usize>) -> (r: Self)
        ensures
            r.wf(),
            r.text() == Seq::<char>::empty(),
            r.pointer() == 0,
            r.limit() == max_len,
    {
        Self { ptr: 0, buf: Vec::new(), max_len }
    }

    /// Creates a new instance of TextBox with a preset value.
    pub fn with_preset(preset: &str, max_len: Option<usize>) -> (r: Self)
        ensures
            r.wf(),
            r.text() == preset@,
            r.pointer() == 0,
            r.limit() == max_len,
    {
        Self { ptr: 0, buf: str_chars(preset), max_len }
    }

    /// Apply one input event to the buffer.
    pub fn handle_events(&mut self, event: &InputEvent) -> (r: EventResult)
        requires
            old(self).wf(),
        ensures
            final(self).wf(),
            final(self).limit() == old(self).limit(),
            TextBox::step(*old(self), *event, *final(self), r),
    {
        match event {
            InputEvent::Key(k) => match k {
                KeyCode::Left => {
                    // Move the pointer to the left if it is not at the beginning
                    if self.ptr > 0 {
                        self.ptr = self.ptr - 1;
                    }
                    EventResult::Nothing(ResultError::NoError)
                },
                KeyCode::Right => {
                    // Move the pointer to the right if it is not at the end
                    if self.ptr < self.buf.len() {
                        self.ptr = self.ptr + 1;
                    }
                    EventResult::Nothing(ResultError::NoError)
                },
                // Send a signal that the user has finished input
                KeyCode::Enter => EventResult::Submit,
                KeyCode::Backspace => {
                    // Remove the character before the pointer if it is not at the beginning
                    if self.ptr > 0 {
                        self.buf.remove(self.ptr - 1);
                        self.ptr = self.ptr - 1;
                    }
                    EventResult::Nothing(ResultError::NoError)
                },
                KeyCode::Delete => {
                    // Remove the character after the pointer if it is not at the end
                    if self.ptr < self.buf.len() {
                        self.buf.remove(self.ptr);
                    }
                    EventResult::Nothing(ResultError::NoError)
                },
                KeyCode::Char(c) => {
                    // Check for max length
                    if let Some(max_len) = self.max_len {
                        if self.buf.len() >= max_len {
                            return EventResult::Nothing(ResultError::MaxLenReached);
                        }
                    }
                    // Insert the character at the pointer
                    self.buf.insert(self.ptr, *c);
                    let l = self.buf.len();
                    assert(self.ptr < l);
                    self.ptr = self.ptr + 1;
                    EventResult::Nothing(ResultError::NoError)
                },
                _ => EventResult::Nothing(ResultError::NoError),
            },
            InputEvent::Paste(pasted) => {
                let n = pasted.as_str().unicode_len();
                // Check for max length: the whole block must fit, or nothing is inserted
                if let Some(max_len) = self.max_len {
                    if n > max_len || self.buf.len() > max_len - n {
                        return EventResult::Nothing(ResultError::MaxLenReached);
                    }
                }
                // Insert the pasted text at the pointer
                let ghost pre = self.buf@;
                let ghost p = self.ptr as int;
                let ghost lim = self.max_len;
                let mut i: usize = 0;
                while i < n
                    invariant
                        i <= n,
                        n == pasted@.len(),
                        p == self.ptr,
                        self.max_len == lim,
                        self.ptr + i <= self.buf.len(),
                        self.buf@ == pre.subrange(0, p) + pasted@.subrange(0, i as int)
                            + pre.subrange(p, pre.len() as int),
                        self.ptr <= pre.len(),
                    decreases n - i,
                {
                    let c = pasted.as_str().get_char(i);
                    let cur = self.buf.len();
                    assert(self.ptr + i <= cur);
                    self.buf.insert(self.ptr + i, c);
                    proof {
                        assert(self.buf@ =~= pre.subrange(0, p) + pasted@.subrange(0, i + 1 as int)
                            + pre.subrange(p, pre.len() as int));
                    }
                    i = i + 1;
                }
                proof {
                    assert(pasted@.subrange(0, n as int) =~= pasted@);
                    assert(self.buf@ =~= seq_inserted(pre, p, pasted@));
                }
                let cur = self.buf.len();
                assert(self.ptr + n <= cur);
                self.ptr = self.ptr + n;
                EventResult::Nothing(ResultError::NoError)
            },
            InputEvent::Other => EventResult::Nothing(ResultError::NoError),
        }
    }

    /// Get the buffer of the text box.
    pub fn get_buffer(&self) -> (r: String)
        ensures
            r@ == self.text(),
    {
        string_from_chars(&self.buf)
    }

    /// Get the characters of the buffer as a reference.
    pub fn get_buffer_ref(&self) -> (r: &Vec<char>)
        ensures
            r@ == self.text(),
    {
        &self.buf
    }

    /// Get the pointer of the text box.
    pub fn get_ptr(&self) -> (r: usize)
        ensures
            r == self.pointer(),
    {
        self.ptr
    }

    /// Get the configured maximum length of the text box.
    pub fn get_max_len(&self) -> (r: Option<usize>)
        ensures
            r == self.limit(),
    {
        self.max_len
    }

    /// Set the buffer of the text box.  The pointer does not move unless it
    /// would now exceed the new length, in which case it is clamped.
    pub fn set_buf(&mut self, buf: &str)
        ensures
            final(self).wf(),
            final(self).text() == buf@,
            final(self).limit() == old(self).limit(),
            final(self).pointer() == if old(self).pointer() <= buf@.len() {
                old(self).pointer()
            } else {
                buf@.len() as int
            },
    {
        self.buf = str_chars(buf);
        if self.ptr > self.buf.len() {
            self.ptr = self.buf.len();
        }
    }

    /// Set the pointer of the text box; rejected if it lies past the end.
    pub fn set_ptr(&mut self, ptr: usize) -> (r: Result<(), ResultError>)
        requires
            old(self).wf(),
        ensures
            final(self).wf(),
            final(self).text() == old(self).text(),
            final(self).limit() == old(self).limit(),
            match r {
                Ok(()) => ptr <= old(self).text().len() && final(self).pointer() == ptr,
                Err(e) => {
                    &&& ptr > old(self).text().len()
                    &&& final(self).pointer() == old(self).pointer()
                    &&& e == ResultError::OutOfBounds
                },
            },
    {
        // Check if the pointer is out of bounds
        if ptr > self.buf.len() {
            return Err(ResultError::OutOfBounds);
        }
        self.ptr = ptr;
        Ok(())
    }

    /// Set the max length of the text box.
    pub fn set_max_len(&mut self, max_len: Option<usize>)
        requires
            old(self).wf(),
        ensures
            final(self).wf(),
            final(self).text() == old(self).text(),
            final(self).pointer() == old(self).pointer(),
            final(self).limit() == max_len,
    {
        self.max_len = max_len;
    }

    /// Reset the text box.
    pub fn reset(&mut self)
        ensures
            final(self).wf(),
            final(self).text() == Seq::<char>::empty(),
            final(self).pointer() == 0,
            final(self).limit() == old(self).limit(),
    {
        self.ptr = 0;
        self.buf.clear();
    }
}

} // verus!
