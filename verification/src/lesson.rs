//! One persisted typing-session record.

use vstd::prelude::*;

use crate::lesson_selection::LessonSelection;

verus! {

/// A struct that represents a lesson.
#[derive(Debug, Clone, Copy)]
pub struct Lesson {
    pub id: usize,
    pub lesson_id: LessonSelection,
    pub timestamp: u64,
    pub duration: usize,
    pub strokes: usize,
    pub errors: usize,
}

impl Lesson {
    /// Creates a new instance of Lesson.
    pub fn new(
        id: usize,
        lesson_selection: LessonSelection,
        timestamp: u64,
        duration: usize,
        strokes: usize,
        errors: usize,
    ) -> (r: Self)
        ensures
            r == (Lesson {
                id,
                lesson_id: lesson_selection,
                timestamp,
                duration,
                strokes,
                errors,
            }),
    {
        Self { id, lesson_id: lesson_selection, timestamp, duration, strokes, errors }
    }
}

} // verus!
