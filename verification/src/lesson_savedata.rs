//! A displayable snapshot of one saved lesson.

use vstd::prelude::*;

verus! {

#[derive(Debug)]
pub struct LessonSaveData {
    id: u32,
    name: String,
    timestamp: String,
    duration: u32,
    strokes: u32,
    errors: u32,
}

impl LessonSaveData {
    /// The stored fields, as plain values.
    pub closed spec fn fields(&self) -> (u32, Seq<char>, Seq<char>, u32, u32, u32) {
        (self.id, self.name@, self.timestamp@, self.duration, self.strokes, self.errors)
    }

    pub fn new(
        id: u32,
        name: String,
        timestamp: String,
        duration: u32,
        strokes: u32,
        errors: u32,
    ) -> (r: Self)
        ensures
            r.fields() == (id, name@, timestamp@, duration, strokes, errors),
    {
        Self { id, name, timestamp, duration, strokes, errors }
    }
}

} // verus!
