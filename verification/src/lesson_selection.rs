//! The twenty named tipp10 lessons and their numeric codes.

use vstd::prelude::*;

use crate::strutil::str_eq;

verus! {

/// Enum to represent the different lessons in Tipp10
#[derive(Debug, Clone, Copy, PartialEq, Eq)]
pub enum LessonSelection {
    L1,
    L2,
    L3,
    L4,
    L5,
    L6,
    L7,
    L8,
    L9,
    L10,
    L11,
    L12,
    L13,
    L14,
    L15,
    L16,
    L17,
    L18,
    L19,
    L20,
}

/// The numeric code (1 to 20) of a lesson.
pub open spec fn lesson_code(l: LessonSelection) -> int {
    match l {
        LessonSelection::L1 => 1,
        LessonSelection::L2 => 2,
        LessonSelection::L3 => 3,
        LessonSelection::L4 => 4,
        LessonSelection::L5 => 5,
        LessonSelection::L6 => 6,
        LessonSelection::L7 => 7,
        LessonSelection::L8 => 8,
        LessonSelection::L9 => 9,
        LessonSelection::L10 => 10,
        LessonSelection::L11 => 11,
        LessonSelection::L12 => 12,
        LessonSelection::L13 => 13,
        LessonSelection::L14 => 14,
        LessonSelection::L15 => 15,
        LessonSelection::L16 => 16,
        LessonSelection::L17 => 17,
        LessonSelection::L18 => 18,
        LessonSelection::L19 => 19,
        LessonSelection::L20 => 20,
    }
}

/// The lesson with numeric code `n`; codes outside 1 to 20 fall back to lesson 1.
pub open spec fn lesson_from_code(n: int) -> LessonSelection {
    if n == 2 {
        LessonSelection::L2
    } else if n == 3 {
        LessonSelection::L3
    } else if n == 4 {
        LessonSelection::L4
    } else if n == 5 {
        LessonSelection::L5
    } else if n == 6 {
        LessonSelection::L6
    } else if n == 7 {
        LessonSelection::L7
    } else if n == 8 {
        LessonSelection::L8
    } else if n == 9 {
        LessonSelection::L9
    } else if n == 10 {
        LessonSelection::L10
    } else if n == 11 {
        LessonSelection::L11
    } else if n == 12 {
        LessonSelection::L12
    } else if n == 13 {
        LessonSelection::L13
    } else if n == 14 {
        LessonSelection::L14
    } else if n == 15 {
        LessonSelection::L15
    } else if n == 16 {
        LessonSelection::L16
    } else if n == 17 {
        LessonSelection::L17
    } else if n == 18 {
        LessonSelection::L18
    } else if n == 19 {
        LessonSelection::L19
    } else if n == 20 {
        LessonSelection::L20
    } else {
        LessonSelection::L1
    }
}

/// The display name of a lesson.
pub open spec fn lesson_name(l: LessonSelection) -> Seq<char> {
    match l {
        LessonSelection::L1 => "Lesson 1 (asdf jkl;)"@,
        LessonSelection::L2 => "Lesson 2 (eo)"@,
        LessonSelection::L3 => "Lesson 3 (ti)"@,
        LessonSelection::L4 => "Lesson 4 (nr)"@,
        LessonSelection::L5 => "Lesson 5 (hc)"@,
        LessonSelection::L6 => "Lesson 6 (Capitalization)"@,
        LessonSelection::L7 => "Lesson 7 (wW.,)"@,
        LessonSelection::L8 => "Lesson 8 (gG)"@,
        LessonSelection::L9 => "Lesson 9 (bBuU)"@,
        LessonSelection::L10 => "Lesson 10 (yYmM)"@,
        LessonSelection::L11 => "Lesson 11 (vVpP)"@,
        LessonSelection::L12 => "Lesson 12 (xX?)"@,
        LessonSelection::L13 => "Lesson 13 (qQ!)"@,
        LessonSelection::L14 => "Lesson 14 (zZ()-)"@,
        LessonSelection::L15 => "Lesson 15 (Special Chars 1)"@,
        LessonSelection::L16 => "Lesson 16 (Numerics)"@,
        LessonSelection::L17 => "Lesson 17 (Special Chars 2)"@,
        LessonSelection::L18 => "Lesson 18 (All Characters)"@,
        LessonSelection::L19 => "Lesson 19 (Numpad 1)"@,
        LessonSelection::L20 => "Lesson 20 (Numpad 2)"@,
    }
}

/// The lesson whose display name is `s`; unknown names fall back to lesson 1.
pub open spec fn lesson_from_name(s: Seq<char>) -> LessonSelection {
    if s == lesson_name(LessonSelection::L2) {
        LessonSelection::L2
    } else if s == lesson_name(LessonSelection::L3) {
        LessonSelection::L3
    } else if s == lesson_name(LessonSelection::L4) {
        LessonSelection::L4
    } else if s == lesson_name(LessonSelection::L5) {
        LessonSelection::L5
    } else if s == lesson_name(LessonSelection::L6) {
        LessonSelection::L6
    } else if s == lesson_name(LessonSelection::L7) {
        LessonSelection::L7
    } else if s == lesson_name(LessonSelection::L8) {
        LessonSelection::L8
    } else if s == lesson_name(LessonSelection::L9) {
        LessonSelection::L9
    } else if s == lesson_name(LessonSelection::L10) {
        LessonSelection::L10
    } else if s == lesson_name(LessonSelection::L11) {
        LessonSelection::L11
    } else if s == lesson_name(LessonSelection::L12) {
        LessonSelection::L12
    } else if s == lesson_name(LessonSelection::L13) {
        LessonSelection::L13
    } else if s == lesson_name(LessonSelection::L14) {
        LessonSelection::L14
    } else if s == lesson_name(LessonSelection::L15) {
        LessonSelection::L15
    } else if s == lesson_name(LessonSelection::L16) {
        LessonSelection::L16
    } else if s == lesson_name(LessonSelection::L17) {
        LessonSelection::L17
    } else if s == lesson_name(LessonSelection::L18) {
        LessonSelection::L18
    } else if s == lesson_name(LessonSelection::L19) {
        LessonSelection::L19
    } else if s == lesson_name(LessonSelection::L20) {
        LessonSelection::L20
    } else {
        LessonSelection::L1
    }
}

impl LessonSelection {
    /// Get the lesson ID from the lesson number
    pub fn from_lesson_id(n: u8) -> (r: Self)
        ensures
            r == lesson_from_code(n as int),
    {
        match n {
            2 => LessonSelection::L2,
            3 => LessonSelection::L3,
            4 => LessonSelection::L4,
            5 => LessonSelection::L5,
            6 => LessonSelection::L6,
            7 => LessonSelection::L7,
            8 => LessonSelection::L8,
            9 => LessonSelection::L9,
            10 => LessonSelection::L10,
            11 => LessonSelection::L11,
            12 => LessonSelection::L12,
            13 => LessonSelection::L13,
            14 => LessonSelection::L14,
            15 => LessonSelection::L15,
            16 => LessonSelection::L16,
            17 => LessonSelection::L17,
            18 => LessonSelection::L18,
            19 => LessonSelection::L19,
            20 => LessonSelection::L20,
            _ => LessonSelection::L1,
        }
    }

    /// Get the lesson number from the lesson name
    pub fn from_lesson_name(name: &str) -> (r: Self)
        ensures
            r == lesson_from_name(name@),
    {
        if str_eq(name, "Lesson 2 (eo)") {
            LessonSelection::L2
        } else if str_eq(name, "Lesson 3 (ti)") {
            LessonSelection::L3
        } else if str_eq(name, "Lesson 4 (nr)") {
            LessonSelection::L4
        } else if str_eq(name, "Lesson 5 (hc)") {
            LessonSelection::L5
        } else if str_eq(name, "Lesson 6 (Capitalization)") {
            LessonSelection::L6
        } else if str_eq(name, "Lesson 7 (wW.,)") {
            LessonSelection::L7
        } else if str_eq(name, "Lesson 8 (gG)") {
            LessonSelection::L8
        } else if str_eq(name, "Lesson 9 (bBuU)") {
            LessonSelection::L9
        } else if str_eq(name, "Lesson 10 (yYmM)") {
            LessonSelection::L10
        } else if str_eq(name, "Lesson 11 (vVpP)") {
            LessonSelection::L11
        } else if str_eq(name, "Lesson 12 (xX?)") {
            LessonSelection::L12
        } else if str_eq(name, "Lesson 13 (qQ!)") {
            LessonSelection::L13
        } else if str_eq(name, "Lesson 14 (zZ()-)") {
            LessonSelection::L14
        } else if str_eq(name, "Lesson 15 (Special Chars 1)") {
            LessonSelection::L15
        } else if str_eq(name, "Lesson 16 (Numerics)") {
            LessonSelection::L16
        } else if str_eq(name, "Lesson 17 (Special Chars 2)") {
            LessonSelection::L17
        } else if str_eq(name, "Lesson 18 (All Characters)") {
            LessonSelection::L18
        } else if str_eq(name, "Lesson 19 (Numpad 1)") {
            LessonSelection::L19
        } else if str_eq(name, "Lesson 20 (Numpad 2)") {
            LessonSelection::L20
        } else {
            LessonSelection::L1
        }
    }

    /// Get the lesson name from the Lesson
    pub fn get_lesson_name(&self) -> (r: String)
        ensures
            r@ == lesson_name(*self),
    {
        match self {
            LessonSelection::L1 => "Lesson 1 (asdf jkl;)".to_owned(),
            LessonSelection::L2 => "Lesson 2 (eo)".to_owned(),
            LessonSelection::L3 => "Lesson 3 (ti)".to_owned(),
            LessonSelection::L4 => "Lesson 4 (nr)".to_owned(),
            LessonSelection::L5 => "Lesson 5 (hc)".to_owned(),
            LessonSelection::L6 => "Lesson 6 (Capitalization)".to_owned(),
            LessonSelection::L7 => "Lesson 7 (wW.,)".to_owned(),
            LessonSelection::L8 => "Lesson 8 (gG)".to_owned(),
            LessonSelection::L9 => "Lesson 9 (bBuU)".to_owned(),
            LessonSelection::L10 => "Lesson 10 (yYmM)".to_owned(),
            LessonSelection::L11 => "Lesson 11 (vVpP)".to_owned(),
            LessonSelection::L12 => "Lesson 12 (xX?)".to_owned(),
            LessonSelection::L13 => "Lesson 13 (qQ!)".to_owned(),
            LessonSelection::L14 => "Lesson 14 (zZ()-)".to_owned(),
            LessonSelection::L15 => "Lesson 15 (Special Chars 1)".to_owned(),
            LessonSelection::L16 => "Lesson 16 (Numerics)".to_owned(),
            LessonSelection::L17 => "Lesson 17 (Special Chars 2)".to_owned(),
            LessonSelection::L18 => "Lesson 18 (All Characters)".to_owned(),
            LessonSelection::L19 => "Lesson 19 (Numpad 1)".to_owned(),
            LessonSelection::L20 => "Lesson 20 (Numpad 2)".to_owned(),
        }
    }

    /// Get the lesson ID from the Lesson
    pub fn get_lesson_id(&self) -> (r: u8)
        ensures
            r == lesson_code(*self),
    {
        match self {
            LessonSelection::L1 => 1,
            LessonSelection::L2 => 2,
            LessonSelection::L3 => 3,
            LessonSelection::L4 => 4,
            LessonSelection::L5 => 5,
            LessonSelection::L6 => 6,
            LessonSelection::L7 => 7,
            LessonSelection::L8 => 8,
            LessonSelection::L9 => 9,
            LessonSelection::L10 => 10,
            LessonSelection::L11 => 11,
            LessonSelection::L12 => 12,
            LessonSelection::L13 => 13,
            LessonSelection::L14 => 14,
            LessonSelection::L15 => 15,
            LessonSelection::L16 => 16,
            LessonSelection::L17 => 17,
            LessonSelection::L18 => 18,
            LessonSelection::L19 => 19,
            LessonSelection::L20 => 20,
        }
    }

    /// Get the user lesson ID from the Lesson
    pub fn get_user_lesson(&self) -> (r: u8)
        ensures
            r == lesson_code(*self) + 100,
    {
        self.get_lesson_id() + 100
    }
}

/// Looking a lesson up by its own code gives the lesson back: codes in
/// 1 to 20 round-trip through `get_lesson_id` and `from_lesson_id`.
pub proof fn lemma_lesson_code_roundtrip(l: LessonSelection)
    ensures
        lesson_from_code(lesson_code(l)) == l,
        1 <= lesson_code(l) <= 20,
{
}

} // verus!
