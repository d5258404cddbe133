//! The letter grades an endpoint can receive, and the exit code each stands for.

use vstd::prelude::*;
use crate::text::same_text;

verus! {

/// A letter rating of an endpoint's configuration.
#[derive(Clone, Copy, Debug, PartialEq, Eq, Structural)]
pub enum Grade {
    APlus,
    A,
    AMinus,
    B,
    C,
    D,
    E,
    F,
    M,
    T,
}

/// The text that the service writes for a grade.
pub open spec fn grade_text(grade: Grade) -> Seq<char> {
    match grade {
        Grade::APlus => "A+"@,
        Grade::A => "A"@,
        Grade::AMinus => "A-"@,
        Grade::B => "B"@,
        Grade::C => "C"@,
        Grade::D => "D"@,
        Grade::E => "E"@,
        Grade::F => "F"@,
        Grade::M => "M"@,
        Grade::T => "T"@,
    }
}

/// The grade that a text stands for, if it is the text of a grade. The match
/// is exact: letter case counts.
pub open spec fn grade_of_text(text: Seq<char>) -> Option<Grade> {
    if text == "A+"@ {
        Some(Grade::APlus)
    } else if text == "A"@ {
        Some(Grade::A)
    } else if text == "A-"@ {
        Some(Grade::AMinus)
    } else if text == "B"@ {
        Some(Grade::B)
    } else if text == "C"@ {
        Some(Grade::C)
    } else if text == "D"@ {
        Some(Grade::D)
    } else if text == "E"@ {
        Some(Grade::E)
    } else if text == "F"@ {
        Some(Grade::F)
    } else if text == "M"@ {
        Some(Grade::M)
    } else if text == "T"@ {
        Some(Grade::T)
    } else {
        None
    }
}

/// The exit code that a grade, or its absence, stands for.
pub open spec fn grade_exit_code(grade: Option<Grade>) -> int {
    match grade {
        Some(Grade::APlus) | Some(Grade::A) => 0,
        Some(Grade::AMinus) => 1,
        _ => 2,
    }
}

impl Grade {
    /// Reads a grade from the text that the service sent.
    pub fn parse(text: &str) -> (grade: Option<Grade>)
        ensures
            grade == grade_of_text(text@),
    {
        if same_text(text, "A+") {
            Some(Grade::APlus)
        } else if same_text(text, "A") {
            Some(Grade::A)
        } else if same_text(text, "A-") {
            Some(Grade::AMinus)
        } else if same_text(text, "B") {
            Some(Grade::B)
        } else if same_text(text, "C") {
            Some(Grade::C)
        } else if same_text(text, "D") {
            Some(Grade::D)
        } else if same_text(text, "E") {
            Some(Grade::E)
        } else if same_text(text, "F") {
            Some(Grade::F)
        } else if same_text(text, "M") {
            Some(Grade::M)
        } else if same_text(text, "T") {
            Some(Grade::T)
        } else {
            None
        }
    }

    /// The text that the service writes for this grade.
    pub fn as_str(&self) -> (text: &'static str)
        ensures
            text@ == grade_text(*self),
    {
        match self {
            Grade::APlus => "A+",
            Grade::A => "A",
            Grade::AMinus => "A-",
            Grade::B => "B",
            Grade::C => "C",
            Grade::D => "D",
            Grade::E => "E",
            Grade::F => "F",
            Grade::M => "M",
            Grade::T => "T",
        }
    }
}

/// Maps a grade to the process exit code: 0 for A+ and A, 1 for A-, 2 for
/// every lower grade and for no grade at all.
pub fn exit_code_for(grade: Option<Grade>) -> (code: i32)
    ensures
        code == grade_exit_code(grade),
        0 <= code <= 2,
{
    match grade {
        Some(Grade::APlus) | Some(Grade::A) => 0,
        Some(Grade::AMinus) => 1,
        _ => 2,
    }
}

/// The text of every grade reads back as that grade.
pub proof fn lemma_grade_round_trip(grade: Grade)
    ensures
        grade_of_text(grade_text(grade)) == Some(grade),
{
    reveal_strlit("A+");
    reveal_strlit("A");
    reveal_strlit("A-");
    reveal_strlit("B");
    reveal_strlit("C");
    reveal_strlit("D");
    reveal_strlit("E");
    reveal_strlit("F");
    reveal_strlit("M");
    reveal_strlit("T");
    assert("A+"@.len() == 2 && "A+"@[1] == '+');
    assert("A-"@.len() == 2 && "A-"@[1] == '-');
    assert("A"@.len() == 1 && "B"@.len() == 1 && "C"@.len() == 1 && "D"@.len() == 1);
    assert("E"@.len() == 1 && "F"@.len() == 1 && "M"@.len() == 1 && "T"@.len() == 1);
    assert("A"@[0] == 'A');
    assert("B"@[0] == 'B');
    assert("C"@[0] == 'C');
    assert("D"@[0] == 'D');
    assert("E"@[0] == 'E');
    assert("F"@[0] == 'F');
    assert("M"@[0] == 'M');
    assert("T"@[0] == 'T');
}

} // verus!
