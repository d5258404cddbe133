//! The overall status of a submitted analysis, and the texts that stand for it.

use vstd::prelude::*;
use crate::text::{folds_to, upper_text, same_ignoring_case};

verus! {

/// The overall status that the service reports for an analysis.
#[derive(Clone, Copy, Debug, PartialEq, Eq, Structural)]
pub enum State {
    /// The host name is being resolved.
    Dns,
    /// The analysis failed.
    Error,
    /// The analysis is running.
    InProgress,
    /// The analysis is complete at the overall level.
    Ready,
    /// The service reported a status that this library does not know.
    Unknown,
}

/// The canonical text of a status.
pub open spec fn state_text(state: State) -> Seq<char> {
    match state {
        State::Dns => "DNS"@,
        State::Error => "ERROR"@,
        State::InProgress => "IN_PROGRESS"@,
        State::Ready => "READY"@,
        State::Unknown => "UNKNOWN"@,
    }
}

/// The status that a text stands for.
///
/// ASCII letter case is ignored. A running analysis has three spellings: with
/// an underscore, with a space, and with nothing between the two words. A text
/// that is none of the known spellings stands for [`State::Unknown`].
pub open spec fn state_of_text(text: Seq<char>) -> State {
    let folded = upper_text(text);
    if folded == "DNS"@ {
        State::Dns
    } else if folded == "ERROR"@ {
        State::Error
    } else if folded == "IN_PROGRESS"@ || folded == "INPROGRESS"@ || folded == "IN PROGRESS"@ {
        State::InProgress
    } else if folded == "READY"@ {
        State::Ready
    } else {
        State::Unknown
    }
}

impl State {
    /// Reads a status from the text that the service sent. Never fails: a
    /// text that is not recognised gives [`State::Unknown`].
    pub fn parse(text: &str) -> (state: State)
        ensures
            state == state_of_text(text@),
    {
        if folds_to(text, "DNS") {
            State::Dns
        } else if folds_to(text, "ERROR") {
            State::Error
        } else if folds_to(text, "IN_PROGRESS") || folds_to(text, "INPROGRESS") || folds_to(
            text,
            "IN PROGRESS",
        ) {
            State::InProgress
        } else if folds_to(text, "READY") {
            State::Ready
        } else {
            State::Unknown
        }
    }

    /// The canonical text of this status.
    pub fn as_str(&self) -> (text: &'static str)
        ensures
            text@ == state_text(*self),
    {
        match self {
            State::Dns => "DNS",
            State::Error => "ERROR",
            State::InProgress => "IN_PROGRESS",
            State::Ready => "READY",
            State::Unknown => "UNKNOWN",
        }
    }

    /// Whether polling ends on this status whatever the endpoints report.
    pub open spec fn is_terminal(self) -> bool {
        self == State::Error || self == State::Unknown
    }
}

/// Texts that differ only in ASCII letter case stand for the same status.
pub proof fn lemma_state_ignores_case(a: Seq<char>, b: Seq<char>)
    requires
        same_ignoring_case(a, b),
    ensures
        state_of_text(a) == state_of_text(b),
{
}

/// Each of the three spellings of a running analysis, in any letter case,
/// stands for [`State::InProgress`].
pub proof fn lemma_in_progress_spellings(text: Seq<char>)
    requires
        same_ignoring_case(text, "IN_PROGRESS"@) || same_ignoring_case(text, "INPROGRESS"@)
            || same_ignoring_case(text, "IN PROGRESS"@),
    ensures
        state_of_text(text) == State::InProgress,
{
    lemma_known_spellings();
}

/// A text that matches no known spelling in any letter case stands for
/// [`State::Unknown`].
pub proof fn lemma_unrecognised_is_unknown(text: Seq<char>)
    requires
        !same_ignoring_case(text, "DNS"@),
        !same_ignoring_case(text, "ERROR"@),
        !same_ignoring_case(text, "IN_PROGRESS"@),
        !same_ignoring_case(text, "INPROGRESS"@),
        !same_ignoring_case(text, "IN PROGRESS"@),
        !same_ignoring_case(text, "READY"@),
    ensures
        state_of_text(text) == State::Unknown,
{
    lemma_known_spellings();
}

/// The canonical text of every status reads back as that status.
pub proof fn lemma_state_round_trip(state: State)
    ensures
        state_of_text(state_text(state)) == state,
{
    lemma_known_spellings();
}

/// The known spellings are upper case already, and no two of them are equal.
proof fn lemma_known_spellings()
    ensures
        upper_text("DNS"@) == "DNS"@,
        upper_text("ERROR"@) == "ERROR"@,
        upper_text("IN_PROGRESS"@) == "IN_PROGRESS"@,
        upper_text("INPROGRESS"@) == "INPROGRESS"@,
        upper_text("IN PROGRESS"@) == "IN PROGRESS"@,
        upper_text("READY"@) == "READY"@,
        upper_text("UNKNOWN"@) == "UNKNOWN"@,
        "DNS"@.len() == 3,
        "ERROR"@.len() == 5,
        "IN_PROGRESS"@.len() == 11,
        "INPROGRESS"@.len() == 10,
        "IN PROGRESS"@.len() == 11,
        "READY"@.len() == 5,
        "UNKNOWN"@.len() == 7,
        "ERROR"@[0] == 'E',
        "READY"@[0] == 'R',
        "IN_PROGRESS"@[2] == '_',
        "IN PROGRESS"@[2] == ' ',
{
    reveal_strlit("DNS");
    reveal_strlit("ERROR");
    reveal_strlit("IN_PROGRESS");
    reveal_strlit("INPROGRESS");
    reveal_strlit("IN PROGRESS");
    reveal_strlit("READY");
    reveal_strlit("UNKNOWN");
    assert(upper_text("DNS"@) =~= "DNS"@);
    assert(upper_text("ERROR"@) =~= "ERROR"@);
    assert(upper_text("IN_PROGRESS"@) =~= "IN_PROGRESS"@);
    assert(upper_text("INPROGRESS"@) =~= "INPROGRESS"@);
    assert(upper_text("IN PROGRESS"@) =~= "IN PROGRESS"@);
    assert(upper_text("READY"@) =~= "READY"@);
    assert(upper_text("UNKNOWN"@) =~= "UNKNOWN"@);
}

} // verus!
