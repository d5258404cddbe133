//! The polling loop as a state machine.
//!
//! The library does not fetch and does not sleep. Its caller fetches a body,
//! hands it to the loop, and is told by the new state of the loop whether to
//! fetch again after a pause or to stop.

use vstd::prelude::*;
use crate::decode::{decode_document, decode_json};
use crate::error::DecodeError;
use crate::json::json_document;
use crate::response::{Response, ResponseView};
use crate::state::{State, state_of_text};
use crate::status::{Status, StatusView, process_response};

verus! {

/// Where a polling loop stands.
#[derive(Clone, Copy, Debug, PartialEq, Eq, Structural)]
pub enum Phase {
    /// Another status report is to be fetched.
    Polling,
    /// The loop has ended; its state is final.
    Done,
}

/// A polling loop: its phase, the state of the session, and the number of
/// attempts after which it gives up.
#[derive(Debug)]
pub struct PollLoop {
    phase: Phase,
    status: Status,
    cap: u8,
}

/// The mathematical value of a [`PollLoop`].
pub struct PollLoopView {
    pub phase: Phase,
    pub status: StatusView,
    pub cap: nat,
}

impl PollLoopView {
    /// What holds of every polling loop: the exit code is one of 0 to 3; a loop
    /// that polls has no outcome yet and has not used up its attempts; and no
    /// loop asks more than once beyond its cap.
    pub open spec fn wf(self) -> bool {
        &&& self.status.wf()
        &&& self.cap <= u8::MAX
        &&& self.status.attempt <= self.cap + 1
        &&& self.phase is Polling ==> !self.status.ready && self.status.attempt <= self.cap
    }

    /// The loop before the first request.
    pub open spec fn start(cap: nat) -> PollLoopView {
        PollLoopView { phase: Phase::Polling, status: StatusView::initial(), cap }
    }

    /// The phase that follows a status report: the loop ends when the session
    /// has its outcome or the attempts have gone beyond the cap.
    pub open spec fn phase_after(status: StatusView, cap: nat) -> Phase {
        if status.ready || status.attempt > cap {
            Phase::Done
        } else {
            Phase::Polling
        }
    }

    /// The loop after one more status report. The attempt is counted, the
    /// report is read into the state, and the phase follows from the new
    /// state. A loop that has ended stays as it is.
    pub open spec fn step(self, report: ResponseView) -> Result<PollLoopView, DecodeError> {
        match self.phase {
            Phase::Done => Ok(self),
            Phase::Polling => {
                let counted = StatusView { attempt: self.status.attempt + 1, ..self.status };
                match counted.reconcile(report) {
                    Ok(status) => Ok(
                        PollLoopView {
                            phase: Self::phase_after(status, self.cap),
                            status,
                            cap: self.cap,
                        },
                    ),
                    Err(e) => Err(e),
                }
            },
        }
    }

    /// The loop after the body of one more response.
    pub open spec fn step_body(self, body: Seq<char>) -> Result<PollLoopView, DecodeError> {
        match self.phase {
            Phase::Done => Ok(self),
            Phase::Polling => match decode_document(json_document(body)) {
                Ok(report) => self.step(report),
                Err(e) => Err(e),
            },
        }
    }

    /// The loop after a sequence of status reports, of which it reads no more
    /// than it asks for: none once it has ended.
    pub open spec fn run(self, reports: Seq<ResponseView>) -> Result<PollLoopView, DecodeError>
        decreases reports.len(),
    {
        if reports.len() == 0 || self.phase is Done {
            Ok(self)
        } else {
            match self.step(reports[0]) {
                Ok(next) => next.run(reports.drop_first()),
                Err(e) => Err(e),
            }
        }
    }
}

/// Whether a new loop is the one that the model asks for.
pub open spec fn stepped_as(
    made: Result<PollLoop, DecodeError>,
    expected: Result<PollLoopView, DecodeError>,
) -> bool {
    match expected {
        Ok(next) => made matches Ok(l) && l@ == next,
        Err(e) => made == Err::<PollLoop, DecodeError>(e),
    }
}

impl View for PollLoop {
    type V = PollLoopView;

    closed spec fn view(&self) -> PollLoopView {
        PollLoopView { phase: self.phase, status: self.status@, cap: self.cap as nat }
    }
}

impl PollLoop {
    #[verifier::type_invariant]
    spec fn inv(self) -> bool {
        self@.wf()
    }

    /// A loop that gives up once its attempts have gone beyond `cap`.
    pub fn new(cap: u8) -> (made: PollLoop)
        ensures
            made@ == PollLoopView::start(cap as nat),
    {
        PollLoop { phase: Phase::Polling, status: Status::default(), cap }
    }

    /// Where the loop stands.
    pub fn phase(&self) -> (phase: Phase)
        ensures
            phase == self@.phase,
    {
        self.phase
    }

    /// Whether the loop has ended.
    pub fn is_done(&self) -> (done: bool)
        ensures
            done == (self@.phase is Done),
    {
        self.phase == Phase::Done
    }

    /// The state of the session.
    pub fn status(&self) -> (status: &Status)
        ensures
            status@ == self@.status,
            self@.wf(),
    {
        proof {
            use_type_invariant(self);
        }
        &self.status
    }

    /// The number of attempts after which the loop gives up.
    pub fn cap(&self) -> (cap: u8)
        ensures
            cap == self@.cap,
    {
        self.cap
    }

    /// The exit code that the state of the session stands for.
    pub fn exit_code(&self) -> (code: i32)
        ensures
            code == self@.status.exit_code,
            0 <= code <= 3,
    {
        proof {
            use_type_invariant(self);
        }
        self.status.exit_code
    }

    /// Hands the loop one more status report.
    pub fn on_report(self, report: &Response) -> (made: Result<PollLoop, DecodeError>)
        ensures
            stepped_as(made, self@.step(report@)),
    {
        proof {
            use_type_invariant(&self);
        }
        match self.phase {
            Phase::Done => Ok(self),
            Phase::Polling => {
                let cap: u8 = self.cap;
                let mut status = self.status;
                status.attempt = status.attempt + 1;
                match process_response(report, status) {
                    Ok(status) => {
                        let phase = if status.ready || status.attempt > cap as u32 {
                            Phase::Done
                        } else {
                            Phase::Polling
                        };
                        Ok(PollLoop { phase, status, cap })
                    },
                    Err(e) => Err(e),
                }
            },
        }
    }

    /// Hands the loop the body of one more response.
    pub fn on_body(self, body: &str) -> (made: Result<PollLoop, DecodeError>)
        ensures
            stepped_as(made, self@.step_body(body@)),
    {
        match self.phase {
            Phase::Done => Ok(self),
            Phase::Polling => match decode_json(body) {
                Ok(report) => self.on_report(&report),
                Err(e) => Err(e),
            },
        }
    }
}

/// A step keeps what holds of every polling loop.
pub proof fn lemma_step_keeps_wf(l: PollLoopView, report: ResponseView)
    requires
        l.wf(),
    ensures
        l.step(report) matches Ok(next) ==> next.wf() && next.cap == l.cap,
{
}

/// A session that has its outcome ends the loop, and a loop that has ended
/// reads no further report.
pub proof fn lemma_outcome_is_final(l: PollLoopView, report: ResponseView)
    ensures
        l.phase is Done ==> l.step(report) == Ok::<PollLoopView, DecodeError>(l),
        l.step(report) matches Ok(next) ==> (l.phase is Polling && next.status.ready
            ==> next.phase is Done),
{
}

/// An overall status of error ends the loop at the attempt that meets it,
/// with exit code 3, however many attempts are left.
pub proof fn lemma_error_ends_polling(l: PollLoopView, report: ResponseView)
    requires
        l.phase is Polling,
        state_of_text(report.status) == State::Error,
    ensures
        l.step(report) matches Ok(next) && next.phase is Done && next.status.exit_code == 3
            && next.status.ready && next.status.status == State::Error && next.status.attempt
            == l.status.attempt + 1,
{
}

/// A report whose overall status leaves the session open, and which has no
/// list of endpoints, ends the loop at once with exit code 3 and says so. A
/// list that is there and holds nothing does the same in other words.
pub proof fn lemma_no_endpoint_ends_polling(l: PollLoopView, report: ResponseView)
    requires
        l.phase is Polling,
        !state_of_text(report.status).is_terminal(),
        report.endpoints matches Some(endpoints) ==> endpoints.len() == 0,
    ensures
        l.step(report) matches Ok(next) && next.phase is Done && next.status.exit_code == 3
            && next.status.status == State::Error && next.status.error == Some(
            if report.endpoints is None {
                "no endpoint"@
            } else {
                "endpoint not ready"@
            },
        ),
{
}

/// The attempt that goes beyond the cap ends the loop, whether or not there
/// is an outcome. The state is the one that the report led to: its exit code
/// is not replaced.
pub proof fn lemma_cap_ends_polling(l: PollLoopView, report: ResponseView)
    requires
        l.phase is Polling,
        l.status.attempt >= l.cap,
    ensures
        match (StatusView { attempt: l.status.attempt + 1, ..l.status }).reconcile(report) {
            Ok(status) => l.step(report) == Ok::<PollLoopView, DecodeError>(
                PollLoopView { phase: Phase::Done, status, cap: l.cap },
            ),
            Err(e) => l.step(report) == Err::<PollLoopView, DecodeError>(e),
        },
{
}

/// A loop asks for at most one report more than its cap: handed more reports
/// than that, it has ended, and has counted no more than it asked for.
pub proof fn lemma_polling_ends(cap: nat, reports: Seq<ResponseView>)
    requires
        cap <= u8::MAX,
        reports.len() > cap,
    ensures
        PollLoopView::start(cap).run(reports) matches Ok(last) ==> last.phase is Done
            && last.status.attempt <= cap + 1,
{
    lemma_run_ends(PollLoopView::start(cap), reports);
}

/// A loop that is handed more reports than it has attempts left ends.
proof fn lemma_run_ends(l: PollLoopView, reports: Seq<ResponseView>)
    requires
        l.wf(),
        l.phase is Polling ==> reports.len() + l.status.attempt > l.cap,
    ensures
        l.run(reports) matches Ok(last) ==> last.phase is Done && last.wf() && last.cap == l.cap,
    decreases reports.len(),
{
    if reports.len() > 0 && l.phase is Polling {
        lemma_step_keeps_wf(l, reports[0]);
        match l.step(reports[0]) {
            Ok(next) => {
                lemma_run_ends(next, reports.drop_first());
            },
            Err(_) => {},
        }
    }
}

} // verus!
