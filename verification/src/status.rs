//! The state of a polling session, and how a status report changes it.

use vstd::prelude::*;
use crate::decode::{decode_document, decode_json};
use crate::error::DecodeError;
use crate::grade::{Grade, exit_code_for, grade_exit_code, grade_of_text};
use crate::json::json_document;
use crate::response::{EndpointView, Response, ResponseView, copy_text};
use crate::state::{State, state_of_text};
use crate::text::same_text;

verus! {

/// What a polling session knows after its latest status report.
#[derive(Clone, Debug, PartialEq, Eq)]
pub struct Status {
    /// How many status reports have been asked for.
    pub attempt: u32,
    /// Whether the session has its outcome and polling must stop.
    pub ready: bool,
    pub status: State,
    /// Why the session failed although the service reported no error.
    pub error: Option<String>,
    pub grade: Option<Grade>,
    /// What the service said when it reported an error.
    pub message: Option<String>,
    pub exit_code: i32,
}

/// The mathematical value of a [`Status`].
pub struct StatusView {
    pub attempt: nat,
    pub ready: bool,
    pub status: State,
    pub error: Option<Seq<char>>,
    pub grade: Option<Grade>,
    pub message: Option<Seq<char>>,
    pub exit_code: int,
}

impl View for Status {
    type V = StatusView;

    open spec fn view(&self) -> StatusView {
        StatusView {
            attempt: self.attempt as nat,
            ready: self.ready,
            status: self.status,
            error: self.error.deep_view(),
            grade: self.grade,
            message: self.message.deep_view(),
            exit_code: self.exit_code as int,
        }
    }
}

impl StatusView {
    /// The exit code is one of 0, 1, 2 and 3.
    pub open spec fn wf(self) -> bool {
        0 <= self.exit_code <= 3
    }

    /// The state before the first status report.
    pub open spec fn initial() -> StatusView {
        StatusView {
            attempt: 0,
            ready: false,
            status: State::Unknown,
            error: None,
            grade: None,
            message: None,
            exit_code: 0,
        }
    }

    /// The state after the overall status of a report has been read. An error
    /// and an unknown status end the session with exit code 3 and keep what
    /// the service said; every other status leaves the session open.
    pub open spec fn with_response(self, response: ResponseView) -> StatusView {
        let status = state_of_text(response.status);
        if status.is_terminal() {
            StatusView { status, message: response.status_message, exit_code: 3, ready: true, ..self }
        } else {
            StatusView { status, exit_code: 0, ready: false, ..self }
        }
    }

    /// The state after the status message of the first endpoint has been
    /// read: the message that is the word `Ready`, written so, gives the
    /// session its outcome. No message takes an outcome away: a session that
    /// had one keeps it.
    pub open spec fn with_ready(self, status_message: Seq<char>) -> StatusView {
        StatusView { ready: self.ready || status_message == "Ready"@, ..self }
    }

    /// The state after the exit code has been brought in line with the
    /// overall status and the grade. An error or an unknown status stands for
    /// exit code 3 whatever the grade; under every other status the grade
    /// decides, and a state without a grade stands for exit code 2.
    pub open spec fn with_exit_code(self) -> StatusView {
        if self.status.is_terminal() {
            StatusView { exit_code: 3, ..self }
        } else {
            StatusView { exit_code: grade_exit_code(self.grade), ..self }
        }
    }

    /// The state of a session that failed for want of an endpoint.
    pub open spec fn without_endpoint(self, detail: Seq<char>) -> StatusView {
        StatusView { exit_code: 3, status: State::Error, error: Some(detail), ready: true, ..self }
    }

    /// The state after the first endpoint has been read. Where the endpoint
    /// reports a grade, the grade is kept and the exit code follows from it;
    /// where it reports none, grade and exit code stay as they are. A grade
    /// that is the empty text counts as no grade; any other text that is no
    /// grade is an error.
    pub open spec fn with_endpoint(self, endpoint: EndpointView) -> Result<StatusView, DecodeError> {
        let checked = self.with_ready(text_or_empty(endpoint.status_message));
        let token = text_or_empty(endpoint.grade);
        if token.len() == 0 {
            Ok(checked)
        } else {
            match grade_of_text(token) {
                Some(grade) => Ok(StatusView { grade: Some(grade), ..checked }.with_exit_code()),
                None => Err(DecodeError::Grade),
            }
        }
    }

    /// The state after a whole status report has been read.
    ///
    /// An error or an unknown overall status ends the session at once. Every
    /// other status leaves the decision to the first endpoint. A report that
    /// has no list of endpoints, or an empty one, ends the session with exit
    /// code 3 and says which of the two it was.
    pub open spec fn reconcile(self, report: ResponseView) -> Result<StatusView, DecodeError> {
        let first = self.with_response(report);
        if first.status.is_terminal() {
            Ok(first)
        } else {
            match report.endpoints {
                None => Ok(first.without_endpoint("no endpoint"@)),
                Some(endpoints) => if endpoints.len() == 0 {
                    Ok(first.without_endpoint("endpoint not ready"@))
                } else {
                    first.with_endpoint(endpoints[0])
                },
            }
        }
    }
}

/// A text that may be absent, with the empty text in place of none.
pub open spec fn text_or_empty(text: Option<Seq<char>>) -> Seq<char> {
    match text {
        Some(t) => t,
        None => Seq::empty(),
    }
}

/// Whether a new state is the one that the model asks for.
pub open spec fn reconciled_as(
    made: Result<Status, DecodeError>,
    expected: Result<StatusView, DecodeError>,
) -> bool {
    match expected {
        Ok(state) => made matches Ok(s) && s@ == state,
        Err(e) => made == Err::<Status, DecodeError>(e),
    }
}

/// The state that the body of a response leads to: the body is decoded, and
/// the report it holds is read into the state.
pub open spec fn reconcile_body(state: StatusView, body: Seq<char>) -> Result<
    StatusView,
    DecodeError,
> {
    match decode_document(json_document(body)) {
        Ok(report) => state.reconcile(report),
        Err(e) => Err(e),
    }
}

impl Default for Status {
    /// The state before the first status report.
    fn default() -> (status: Status)
        ensures
            status@ == StatusView::initial(),
    {
        Status {
            attempt: 0,
            ready: false,
            status: State::Unknown,
            error: None,
            grade: None,
            message: None,
            exit_code: 0,
        }
    }
}

/// The text of an optional text, or the empty text.
fn text_of(text: &Option<String>) -> (t: &str)
    ensures
        t@ == text_or_empty(text.deep_view()),
{
    match text {
        Some(t) => t.as_str(),
        None => {
            proof {
                reveal_strlit("");
            }
            assert(""@ =~= Seq::<char>::empty());
            ""
        },
    }
}

impl Status {
    /// Reads the overall status of a report into the state.
    pub fn set_response(&mut self, response: &Response)
        ensures
            final(self)@ == old(self)@.with_response(response@),
            final(self)@.wf(),
    {
        self.status = State::parse(response.status.as_str());
        if self.status == State::Error {
            self.message = copy_text(&response.status_message);
            self.exit_code = 3;
            self.ready = true;
        } else if self.status == State::InProgress || self.status == State::Ready || self.status
            == State::Dns {
            self.exit_code = 0;
            self.ready = false;
        } else {
            self.message = copy_text(&response.status_message);
            self.exit_code = 3;
            self.ready = true;
        }
    }

    /// Reads the status message of the first endpoint into the state. The
    /// session has its outcome afterwards if it had one before or the message
    /// is the word `Ready`; nothing else changes.
    pub fn set_ready(&mut self, status_message: &str)
        ensures
            final(self)@ == old(self)@.with_ready(status_message@),
            old(self)@.wf() ==> final(self)@.wf(),
    {
        if same_text(status_message, "Ready") {
            self.ready = true;
        }
    }

    /// Brings the exit code in line with the overall status and the grade:
    /// 3 under an error or an unknown status, else the code of the grade, which
    /// is 2 where there is no grade.
    pub fn set_exit_code(&mut self)
        ensures
            final(self)@ == old(self)@.with_exit_code(),
            final(self)@.wf(),
    {
        if self.status == State::Error || self.status == State::Unknown {
            self.exit_code = 3;
        } else {
            self.exit_code = exit_code_for(self.grade);
        }
    }

    /// Ends the session for want of an endpoint.
    fn fail_without_endpoint(&mut self, detail: &str)
        ensures
            final(self)@ == old(self)@.without_endpoint(detail@),
    {
        self.exit_code = 3;
        self.status = State::Error;
        self.error = Some(detail.to_owned());
        self.ready = true;
    }
}

/// Reads a status report into the state of the session and gives the new
/// state. Fails, with [`DecodeError::Grade`], only where the first endpoint
/// reports a grade that is no known grade.
pub fn process_response(response: &Response, status: Status) -> (made: Result<Status, DecodeError>)
    ensures
        reconciled_as(made, status@.reconcile(response@)),
        made matches Ok(s) ==> s@.wf(),
{
    let mut status = status;
    status.set_response(response);
    if status.status == State::Error || status.status == State::Unknown {
        return Ok(status);
    }
    match &response.endpoints {
        Some(endpoints) => {
            if endpoints.len() == 0 {
                status.fail_without_endpoint("endpoint not ready");
            } else {
                let endpoint = &endpoints[0];
                assert(response@.endpoints->Some_0[0] == endpoint@);
                status.set_ready(text_of(&endpoint.status_message));
                let token = text_of(&endpoint.grade);
                if !token.is_empty() {
                    match Grade::parse(token) {
                        Some(grade) => {
                            status.grade = Some(grade);
                            status.set_exit_code();
                        },
                        None => {
                            return Err(DecodeError::Grade);
                        },
                    }
                }
            }
        },
        None => {
            status.fail_without_endpoint("no endpoint");
        },
    }
    Ok(status)
}

/// Decodes the body of a response and reads the report it holds into the
/// state of the session.
pub fn process_response_body(body: &str, status: Status) -> (made: Result<Status, DecodeError>)
    ensures
        reconciled_as(made, reconcile_body(status@, body@)),
        made matches Ok(s) ==> s@.wf(),
{
    match decode_json(body) {
        Ok(response) => process_response(&response, status),
        Err(e) => Err(e),
    }
}

/// Whether the first endpoint of a report reports the given grade.
pub open spec fn reports_grade(report: ResponseView, grade: Option<Grade>) -> bool {
    &&& grade is Some
    &&& report.endpoints matches Some(endpoints)
    &&& endpoints.len() > 0
    &&& endpoints[0].grade matches Some(text)
    &&& grade_of_text(text) == grade
}

/// After any status report the exit code is one of 0, 1, 2 and 3, whatever
/// the state was before.
pub proof fn lemma_reconcile_wf(state: StatusView, report: ResponseView)
    ensures
        state.reconcile(report) matches Ok(next) ==> next.wf(),
{
}

/// Whether a session has its outcome after a status report does not depend on
/// the state before: it has one where the overall status is an error or
/// unknown, where the report has no first endpoint, and where the status
/// message of the first endpoint is the word `Ready`; it has none otherwise.
pub proof fn lemma_ready_after_report(state: StatusView, report: ResponseView)
    ensures
        state.reconcile(report) matches Ok(next) ==> next.ready == (state_of_text(
            report.status,
        ).is_terminal() || !(report.endpoints matches Some(endpoints) && endpoints.len() > 0)
            || text_or_empty(report.endpoints->Some_0[0].status_message) == "Ready"@),
{
}

/// The exit code after a status report does not depend on the state before:
/// it is 3 where the overall status is an error or unknown, or the report has
/// no first endpoint; it is the code of the grade where the first endpoint
/// reports one; and it is 0 where the first endpoint reports none.
pub proof fn lemma_exit_code_after_report(state: StatusView, report: ResponseView)
    ensures
        state.reconcile(report) matches Ok(next) ==> next.exit_code == (if state_of_text(
            report.status,
        ).is_terminal() {
            3
        } else if !(report.endpoints matches Some(endpoints) && endpoints.len() > 0) {
            3
        } else if text_or_empty(report.endpoints->Some_0[0].grade).len() > 0 {
            grade_exit_code(grade_of_text(text_or_empty(report.endpoints->Some_0[0].grade)))
        } else {
            0int
        }),
{
}

/// A status report changes the grade of a session only to the grade that its
/// first endpoint reports, and only where that is a known grade.
pub proof fn lemma_grade_comes_from_endpoint(state: StatusView, report: ResponseView)
    ensures
        state.reconcile(report) matches Ok(next) ==> next.grade == state.grade || reports_grade(
            report,
            next.grade,
        ),
{
}

} // verus!
