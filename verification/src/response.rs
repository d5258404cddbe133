//! One status report of the service, as decoded from the body of a response.

use vstd::prelude::*;

verus! {

/// What the service reports of one assessed address of the host.
#[derive(Clone, Debug, PartialEq, Eq)]
pub struct Endpoint {
    pub status_message: Option<String>,
    pub grade: Option<String>,
}

/// The mathematical value of an [`Endpoint`].
pub struct EndpointView {
    pub status_message: Option<Seq<char>>,
    pub grade: Option<Seq<char>>,
}

impl DeepView for Endpoint {
    type V = EndpointView;

    open spec fn deep_view(&self) -> EndpointView {
        EndpointView {
            status_message: self.status_message.deep_view(),
            grade: self.grade.deep_view(),
        }
    }
}

impl View for Endpoint {
    type V = EndpointView;

    open spec fn view(&self) -> EndpointView {
        self.deep_view()
    }
}

/// One status report. Of the endpoints only the first one counts: it is the
/// address that the analysis was asked for.
#[derive(Clone, Debug, PartialEq, Eq)]
pub struct Response {
    pub host: String,
    pub status: String,
    pub status_message: Option<String>,
    pub endpoints: Option<Vec<Endpoint>>,
}

/// The mathematical value of a [`Response`].
pub struct ResponseView {
    pub host: Seq<char>,
    pub status: Seq<char>,
    pub status_message: Option<Seq<char>>,
    pub endpoints: Option<Seq<EndpointView>>,
}

impl View for Response {
    type V = ResponseView;

    open spec fn view(&self) -> ResponseView {
        ResponseView {
            host: self.host@,
            status: self.status@,
            status_message: self.status_message.deep_view(),
            endpoints: self.endpoints.deep_view(),
        }
    }
}

/// Copies a text that may be absent.
pub(crate) fn copy_text(text: &Option<String>) -> (copy: Option<String>)
    ensures
        copy.deep_view() == text.deep_view(),
{
    match text {
        Some(t) => Some(t.clone()),
        None => None,
    }
}

} // verus!
