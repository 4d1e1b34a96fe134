//! The per-request pipeline core: the two-way outcome classifier
//! (caller-fault versus system-fault) and the rendering of every failure into
//! exactly one well-formed wire response.

use vstd::prelude::*;
use crate::envelope::{encoded_envelope, EnvelopeView, HttpErrorResponse};

verus! {

/// A response as this core hands it to the transport: a status code, whether
/// the body is JSON (and so carries a `content-type: application/json`
/// header), and the body text, absent for an empty response.
#[derive(Debug)]
pub struct WireResponse {
    pub status: u16,
    pub json: bool,
    pub body: Option<String>,
}

/// The mathematical view of a wire response.
pub struct WireResponseView {
    pub status: u16,
    pub json: bool,
    pub body: Option<Seq<char>>,
}

impl View for WireResponse {
    type V = WireResponseView;

    open spec fn view(&self) -> WireResponseView {
        WireResponseView {
            status: self.status,
            json: self.json,
            body: match self.body {
                Option::None => Option::None,
                Option::Some(ref b) => Option::Some(b@),
            },
        }
    }
}

/// A failed handler outcome, classified: a caller-fault error carrying the
/// envelope to render, or a system-fault error carrying an opaque diagnostic
/// that is never shown to the caller.
#[derive(Debug)]
pub enum HttpError {
    Server(String),
    Client(Box<HttpErrorResponse>),
}

/// The mathematical view of a classified error.
pub enum HttpErrorView {
    Server(Seq<char>),
    Client(EnvelopeView),
}

impl View for HttpError {
    type V = HttpErrorView;

    open spec fn view(&self) -> HttpErrorView {
        match self {
            HttpError::Server(d) => HttpErrorView::Server(d@),
            HttpError::Client(env) => HttpErrorView::Client(env@),
        }
    }
}

/// Classifies a failure as system-fault. The diagnostic is kept for the
/// logging collaborator and never rendered to the caller.
pub fn e500(diagnostic: String) -> (r: HttpError)
    ensures
        r@ == HttpErrorView::Server(diagnostic@),
{
    HttpError::Server(diagnostic)
}

/// Classifies a failure as caller-fault: its envelope is rendered as the
/// response.
pub fn e400(error: HttpErrorResponse) -> (r: HttpError)
    ensures
        r@ == HttpErrorView::Client(error@),
{
    HttpError::Client(error.boxed())
}

/// A response with a JSON body and the matching content-type header.
pub fn json_response(status: u16, body: String) -> (r: WireResponse)
    ensures
        r@ == (WireResponseView { status, json: true, body: Option::Some(body@) }),
{
    WireResponse { status, json: true, body: Some(body) }
}

/// A response with no body at all.
pub fn empty_response(status: u16) -> (r: WireResponse)
    ensures
        r@ == (WireResponseView { status, json: false, body: Option::None }),
{
    WireResponse { status, json: false, body: None }
}

/// The fixed envelope every system-fault outcome is rendered as: nothing of
/// the underlying failure reaches the caller.
pub open spec fn internal_error_view() -> EnvelopeView {
    EnvelopeView {
        status: 500,
        code: "internal_server_error"@,
        title: "Internal server error"@,
        detail: Option::None,
        source: Option::None,
    }
}

/// Builds the fixed system-fault envelope.
pub fn internal_error_envelope() -> (r: HttpErrorResponse)
    ensures
        r@ == internal_error_view(),
{
    HttpErrorResponse::new(500, "internal_server_error", "Internal server error")
}

/// How a caller-fault envelope goes on the wire: its own status code and its
/// exact JSON form as the body.
pub open spec fn rendered_client(v: EnvelopeView) -> WireResponseView {
    WireResponseView { status: v.status, json: true, body: Option::Some(encoded_envelope(v)) }
}

/// Renders a classified error as the final response, and hands back the
/// diagnostic to log, if any: a caller-fault error becomes its own envelope
/// under its own status; a system-fault error becomes the fixed opaque 500
/// envelope, with the diagnostic returned for the logging collaborator.
pub fn render_error(error: HttpError) -> (r: (WireResponse, Option<String>))
    ensures
        error@ matches HttpErrorView::Client(v) ==> r.0@ == rendered_client(v) && r.1 is None,
        error@ matches HttpErrorView::Server(d) ==> r.0@ == rendered_client(internal_error_view())
            && (r.1 matches Some(l) && l@ == d),
{
    match error {
        HttpError::Client(env) => {
            let body = env.to_json();
            let status = env.status;
            (json_response(status, body), None)
        },
        HttpError::Server(diagnostic) => {
            let env = internal_error_envelope();
            let body = env.to_json();
            (json_response(500, body), Some(diagnostic))
        },
    }
}

} // verus!
