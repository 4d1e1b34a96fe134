//! Body decoding: content-type negotiation, the closed taxonomy of decode
//! failures, and the deterministic mapping of each failure to an error
//! envelope.

use vstd::prelude::*;
use crate::envelope::{EnvelopeView, HttpErrorResponse, HttpErrorSource, SourceView};
use crate::locator::{pointer_text, DecodePath, PathSegmentView};
use crate::text::str_eq;

verus! {

/// The decoding strategy selected for a request body.
#[derive(Debug, Clone, Copy, PartialEq, Eq, Structural)]
pub enum BodyFormat {
    Json,
    Form,
}

/// The `Content-Type` header of a request, as the transport hands it over:
/// absent, present but not readable as a string, or its text.
#[derive(Debug)]
pub enum ContentTypeHeader {
    Missing,
    Unreadable,
    Value(String),
}

/// The mathematical view of a `Content-Type` header.
pub enum ContentTypeView {
    Missing,
    Unreadable,
    Value(Seq<char>),
}

impl View for ContentTypeHeader {
    type V = ContentTypeView;

    open spec fn view(&self) -> ContentTypeView {
        match self {
            ContentTypeHeader::Missing => ContentTypeView::Missing,
            ContentTypeHeader::Unreadable => ContentTypeView::Unreadable,
            ContentTypeHeader::Value(s) => ContentTypeView::Value(s@),
        }
    }
}

/// Why a request body could not be decoded. `MissingContentType` is reserved
/// for stricter callers that demand an explicit header; the default
/// negotiation treats a missing header as JSON.
#[derive(Debug)]
pub enum ParseBodyError {
    UnsupportedContentType,
    InvalidContentType,
    MissingContentType,
    InvalidJsonBody { path: DecodePath, message: String },
    InvalidFormBody { path: DecodePath, message: String },
}

/// The mathematical view of a decode failure.
pub enum ParseBodyErrorView {
    UnsupportedContentType,
    InvalidContentType,
    MissingContentType,
    InvalidJsonBody { path: Seq<PathSegmentView>, message: Seq<char> },
    InvalidFormBody { path: Seq<PathSegmentView>, message: Seq<char> },
}

impl View for ParseBodyError {
    type V = ParseBodyErrorView;

    open spec fn view(&self) -> ParseBodyErrorView {
        match self {
            ParseBodyError::UnsupportedContentType => ParseBodyErrorView::UnsupportedContentType,
            ParseBodyError::InvalidContentType => ParseBodyErrorView::InvalidContentType,
            ParseBodyError::MissingContentType => ParseBodyErrorView::MissingContentType,
            ParseBodyError::InvalidJsonBody { path, message } => ParseBodyErrorView::InvalidJsonBody {
                path: path@,
                message: message@,
            },
            ParseBodyError::InvalidFormBody { path, message } => ParseBodyErrorView::InvalidFormBody {
                path: path@,
                message: message@,
            },
        }
    }
}

/// What the mime crate's parser returns for a given header text: `None` when
/// the text is not a MIME type, otherwise the top-level type and the subtype.
/// The result is a function of the text alone.
pub uninterp spec fn mime_essence(s: Seq<char>) -> Option<(Seq<char>, Seq<char>)>;

/// Relies on `mime::Mime::from_str` (mime 0.3): whether a string parses as a
/// MIME type, and which top-level type and subtype it has, depend on the
/// string alone; on success `type_()` and `subtype()` return them in ASCII
/// lower case.
#[verifier::external_body]
fn content_type_essence(s: &str) -> (r: Option<(String, String)>)
    ensures
        (r is Some) == (mime_essence(s@) is Some),
        r matches Some(p) ==> mime_essence(s@) matches Some(q) && p.0@ == q.0 && p.1@ == q.1,
{
    match s.parse::<mime::Mime>() {
        Ok(m) => Some((m.type_().as_str().to_owned(), m.subtype().as_str().to_owned())),
        Err(_) => None,
    }
}

/// The content-negotiation rule: a missing header defaults to JSON; an
/// unreadable or unparseable header is an invalid content type; of the
/// parseable ones, `application/json` and `application/x-www-form-urlencoded`
/// select their decoders and every other MIME type is unsupported.
pub open spec fn negotiated(ct: ContentTypeView) -> Result<BodyFormat, ParseBodyError> {
    match ct {
        ContentTypeView::Missing => Result::Ok(BodyFormat::Json),
        ContentTypeView::Unreadable => Result::Err(ParseBodyError::InvalidContentType),
        ContentTypeView::Value(s) => match mime_essence(s) {
            Option::None => Result::Err(ParseBodyError::InvalidContentType),
            Option::Some(e) => if e.0 == "application"@ && e.1 == "json"@ {
                Result::Ok(BodyFormat::Json)
            } else if e.0 == "application"@ && e.1 == "x-www-form-urlencoded"@ {
                Result::Ok(BodyFormat::Form)
            } else {
                Result::Err(ParseBodyError::UnsupportedContentType)
            },
        },
    }
}

/// Selects the decoding strategy for a request from its `Content-Type`
/// header, exactly as [`negotiated`] states.
pub fn negotiate_content_type(ct: &ContentTypeHeader) -> (r: Result<BodyFormat, ParseBodyError>)
    ensures
        r == negotiated(ct@),
{
    match ct {
        ContentTypeHeader::Missing => Ok(BodyFormat::Json),
        ContentTypeHeader::Unreadable => Err(ParseBodyError::InvalidContentType),
        ContentTypeHeader::Value(s) => match content_type_essence(s.as_str()) {
            None => Err(ParseBodyError::InvalidContentType),
            Some((t, sub)) => {
                if str_eq(t.as_str(), "application") && str_eq(sub.as_str(), "json") {
                    Ok(BodyFormat::Json)
                } else if str_eq(t.as_str(), "application") && str_eq(
                    sub.as_str(),
                    "x-www-form-urlencoded",
                ) {
                    Ok(BodyFormat::Form)
                } else {
                    Err(ParseBodyError::UnsupportedContentType)
                }
            },
        },
    }
}

/// The envelope that a decode failure is rendered as: the fixed status, code,
/// title and header locator of each content-negotiation failure, or status
/// 422 with the decoder's message and — when the failure is attributable to a
/// field — a pointer locator for a payload-shape failure.
pub open spec fn envelope_view_of(e: ParseBodyErrorView) -> EnvelopeView {
    match e {
        ParseBodyErrorView::UnsupportedContentType => EnvelopeView {
            status: 415,
            code: "unsupported_content_type"@,
            title: "Unsupported content type"@,
            detail: Option::Some(
                "Content type header must be application/json or application/x-www-form-urlencoded"@,
            ),
            source: Option::Some(SourceView::Header("Content-Type"@)),
        },
        ParseBodyErrorView::InvalidContentType => EnvelopeView {
            status: 400,
            code: "invalid_content_type"@,
            title: "Invalid content type"@,
            detail: Option::Some("Invalid content type header"@),
            source: Option::Some(SourceView::Header("Content-Type"@)),
        },
        ParseBodyErrorView::MissingContentType => EnvelopeView {
            status: 400,
            code: "missing_content_type"@,
            title: "Missing content type"@,
            detail: Option::Some("Missing content type header"@),
            source: Option::Some(SourceView::Header("Content-Type"@)),
        },
        ParseBodyErrorView::InvalidJsonBody { path, message } => EnvelopeView {
            status: 422,
            code: "invalid_body"@,
            title: "Invalid body"@,
            detail: Option::Some(message),
            source: if path.len() > 0 {
                Option::Some(SourceView::Pointer(pointer_text(path)))
            } else {
                Option::None
            },
        },
        ParseBodyErrorView::InvalidFormBody { path, message } => EnvelopeView {
            status: 422,
            code: "invalid_body"@,
            title: "Invalid body"@,
            detail: Option::Some(message),
            source: if path.len() > 0 {
                Option::Some(SourceView::Pointer(pointer_text(path)))
            } else {
                Option::None
            },
        },
    }
}

impl HttpErrorResponse {
    /// Renders a decode failure as its error envelope, exactly as
    /// [`envelope_view_of`] states.
    pub fn from_parse_body_error(e: ParseBodyError) -> (r: HttpErrorResponse)
        ensures
            r@ == envelope_view_of(e@),
            r@.wf(),
    {
        match e {
            ParseBodyError::UnsupportedContentType => HttpErrorResponse::new(
                415,
                "unsupported_content_type",
                "Unsupported content type",
            ).with_detail(
                "Content type header must be application/json or application/x-www-form-urlencoded",
            ).with_source(HttpErrorSource::Header("Content-Type".to_owned())),
            ParseBodyError::InvalidContentType => HttpErrorResponse::new(
                400,
                "invalid_content_type",
                "Invalid content type",
            ).with_detail("Invalid content type header").with_source(
                HttpErrorSource::Header("Content-Type".to_owned()),
            ),
            ParseBodyError::MissingContentType => HttpErrorResponse::new(
                400,
                "missing_content_type",
                "Missing content type",
            ).with_detail("Missing content type header").with_source(
                HttpErrorSource::Header("Content-Type".to_owned()),
            ),
            ParseBodyError::InvalidJsonBody { path, message } => {
                let base = HttpErrorResponse::new(422, "invalid_body", "Invalid body")
                    .with_detail(message.as_str());
                if path.is_root() {
                    base
                } else {
                    base.with_source(HttpErrorSource::from_path(&path))
                }
            },
            ParseBodyError::InvalidFormBody { path, message } => {
                let base = HttpErrorResponse::new(422, "invalid_body", "Invalid body")
                    .with_detail(message.as_str());
                if path.is_root() {
                    base
                } else {
                    base.with_source(HttpErrorSource::from_path(&path))
                }
            },
        }
    }
}

} // verus!
