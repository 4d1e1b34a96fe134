//! The laws this core guarantees, stated once and proved from the public
//! contracts: how each class of failure is attributed, what the default
//! content type is, and what a caller can ever learn of a system fault.

use vstd::prelude::*;
use crate::body::{
    envelope_view_of, mime_essence, negotiated, BodyFormat, ContentTypeView, ParseBodyError,
    ParseBodyErrorView,
};
use crate::envelope::{encoded_envelope, quoted, EnvelopeView, SourceView};
use crate::locator::{pointer_text, PathSegmentView};
use crate::pipeline::{internal_error_view, rendered_client};
use crate::text::dec_rep;

verus! {

/// A payload-shape failure in a JSON body is always rendered as status 422
/// with code `invalid_body`, the decoder's message as the detail, and — when
/// the decode path names at least one step — a pointer locator holding the
/// path's text; a failure at the document root carries no locator.
pub proof fn lemma_json_body_failure_attribution(path: Seq<PathSegmentView>, message: Seq<char>)
    ensures
        envelope_view_of(ParseBodyErrorView::InvalidJsonBody { path, message }) == (EnvelopeView {
            status: 422,
            code: "invalid_body"@,
            title: "Invalid body"@,
            detail: Option::Some(message),
            source: if path.len() > 0 {
                Option::Some(SourceView::Pointer(pointer_text(path)))
            } else {
                Option::None
            },
        }),
        envelope_view_of(ParseBodyErrorView::InvalidFormBody { path, message })
            == envelope_view_of(ParseBodyErrorView::InvalidJsonBody { path, message }),
{
}

/// A request with no `Content-Type` header decodes exactly as one whose
/// header names `application/json`: both select the JSON strategy.
pub proof fn lemma_missing_header_defaults_to_json(s: Seq<char>)
    requires
        mime_essence(s) == Option::Some(("application"@, "json"@)),
    ensures
        negotiated(ContentTypeView::Value(s)) == negotiated(ContentTypeView::Missing),
        negotiated(ContentTypeView::Missing) == Result::<BodyFormat, ParseBodyError>::Ok(
            BodyFormat::Json,
        ),
{
}

/// A well-formed `Content-Type` naming any MIME type other than the two
/// supported ones is refused as unsupported, and that refusal is rendered as
/// status 415, code `unsupported_content_type`, attributed to the
/// `Content-Type` header.
pub proof fn lemma_unsupported_content_type(s: Seq<char>, t: Seq<char>, sub: Seq<char>)
    requires
        mime_essence(s) == Option::Some((t, sub)),
        !(t == "application"@ && sub == "json"@),
        !(t == "application"@ && sub == "x-www-form-urlencoded"@),
    ensures
        negotiated(ContentTypeView::Value(s)) == Result::<BodyFormat, ParseBodyError>::Err(
            ParseBodyError::UnsupportedContentType,
        ),
        envelope_view_of(ParseBodyErrorView::UnsupportedContentType).status == 415,
        envelope_view_of(ParseBodyErrorView::UnsupportedContentType).code
            == "unsupported_content_type"@,
        envelope_view_of(ParseBodyErrorView::UnsupportedContentType).source == Option::Some(
            SourceView::Header("Content-Type"@),
        ),
{
}

/// A `Content-Type` header whose text is not parseable as a MIME type is
/// refused as invalid, and that refusal is rendered as status 400, code
/// `invalid_content_type`, attributed to the `Content-Type` header.
pub proof fn lemma_malformed_content_type(s: Seq<char>)
    requires
        mime_essence(s) is None,
    ensures
        negotiated(ContentTypeView::Value(s)) == Result::<BodyFormat, ParseBodyError>::Err(
            ParseBodyError::InvalidContentType,
        ),
        envelope_view_of(ParseBodyErrorView::InvalidContentType).status == 400,
        envelope_view_of(ParseBodyErrorView::InvalidContentType).code == "invalid_content_type"@,
        envelope_view_of(ParseBodyErrorView::InvalidContentType).source == Option::Some(
            SourceView::Header("Content-Type"@),
        ),
{
}

/// An envelope with no detail and no source is encoded with exactly the
/// three mandatory members; neither optional member appears on the wire,
/// not even as `null`.
pub proof fn lemma_minimal_envelope_encoding(v: EnvelopeView)
    requires
        v.detail is None,
        v.source is None,
    ensures
        encoded_envelope(v) == "{\"status\":\""@ + dec_rep(v.status as nat) + "\",\"code\":"@
            + quoted(v.code) + ",\"title\":"@ + quoted(v.title) + "}"@,
{
    assert(encoded_envelope(v) =~= "{\"status\":\""@ + dec_rep(v.status as nat) + "\",\"code\":"@
        + quoted(v.code) + ",\"title\":"@ + quoted(v.title) + "}"@);
}

/// Round trip: an envelope with no detail and no source encodes to a wire
/// form that reads back as exactly the same envelope — and the reading finds
/// no detail and no source to decode, because neither member is emitted at
/// all. Stated for envelopes whose code and title need no JSON escaping,
/// which holds of every envelope this core produces.
pub proof fn lemma_minimal_envelope_round_trip(v: EnvelopeView)
    requires
        v.detail is None,
        v.source is None,
        crate::envelope::valid_status(v.status),
        crate::text::plain_text(v.code),
        crate::text::plain_text(v.title),
    ensures
        crate::envelope::decoded_minimal(encoded_envelope(v)) == Option::Some(v),
{
    lemma_minimal_envelope_encoding(v);
    crate::text::lemma_json_escaped_plain(v.code);
    crate::text::lemma_json_escaped_plain(v.title);
    crate::text::lemma_dec_rep_three_digits(v.status as nat);
    reveal_strlit("{\"status\":\"");
    reveal_strlit("\",\"code\":");
    reveal_strlit(",\"title\":");
    reveal_strlit(",\"code\":\"");
    reveal_strlit(",\"title\":\"");
    reveal_strlit("\"");
    reveal_strlit("}");
    let s = encoded_envelope(v);
    let p1 = "{\"status\":\""@;
    let p2 = ",\"code\":\""@;
    let p3 = ",\"title\":\""@;
    let digits = dec_rep(v.status as nat);
    let y2 = p3 + v.title + seq!['"'] + "}"@;
    let y1 = p2 + v.code + seq!['"'] + y2;
    assert(quoted(v.code) =~= "\""@ + v.code + "\""@);
    assert(quoted(v.title) =~= "\""@ + v.title + "\""@);
    assert(s.take(p1.len() as int) =~= p1);
    assert(s.skip(p1.len() as int) =~= digits + seq!['"'] + y1);
    assert(forall|i: int| 0 <= i < v.code.len() ==> #[trigger] v.code[i] != '"') by {
        assert(forall|i: int| 0 <= i < v.code.len() ==> crate::text::plain_char(
            #[trigger] v.code[i],
        ));
    }
    assert(forall|i: int| 0 <= i < v.title.len() ==> #[trigger] v.title[i] != '"') by {
        assert(forall|i: int| 0 <= i < v.title.len() ==> crate::text::plain_char(
            #[trigger] v.title[i],
        ));
    }
    crate::envelope::lemma_split_at_quote_concat(digits, y1);
    assert(y1.take(p2.len() as int) =~= p2);
    assert(y1.skip(p2.len() as int) =~= v.code + seq!['"'] + y2);
    crate::envelope::lemma_split_at_quote_concat(v.code, y2);
    assert(y2.take(p3.len() as int) =~= p3);
    assert(y2.skip(p3.len() as int) =~= v.title + seq!['"'] + "}"@);
    crate::envelope::lemma_split_at_quote_concat(v.title, "}"@);
    assert(crate::envelope::decoded_minimal(s) == Option::Some(v));
}

/// Whatever diagnostic a system-fault outcome holds, the caller sees exactly
/// one wire form: status 500 and the fixed `internal_server_error` envelope,
/// which carries no detail and no source. Together with
/// [`crate::pipeline::render_error`]'s contract — which renders every
/// system fault as `rendered_client(internal_error_view())`, independent of
/// the diagnostic — this pins the complete bytes a caller can ever observe
/// of a system fault.
pub proof fn lemma_server_fault_opaque()
    ensures
        rendered_client(internal_error_view()).status == 500,
        rendered_client(internal_error_view()).json,
        internal_error_view().detail is None,
        internal_error_view().source is None,
        rendered_client(internal_error_view()).body == Option::Some(
            "{\"status\":\""@ + "500"@ + "\",\"code\":"@ + quoted("internal_server_error"@)
                + ",\"title\":"@ + quoted("Internal server error"@) + "}"@,
        ),
{
    lemma_minimal_envelope_encoding(internal_error_view());
    assert(dec_rep(500nat) =~= "500"@) by {
        reveal_strlit("500");
        reveal_with_fuel(dec_rep, 4);
        assert(dec_rep(500nat) =~= dec_rep(50nat).push('0'));
        assert(dec_rep(50nat) =~= dec_rep(5nat).push('0'));
        assert(dec_rep(5nat) =~= seq!['5']);
    }
}

} // verus!
