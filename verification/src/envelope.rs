//! The error envelope: the wire-level representation of a single error
//! (status, machine code, human title, optional detail, optional source
//! locator) and its serialization rules.

use vstd::prelude::*;
use crate::text::{dec_rep, json_escaped, push_decimal, push_json_escaped};

verus! {

/// A source locator: which part of the request an error is attributable to —
/// a field inside the decoded body (JSON-pointer syntax), a query/form
/// parameter, or an HTTP header.
#[derive(Debug)]
pub enum HttpErrorSource {
    Pointer(String),
    Parameter(String),
    Header(String),
}

/// The mathematical view of a source locator.
pub enum SourceView {
    Pointer(Seq<char>),
    Parameter(Seq<char>),
    Header(Seq<char>),
}

impl View for HttpErrorSource {
    type V = SourceView;

    open spec fn view(&self) -> SourceView {
        match self {
            HttpErrorSource::Pointer(p) => SourceView::Pointer(p@),
            HttpErrorSource::Parameter(p) => SourceView::Parameter(p@),
            HttpErrorSource::Header(h) => SourceView::Header(h@),
        }
    }
}

/// A status code that can stand in an error envelope: a three-digit HTTP
/// status.
pub open spec fn valid_status(status: u16) -> bool {
    100 <= status <= 999
}

/// The wire-level representation of one error. Constructed once per failure,
/// refined with the builder methods, serialized exactly once with
/// [`HttpErrorResponse::to_json`], then discarded.
///
/// `code` is a stable machine-readable identifier; `detail` carries free-form
/// diagnostic text and is never omitted for decode failures; `source`, when
/// present, locates the offending part of the request.
#[derive(Debug)]
pub struct HttpErrorResponse {
    pub status: u16,
    pub code: String,
    pub title: String,
    pub detail: Option<String>,
    pub source: Option<HttpErrorSource>,
}

/// The mathematical view of an error envelope.
pub struct EnvelopeView {
    pub status: u16,
    pub code: Seq<char>,
    pub title: Seq<char>,
    pub detail: Option<Seq<char>>,
    pub source: Option<SourceView>,
}

impl View for HttpErrorResponse {
    type V = EnvelopeView;

    open spec fn view(&self) -> EnvelopeView {
        EnvelopeView {
            status: self.status,
            code: self.code@,
            title: self.title@,
            detail: match self.detail {
                Option::None => Option::None,
                Option::Some(ref d) => Option::Some(d@),
            },
            source: match self.source {
                Option::None => Option::None,
                Option::Some(ref s) => Option::Some(s@),
            },
        }
    }
}

impl EnvelopeView {
    /// A well-formed envelope carries a three-digit status.
    pub open spec fn wf(&self) -> bool {
        valid_status(self.status)
    }
}

impl HttpErrorResponse {
    /// A minimal envelope: status, machine code and human title, with no
    /// detail and no source.
    pub fn new(status: u16, code: &str, title: &str) -> (r: HttpErrorResponse)
        requires
            valid_status(status),
        ensures
            r@ == (EnvelopeView {
                status,
                code: code@,
                title: title@,
                detail: Option::None,
                source: Option::None,
            }),
    {
        HttpErrorResponse {
            status,
            code: code.to_owned(),
            title: title.to_owned(),
            detail: None,
            source: None,
        }
    }

    /// Non-destructive refinement: the same envelope with `detail` set.
    pub fn with_detail(self, detail: &str) -> (r: HttpErrorResponse)
        ensures
            r@ == (EnvelopeView { detail: Option::Some(detail@), ..self@ }),
    {
        HttpErrorResponse { detail: Some(detail.to_owned()), ..self }
    }

    /// Non-destructive refinement: the same envelope with `source` set.
    pub fn with_source(self, source: HttpErrorSource) -> (r: HttpErrorResponse)
        ensures
            r@ == (EnvelopeView { source: Option::Some(source@), ..self@ }),
    {
        HttpErrorResponse { source: Some(source), ..self }
    }

    /// The envelope, boxed; how client-fault errors are carried by
    /// [`crate::pipeline::HttpError`].
    pub fn boxed(self) -> (r: Box<HttpErrorResponse>)
        ensures
            r@ == self@,
    {
        Box::new(self)
    }
}

/// The canonical string form of a status code, e.g. `"404"`.
pub fn status_code_as_string(status: u16) -> (r: String)
    ensures
        r@ == dec_rep(status as nat),
{
    crate::text::usize_to_string(status as usize)
}

/// A JSON string literal: the escaped text between double quotes.
pub open spec fn quoted(s: Seq<char>) -> Seq<char> {
    "\""@ + json_escaped(s) + "\""@
}

/// The wire form of a `source` member value.
pub open spec fn encoded_source(v: SourceView) -> Seq<char> {
    match v {
        SourceView::Pointer(p) => "{\"pointer\":"@ + quoted(p) + "}"@,
        SourceView::Parameter(p) => "{\"parameter\":"@ + quoted(p) + "}"@,
        SourceView::Header(h) => "{\"header\":"@ + quoted(h) + "}"@,
    }
}

/// The exact wire form of an envelope: status as its canonical string,
/// then code and title; `detail` and `source` are omitted entirely when
/// absent, never emitted as `null`.
pub open spec fn encoded_envelope(v: EnvelopeView) -> Seq<char> {
    "{\"status\":\""@ + dec_rep(v.status as nat) + "\",\"code\":"@ + quoted(v.code)
        + ",\"title\":"@ + quoted(v.title) + (match v.detail {
        Option::None => Seq::<char>::empty(),
        Option::Some(d) => ",\"detail\":"@ + quoted(d),
    }) + (match v.source {
        Option::None => Seq::<char>::empty(),
        Option::Some(s) => ",\"source\":"@ + encoded_source(s),
    }) + "}"@
}

/// Splits character text at its first double quote: the text before the
/// quote and the text after it, or nothing when no quote occurs.
pub open spec fn split_at_quote(s: Seq<char>) -> Option<(Seq<char>, Seq<char>)>
    decreases s.len(),
{
    if s.len() == 0 {
        Option::None
    } else if s[0] == '"' {
        Option::Some((Seq::empty(), s.drop_first()))
    } else {
        match split_at_quote(s.drop_first()) {
            Option::None => Option::None,
            Option::Some(p) => Option::Some((seq![s[0]] + p.0, p.1)),
        }
    }
}

/// Splitting quote-free text followed by a quote recovers both halves.
pub proof fn lemma_split_at_quote_concat(x: Seq<char>, y: Seq<char>)
    requires
        forall|i: int| 0 <= i < x.len() ==> #[trigger] x[i] != '"',
    ensures
        split_at_quote(x + seq!['"'] + y) == Option::Some((x, y)),
    decreases x.len(),
{
    let s = x + seq!['"'] + y;
    if x.len() == 0 {
        assert(s[0] == '"');
        assert(s.drop_first() =~= y);
        assert(split_at_quote(s).unwrap().0 =~= x);
    } else {
        assert(s[0] == x[0]);
        assert(x[0] != '"');
        assert(s.drop_first() =~= x.drop_first() + seq!['"'] + y);
        lemma_split_at_quote_concat(x.drop_first(), y);
        assert(seq![s[0]] + x.drop_first() =~= x);
    }
}

/// The spec-level reading-back of a minimal envelope wire form: exactly the
/// three mandatory members, in order, with a three-digit status. The decoded
/// envelope never holds a detail or a source — those members are simply not
/// part of the minimal form.
pub open spec fn decoded_minimal(s: Seq<char>) -> Option<EnvelopeView> {
    let p1 = "{\"status\":\""@;
    let p2 = ",\"code\":\""@;
    let p3 = ",\"title\":\""@;
    if s.len() < p1.len() || s.take(p1.len() as int) != p1 {
        Option::None
    } else {
        match split_at_quote(s.skip(p1.len() as int)) {
            Option::None => Option::None,
            Option::Some(st) => if !(st.0.len() == 3 && crate::text::all_digits(st.0)) {
                Option::None
            } else if st.1.len() < p2.len() || st.1.take(p2.len() as int) != p2 {
                Option::None
            } else {
                match split_at_quote(st.1.skip(p2.len() as int)) {
                    Option::None => Option::None,
                    Option::Some(cd) => if cd.1.len() < p3.len() || cd.1.take(p3.len() as int)
                        != p3 {
                        Option::None
                    } else {
                        match split_at_quote(cd.1.skip(p3.len() as int)) {
                            Option::None => Option::None,
                            Option::Some(tl) => {
                                let status = 100 * crate::text::digit_val(st.0[0]) + 10
                                    * crate::text::digit_val(st.0[1]) + crate::text::digit_val(
                                    st.0[2],
                                );
                                if tl.1 == "}"@ && 100 <= status <= 999 {
                                    Option::Some(
                                        EnvelopeView {
                                            status: status as u16,
                                            code: cd.0,
                                            title: tl.0,
                                            detail: Option::None,
                                            source: Option::None,
                                        },
                                    )
                                } else {
                                    Option::None
                                }
                            },
                        }
                    },
                }
            },
        }
    }
}

/// Appends `quoted(s@)` to `out`.
fn push_quoted(out: &mut String, s: &str)
    ensures
        final(out)@ == old(out)@ + quoted(s@),
{
    out.append("\"");
    push_json_escaped(out, s);
    out.append("\"");
    proof {
        assert(final(out)@ =~= old(out)@ + quoted(s@));
    }
}

impl HttpErrorResponse {
    /// Serializes the envelope to its exact JSON wire form.
    pub fn to_json(&self) -> (r: String)
        ensures
            r@ == encoded_envelope(self@),
    {
        let mut out = String::new();
        out.append("{\"status\":\"");
        push_decimal(&mut out, self.status as usize);
        out.append("\",\"code\":");
        push_quoted(&mut out, self.code.as_str());
        out.append(",\"title\":");
        push_quoted(&mut out, self.title.as_str());
        proof {
            assert(out@ =~= "{\"status\":\""@ + dec_rep(self@.status as nat) + "\",\"code\":"@
                + quoted(self@.code) + ",\"title\":"@ + quoted(self@.title));
        }
        let ghost head = out@;
        match &self.detail {
            None => {},
            Some(d) => {
                out.append(",\"detail\":");
                push_quoted(&mut out, d.as_str());
            },
        }
        proof {
            assert(out@ =~= head + (match self@.detail {
                Option::None => Seq::<char>::empty(),
                Option::Some(dd) => ",\"detail\":"@ + quoted(dd),
            }));
        }
        let ghost mid = out@;
        match &self.source {
            None => {},
            Some(HttpErrorSource::Pointer(p)) => {
                out.append(",\"source\":");
                out.append("{\"pointer\":");
                push_quoted(&mut out, p.as_str());
                out.append("}");
            },
            Some(HttpErrorSource::Parameter(p)) => {
                out.append(",\"source\":");
                out.append("{\"parameter\":");
                push_quoted(&mut out, p.as_str());
                out.append("}");
            },
            Some(HttpErrorSource::Header(h)) => {
                out.append(",\"source\":");
                out.append("{\"header\":");
                push_quoted(&mut out, h.as_str());
                out.append("}");
            },
        }
        proof {
            assert(out@ =~= mid + (match self@.source {
                Option::None => Seq::<char>::empty(),
                Option::Some(s) => ",\"source\":"@ + encoded_source(s),
            }));
        }
        out.append("}");
        proof {
            assert(out@ =~= encoded_envelope(self@));
        }
        out
    }
}

} // verus!
