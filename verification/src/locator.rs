//! The decode path: an ordered record of the nesting steps a body decoder
//! took before it failed, and its conversion to a JSON-pointer-like string
//! that locates the offending field.

use vstd::prelude::*;
use crate::envelope::HttpErrorSource;
use crate::text::{dec_rep, push_decimal};
use vstd::string::*;

verus! {

/// One nesting step taken while decoding a body: a sequence index, a map
/// key, an enum variant tag, or a step the decoder could not attribute.
#[derive(Debug)]
pub enum PathSegment {
    Index { index: usize },
    Key { key: String },
    Variant { variant: String },
    Unknown,
}

/// The mathematical view of a path segment.
pub enum PathSegmentView {
    Index(int),
    Key(Seq<char>),
    Variant(Seq<char>),
    Unknown,
}

impl View for PathSegment {
    type V = PathSegmentView;

    open spec fn view(&self) -> PathSegmentView {
        match self {
            PathSegment::Index { index } => PathSegmentView::Index(*index as int),
            PathSegment::Key { key } => PathSegmentView::Key(key@),
            PathSegment::Variant { variant } => PathSegmentView::Variant(variant@),
            PathSegment::Unknown => PathSegmentView::Unknown,
        }
    }
}

impl DeepView for PathSegment {
    type V = PathSegmentView;

    open spec fn deep_view(&self) -> PathSegmentView {
        self.view()
    }
}

/// The ordered sequence of nesting steps, outward-to-inward; empty means the
/// failure is at the document root.
#[derive(Debug)]
pub struct DecodePath {
    pub segments: Vec<PathSegment>,
}

impl View for DecodePath {
    type V = Seq<PathSegmentView>;

    open spec fn view(&self) -> Seq<PathSegmentView> {
        self.segments.deep_view()
    }
}

/// What one segment contributes to the pointer: `/` plus the decimal index,
/// or `/` plus the key or variant tag verbatim (no escaping of `/` or `~`;
/// a known limitation kept for wire compatibility), or nothing at all for an
/// unattributable step.
pub open spec fn segment_text(seg: PathSegmentView) -> Seq<char> {
    match seg {
        PathSegmentView::Index(i) => "/"@ + dec_rep(i as nat),
        PathSegmentView::Key(k) => "/"@ + k,
        PathSegmentView::Variant(v) => "/"@ + v,
        PathSegmentView::Unknown => Seq::empty(),
    }
}

/// The JSON-pointer-like text of a whole decode path: the segments' texts
/// joined in order. Empty text denotes the document root.
pub open spec fn pointer_text(path: Seq<PathSegmentView>) -> Seq<char>
    decreases path.len(),
{
    if path.len() == 0 {
        Seq::empty()
    } else {
        pointer_text(path.drop_last()) + segment_text(path.last())
    }
}

impl DecodePath {
    /// A path with no segments: the document root.
    pub fn root() -> (r: DecodePath)
        ensures
            r@ == Seq::<PathSegmentView>::empty(),
    {
        let r = DecodePath { segments: Vec::new() };
        proof {
            assert(r@ =~= Seq::<PathSegmentView>::empty());
        }
        r
    }

    /// Appends one nesting step, inward.
    pub fn push(&mut self, seg: PathSegment)
        ensures
            final(self)@ == old(self)@.push(seg@),
    {
        let ghost pre = self.segments.deep_view();
        self.segments.push(seg);
        proof {
            assert(self.segments.deep_view() =~= pre.push(seg@));
        }
    }

    /// Whether the path has no segments at all.
    pub fn is_root(&self) -> (r: bool)
        ensures
            r == (self@.len() == 0),
    {
        self.segments.len() == 0
    }
}

impl HttpErrorSource {
    /// Converts a decode path into a `Pointer` locator whose text joins the
    /// known segments with `/` and skips the unknown ones.
    pub fn from_path(path: &DecodePath) -> (r: HttpErrorSource)
        ensures
            r@ matches crate::envelope::SourceView::Pointer(p) && p == pointer_text(path@),
    {
        let mut pointer = String::new();
        let n = path.segments.len();
        let mut i: usize = 0;
        proof {
            assert(pointer_text(path@.take(0)) =~= Seq::<char>::empty());
        }
        while i < n
            invariant
                i <= n,
                n == path.segments.len(),
                path@.len() == n,
                pointer@ == pointer_text(path@.take(i as int)),
            decreases n - i,
        {
            proof {
                assert(path@.take(i + 1).drop_last() =~= path@.take(i as int));
                assert(path@.take(i + 1).last() == path@[i as int]);
                assert(path@[i as int] == path.segments[i as int]@);
            }
            match &path.segments[i] {
                PathSegment::Index { index } => {
                    pointer.append("/");
                    push_decimal(&mut pointer, *index);
                },
                PathSegment::Key { key } => {
                    pointer.append("/");
                    pointer.append(key.as_str());
                },
                PathSegment::Variant { variant } => {
                    pointer.append("/");
                    pointer.append(variant.as_str());
                },
                PathSegment::Unknown => {},
            }
            proof {
                assert(pointer@ =~= pointer_text(path@.take(i + 1)));
            }
            i += 1;
        }
        proof {
            assert(path@.take(n as int) =~= path@);
        }
        HttpErrorSource::Pointer(pointer)
    }
}

} // verus!
