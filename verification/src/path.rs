//! Module paths as they appear in label-attachment annotations, and the
//! rewrite the attachment rewriter applies to them.
//!
//! An annotation names its target label with a path whose final segment is a
//! fixed marker (`label`). Before the registration call is emitted, that
//! marker is replaced by the name of the registry-append operation (`add`),
//! and — because the emitted call runs one synthesized scope further in than
//! the annotation was written — a path that is not explicitly scoped gains one
//! leading `super` segment.

use vstd::prelude::*;

verus! {

/// Spelling of the attachment marker: the final segment of every
/// label-attachment annotation, as in `#[my_label::label]`.
pub open spec fn marker_spelling() -> Seq<char> {
    "label"@
}

/// Spelling of the registry-append operation that replaces the marker before
/// a registration call is emitted.
pub open spec fn add_spelling() -> Seq<char> {
    "add"@
}

/// Spelling of the segment that addresses the crate root.
pub open spec fn crate_spelling() -> Seq<char> {
    "crate"@
}

/// Spelling of the segment that addresses the module the path is written in.
pub open spec fn self_spelling() -> Seq<char> {
    "self"@
}

/// Spelling of the segment that addresses the parent module.
pub open spec fn super_spelling() -> Seq<char> {
    "super"@
}

/// The mathematical value of a [`Path`]: whether it is rooted, and its
/// segments as character sequences.
pub struct PathModel {
    pub rooted: bool,
    pub segments: Seq<Seq<char>>,
}

impl PathModel {
    /// A path names an attachment exactly when its final segment is the
    /// marker.
    pub open spec fn is_attachment(self) -> bool {
        self.segments.len() > 0 && self.segments.last() == marker_spelling()
    }

    /// Explicitly scoped: rooted, or led by a `crate` or `self` segment. Such
    /// a path is used unchanged as the route to the label's namespace; every
    /// other path is shifted by one scope level.
    pub open spec fn is_scoped(self) -> bool {
        ||| self.rooted
        ||| (self.segments.len() > 0 && (self.segments[0] == crate_spelling()
            || self.segments[0] == self_spelling()))
    }

    /// The same path with its final segment replaced by `seg`.
    pub open spec fn with_last(self, seg: Seq<char>) -> PathModel {
        PathModel {
            rooted: self.rooted,
            segments: self.segments.update(self.segments.len() - 1, seg),
        }
    }
}

/// A module path as written in an annotation or emitted by the rewriter: an
/// optional leading `::`, then the written segments. `crate`, `self` and
/// `super` appear as ordinary segments, as they do in source text.
pub struct Path {
    pub rooted: bool,
    pub segments: Vec<String>,
}

impl View for Path {
    type V = PathModel;

    open spec fn view(&self) -> PathModel {
        PathModel { rooted: self.rooted, segments: self.segments.deep_view() }
    }
}

/// True when `seg` is spelled like `word`.
pub(crate) fn seg_spelled(seg: &String, word: &str) -> (r: bool)
    ensures
        r == (seg@ == word@),
{
    let w: String = String::from_str(word);
    *seg == w
}

impl Path {
    /// Whether this path is a label attachment: the test the rewriter applies
    /// to every annotation found on an item.
    pub fn is_attachment(&self) -> (r: bool)
        ensures
            r == self@.is_attachment(),
    {
        if self.segments.len() == 0 {
            false
        } else {
            let last: &String = &self.segments[self.segments.len() - 1];
            seg_spelled(last, "label")
        }
    }

    /// Whether this path is explicitly scoped (rooted, or led by `crate` or
    /// `self`), and therefore used unchanged by the rewriter.
    pub fn is_scoped(&self) -> (r: bool)
        ensures
            r == self@.is_scoped(),
    {
        if self.rooted {
            true
        } else if self.segments.len() == 0 {
            false
        } else {
            let first: &String = &self.segments[0];
            seg_spelled(first, "crate") || seg_spelled(first, "self")
        }
    }
}

/// Replaces the attachment marker at the end of `path` with the name of the
/// registry-append operation, leaving everything else as written.
pub fn simplify_path(path: Path) -> (r: Path)
    requires
        path@.is_attachment(),
    ensures
        r@ == path@.with_last(add_spelling()),
{
    let mut path = path;
    let ghost orig = path@;
    let n: usize = path.segments.len();
    path.segments[n - 1] = String::from_str("add");
    proof {
        assert(path@.segments =~= orig.with_last(add_spelling()).segments);
    }
    path
}

/// The path an attachment annotation turns into before the registration call
/// is emitted: an explicitly scoped path keeps its route, every other path
/// gains one leading `super` segment (the call runs one synthesized scope
/// further in than the annotation was written), and in either case the marker
/// becomes the name of the registry-append operation.
pub open spec fn spec_rewrite_attachment_path(p: PathModel) -> PathModel {
    let base = p.with_last(add_spelling());
    if p.is_scoped() {
        base
    } else {
        PathModel { rooted: false, segments: seq![super_spelling()] + base.segments }
    }
}

/// Rewrites one attachment annotation's path into the path of the
/// registry-append call the rewriter emits for it.
pub fn rewrite_attachment_path(path: Path) -> (r: Path)
    requires
        path@.is_attachment(),
    ensures
        r@ == spec_rewrite_attachment_path(path@),
{
    let scoped = path.is_scoped();
    let ghost orig = path@;
    let mut base = simplify_path(path);
    if !scoped {
        base.segments.insert(0, String::from_str("super"));
        proof {
            assert(base@.segments =~= seq![super_spelling()]
                + orig.with_last(add_spelling()).segments);
        }
    }
    base
}

} // verus!
