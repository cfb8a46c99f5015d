//! What a written path refers to: resolution of annotation paths against the
//! enclosing modules, and the proof that the rewriter's one-level shift
//! preserves the referent.
//!
//! A module is addressed by its absolute path — one segment per enclosing
//! module, the empty sequence being the crate root. Resolving a written path
//! from a module walks its segments: `crate` returns to the root, `self`
//! stays, `super` steps to the parent (failing at the root), and any other
//! segment steps into the named scope.

use vstd::prelude::*;

use crate::path::{
    add_spelling, crate_spelling, self_spelling, seg_spelled, spec_rewrite_attachment_path,
    super_spelling, Path, PathModel,
};
use crate::rewrite::{attachment_targets, is_attachment_pred, rewrite_path_fn};

verus! {

/// Walks the written segments `segs` starting from the module `cur`.
pub open spec fn resolve_segments(cur: Seq<Seq<char>>, segs: Seq<Seq<char>>) -> Option<
    Seq<Seq<char>>,
>
    decreases segs.len(),
{
    if segs.len() == 0 {
        Some(cur)
    } else {
        let s0 = segs[0];
        let rest = segs.drop_first();
        if s0 == crate_spelling() {
            resolve_segments(Seq::empty(), rest)
        } else if s0 == self_spelling() {
            resolve_segments(cur, rest)
        } else if s0 == super_spelling() {
            if cur.len() == 0 {
                Option::None
            } else {
                resolve_segments(cur.drop_last(), rest)
            }
        } else {
            resolve_segments(cur.push(s0), rest)
        }
    }
}

/// What a path written in the module `site` refers to: the absolute path of
/// the named declaration, whose final segment names the declaration itself —
/// or nothing, where a `super` segment steps past the crate root.
pub open spec fn spec_resolve_from(site: Seq<Seq<char>>, p: PathModel) -> Option<Seq<Seq<char>>> {
    if p.rooted {
        resolve_segments(Seq::empty(), p.segments)
    } else {
        resolve_segments(site, p.segments)
    }
}

/// The mathematical value of a resolution result.
pub open spec fn resolved_model(r: Option<Vec<String>>) -> Option<Seq<Seq<char>>> {
    match r {
        Option::Some(v) => Option::Some(v.deep_view()),
        Option::None => Option::None,
    }
}

/// Resolves `path`, written in the module whose absolute path is `site`, to
/// the absolute path of what it names.
pub fn resolve_from(site: &Vec<String>, path: &Path) -> (r: Option<Vec<String>>)
    ensures
        resolved_model(r) == spec_resolve_from(site.deep_view(), path@),
{
    let mut cur: Vec<String> = Vec::new();
    if !path.rooted {
        let mut i: usize = 0;
        while i < site.len()
            invariant
                i <= site@.len(),
                cur@.len() == i,
                forall|j: int| 0 <= j < i ==> #[trigger] cur@[j] == site@[j],
            decreases site@.len() - i,
        {
            cur.push(site[i].clone());
            i = i + 1;
        }
        proof {
            assert(cur.deep_view() =~= site.deep_view());
        }
    }
    let ghost goal = spec_resolve_from(site.deep_view(), path@);
    let ghost segs = path@.segments;
    proof {
        assert(segs.skip(0) =~= segs);
        if path.rooted {
            assert(cur.deep_view() =~= Seq::<Seq<char>>::empty());
        }
        assert(path.segments@.len() == segs.len());
    }
    let mut i: usize = 0;
    while i < path.segments.len()
        invariant
            i <= segs.len(),
            segs == path@.segments,
            path.segments@.len() == segs.len(),
            goal == spec_resolve_from(site.deep_view(), path@),
            goal == resolve_segments(cur.deep_view(), segs.skip(i as int)),
        decreases segs.len() - i,
    {
        let ghost remaining = segs.skip(i as int);
        proof {
            assert(remaining.len() > 0);
            assert(remaining[0] == segs[i as int]);
            assert(remaining.drop_first() =~= segs.skip(i as int + 1));
        }
        let seg: &String = &path.segments[i];
        proof {
            assert(seg@ == segs[i as int]);
        }
        let ghost pre = cur.deep_view();
        if seg_spelled(seg, "crate") {
            cur = Vec::new();
            proof {
                assert(cur.deep_view() =~= Seq::<Seq<char>>::empty());
                assert(goal == resolve_segments(cur.deep_view(), segs.skip(i as int + 1)));
            }
        } else if seg_spelled(seg, "self") {
            proof {
                assert(goal == resolve_segments(cur.deep_view(), segs.skip(i as int + 1)));
            }
        } else if seg_spelled(seg, "super") {
            proof {
                assert(pre.len() == cur@.len());
            }
            if cur.len() == 0 {
                proof {
                    assert(goal is None);
                }
                return Option::None;
            }
            let _popped: Option<String> = cur.pop();
            proof {
                assert(cur.deep_view() =~= pre.drop_last());
                assert(goal == resolve_segments(cur.deep_view(), segs.skip(i as int + 1)));
            }
        } else {
            cur.push(seg.clone());
            proof {
                assert(cur.deep_view() =~= pre.push(segs[i as int]));
                assert(goal == resolve_segments(cur.deep_view(), segs.skip(i as int + 1)));
            }
        }
        i = i + 1;
    }
    proof {
        assert(segs.skip(segs.len() as int) =~= Seq::<Seq<char>>::empty());
        assert(goal == Option::Some(cur.deep_view()));
    }
    Option::Some(cur)
}

/// Path-resolution correctness for the rewriter's one-level shift: the
/// emitted registry-append path, resolved from inside the synthesized scope
/// (the attachment site extended by one scope segment), names exactly what
/// the written path, with its marker replaced by the append operation, named
/// at the site itself. A rooted path, a `crate`-scoped path, a bare name and
/// a `super`-led path are all preserved.
///
/// A path led by `self` is the one form the rule does not preserve: the
/// rewriter takes it unchanged, so its `self` names the synthesized scope
/// rather than the module the annotation was written in.
pub proof fn lemma_shift_preserves_resolution(
    site: Seq<Seq<char>>,
    scope: Seq<char>,
    p: PathModel,
)
    requires
        p.is_attachment(),
        p.segments[0] != self_spelling(),
    ensures
        spec_resolve_from(site.push(scope), spec_rewrite_attachment_path(p)) == spec_resolve_from(
            site,
            p.with_last(add_spelling()),
        ),
{
    let base = p.with_last(add_spelling());
    proof_strlit_facts();
    if p.rooted {
        // both sides start the walk at the crate root
    } else if p.segments[0] == crate_spelling() {
        // `crate` cannot be the marker, so it survives the marker replacement
        assert(p.segments.len() >= 2);
        assert(base.segments[0] == crate_spelling());
        assert(base.segments.len() > 0);
        // the first step discards the starting module on both sides
        assert(spec_resolve_from(site.push(scope), spec_rewrite_attachment_path(p))
            == resolve_segments(Seq::empty(), base.segments.drop_first()));
        assert(spec_resolve_from(site, base) == resolve_segments(
            Seq::empty(),
            base.segments.drop_first(),
        ));
    } else {
        // the rewritten path leads with one `super`, which consumes exactly
        // the synthesized scope segment
        let shifted = spec_rewrite_attachment_path(p);
        assert(shifted.segments == seq![super_spelling()] + base.segments);
        assert(shifted.segments[0] == super_spelling());
        assert(shifted.segments.drop_first() =~= base.segments);
        assert(site.push(scope).drop_last() =~= site);
        assert(spec_resolve_from(site.push(scope), shifted) == resolve_segments(
            site,
            base.segments,
        ));
    }
}

/// The same correctness carried to the rewriter's whole output: the
/// registry-append path the rewriter emits for an item's `k`-th label
/// attachment, resolved from inside the synthesized scope, names exactly
/// what that attachment — its marker replaced by the append operation —
/// named at the attachment site itself. So attachments written with a rooted
/// path, a `crate`-scoped path, a bare name or a `super`-led path reach one
/// registry whenever they name one declared label.
pub proof fn lemma_rewrite_targets_resolve(
    site: Seq<Seq<char>>,
    scope: Seq<char>,
    attrs: Seq<PathModel>,
    k: int,
)
    requires
        0 <= k < attachment_targets(attrs).len(),
        attrs.filter(is_attachment_pred())[k].segments[0] != self_spelling(),
    ensures
        ({
            let written = attrs.filter(is_attachment_pred())[k];
            spec_resolve_from(site.push(scope), attachment_targets(attrs)[k])
                == spec_resolve_from(site, written.with_last(add_spelling()))
        }),
{
    let f = attrs.filter(is_attachment_pred());
    assert(attachment_targets(attrs).len() == f.len());
    attrs.lemma_filter_pred(is_attachment_pred(), k);
    assert(is_attachment_pred()(f[k]));
    assert(attachment_targets(attrs)[k] == rewrite_path_fn()(f[k]));
    lemma_shift_preserves_resolution(site, scope, f[k]);
}

/// The five fixed spellings are pairwise distinct where the resolution rules
/// compare them.
proof fn proof_strlit_facts()
    ensures
        super_spelling() != crate_spelling(),
        super_spelling() != self_spelling(),
        crate_spelling() != crate::path::marker_spelling(),
        self_spelling() != crate::path::marker_spelling(),
        super_spelling() != crate::path::marker_spelling(),
{
    reveal_strlit("super");
    reveal_strlit("crate");
    reveal_strlit("self");
    reveal_strlit("label");
    assert(super_spelling()[0] == 's' && crate_spelling()[0] == 'c');
    assert(super_spelling().len() == 5 && self_spelling().len() == 4);
    assert(crate_spelling()[0] == 'c' && crate::path::marker_spelling()[0] == 'l');
    assert(self_spelling().len() == 4 && crate::path::marker_spelling().len() == 5);
    assert(super_spelling()[0] == 's' && crate::path::marker_spelling()[0] == 'l');
}

} // verus!
