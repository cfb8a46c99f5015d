//! The attachment rewriter: one linear pass over an annotated item.
//!
//! The pass classifies the item's kind, partitions its annotations into label
//! attachments and everything else, strips the attachments from the surface
//! declaration while keeping the other annotations untouched, and emits one
//! registration per attachment — the annotation that invoked the rewriter
//! first, then the further attachments in textual order — every one resolved
//! independently by the path rule of [`crate::path`]. All the emitted calls
//! share one synthesized inner scope per item, which is why that rule shifts
//! relative paths by exactly one level.

use vstd::prelude::*;

use crate::item::{paths_model, Item, ItemKind};
use crate::path::{rewrite_attachment_path, spec_rewrite_attachment_path, Path, PathModel};
use crate::seq_facts::lemma_filter_push;

verus! {

/// The predicate picking the annotations that are label attachments.
pub open spec fn is_attachment_pred() -> spec_fn(PathModel) -> bool {
    |p: PathModel| p.is_attachment()
}

/// The predicate picking the annotations that are left on the item.
pub open spec fn not_attachment_pred() -> spec_fn(PathModel) -> bool {
    |p: PathModel| !p.is_attachment()
}

/// The rewrite applied to each attachment's path.
pub open spec fn rewrite_path_fn() -> spec_fn(PathModel) -> PathModel {
    |p: PathModel| spec_rewrite_attachment_path(p)
}

/// The annotations the rewriter leaves on the item: exactly the ones that
/// are not label attachments, in their textual order.
pub open spec fn kept_attrs(attrs: Seq<PathModel>) -> Seq<PathModel> {
    attrs.filter(not_attachment_pred())
}

/// The registry-append paths of the label attachments among `attrs`, each
/// rewritten independently, in textual order.
pub open spec fn attachment_targets(attrs: Seq<PathModel>) -> Seq<PathModel> {
    attrs.filter(is_attachment_pred()).map_values(rewrite_path_fn())
}

/// What rewriting one attached item produces.
pub struct Rewrite {
    /// The item, with every label attachment stripped from its surface
    /// declaration and every other annotation kept in place.
    pub item: Item,
    /// The resolved registry-append path of each attachment: the invoking
    /// annotation's first, then the item's remaining attachments in textual
    /// order.
    pub registrations: Vec<Path>,
    /// The name the registrations register the item under.
    pub item_name: String,
    /// Whether the registrations pass a reference to the item rather than
    /// the item itself: value items (statics and consts) register by
    /// reference, functions by value.
    pub by_reference: bool,
}

/// Rewrites one annotated item. `invoking` is the attachment annotation
/// whose expansion runs the rewriter — recovered from the source text around
/// the attachment site, and no longer among the item's own annotations.
pub fn rewrite_item(item: Item, invoking: Path) -> (r: Rewrite)
    requires
        invoking@.is_attachment(),
    ensures
        r.item@.kind == item@.kind,
        r.item@.name == item@.name,
        r.item@.attrs == kept_attrs(item@.attrs),
        paths_model(r.registrations@) == seq![spec_rewrite_attachment_path(invoking@)]
            + attachment_targets(item@.attrs),
        r.item_name@ == item@.name,
        r.by_reference == (item@.kind != ItemKind::Func),
{
    let Item { kind, name, attrs } = item;
    let ghost orig = paths_model(attrs@);
    let ghost mut done = Seq::<PathModel>::empty();
    let mut rest = attrs;
    let mut kept: Vec<Path> = Vec::new();
    let mut regs: Vec<Path> = Vec::new();
    regs.push(rewrite_attachment_path(invoking));
    proof {
        assert(done + paths_model(rest@) =~= orig);
        assert(kept_attrs(done) =~= Seq::<PathModel>::empty());
        assert(attachment_targets(done) =~= Seq::<PathModel>::empty());
        assert(paths_model(kept@) =~= kept_attrs(done));
        assert(paths_model(regs@) =~= seq![spec_rewrite_attachment_path(invoking@)]
            + attachment_targets(done));
    }
    while rest.len() > 0
        invariant
            invoking@.is_attachment(),
            orig == done + paths_model(rest@),
            paths_model(kept@) == kept_attrs(done),
            paths_model(regs@) == seq![spec_rewrite_attachment_path(invoking@)]
                + attachment_targets(done),
        decreases rest@.len(),
    {
        let ghost prev_rest = rest@;
        let p = rest.remove(0);
        proof {
            assert(paths_model(prev_rest) =~= seq![p@] + paths_model(rest@));
            assert(done + paths_model(prev_rest) =~= done.push(p@) + paths_model(rest@));
            lemma_filter_push(done, not_attachment_pred(), p@);
            lemma_filter_push(done, is_attachment_pred(), p@);
        }
        let attached = p.is_attachment();
        if attached {
            let ghost pre_regs = paths_model(regs@);
            let q = rewrite_attachment_path(p);
            let ghost qv = q@;
            regs.push(q);
            proof {
                assert(paths_model(regs@) =~= pre_regs.push(qv));
                assert(attachment_targets(done.push(p@)) =~= attachment_targets(done).push(
                    spec_rewrite_attachment_path(p@)));
                assert(paths_model(regs@) =~= seq![spec_rewrite_attachment_path(invoking@)]
                    + attachment_targets(done.push(p@)));
            }
        } else {
            let ghost pre_kept = paths_model(kept@);
            let ghost pv = p@;
            kept.push(p);
            proof {
                assert(paths_model(kept@) =~= pre_kept.push(pv));
                assert(paths_model(kept@) =~= kept_attrs(done.push(pv)));
                assert(attachment_targets(done.push(pv)) =~= attachment_targets(done));
            }
        }
        proof {
            done = done.push(p@);
        }
    }
    proof {
        assert(paths_model(rest@) =~= Seq::<PathModel>::empty());
        assert(done =~= orig);
    }
    let item_name: String = name.clone();
    let by_reference: bool = !matches!(kind, ItemKind::Func);
    let stripped = Item { kind, name, attrs: kept };
    Rewrite { item: stripped, registrations: regs, item_name, by_reference }
}

} // verus!
