//! The startup registration phase: every scheduled registration runs once,
//! strictly before the program's entry point, each appending one item to one
//! label's registry.
//!
//! [`LabelSpace`] holds the registries of the labels declared by one program,
//! numbered in declaration order, and [`LabelSpace::run_startup`] plays the
//! phase: afterwards each registry holds exactly its old contents followed by
//! the registrations that targeted it, in the order they ran. The laws the
//! mechanism is used for follow from that shape and are proved here:
//! completeness ([`lemma_registration_complete`]), multiplicity
//! ([`lemma_multiplicity_across_labels`], [`lemma_multiplicity_within_label`])
//! and independence across labels ([`lemma_label_independence`]).

use vstd::prelude::*;

use crate::registry::Registry;
use crate::seq_facts::{lemma_filter_all_out, lemma_filter_keeps_two, lemma_filter_push};

verus! {

/// One scheduled registration: the side effect the rewriter emits for one
/// attachment annotation and hands to the run-before-entry capability. It
/// appends `item` under `item_name` to the registry of label `target`.
pub struct Registration<T> {
    pub target: usize,
    pub item_name: String,
    pub item: T,
}

/// The mathematical value of a [`Registration`].
pub struct RegistrationModel<T> {
    pub target: int,
    pub item_name: Seq<char>,
    pub item: T,
}

impl<T> View for Registration<T> {
    type V = RegistrationModel<T>;

    open spec fn view(&self) -> RegistrationModel<T> {
        RegistrationModel {
            target: self.target as int,
            item_name: self.item_name@,
            item: self.item,
        }
    }
}

/// The registrations of a whole phase, as mathematical values.
pub open spec fn regs_model<T>(regs: Seq<Registration<T>>) -> Seq<RegistrationModel<T>> {
    regs.map_values(|r: Registration<T>| r@)
}

/// The predicate picking the registrations aimed at label `l`.
pub open spec fn targets<T>(l: int) -> spec_fn(RegistrationModel<T>) -> bool {
    |r: RegistrationModel<T>| r.target == l
}

/// The registry entry a registration appends.
pub open spec fn to_entry<T>() -> spec_fn(RegistrationModel<T>) -> (Seq<char>, T) {
    |r: RegistrationModel<T>| (r.item_name, r.item)
}

/// The pairs that the registrations `rs` append to label `l`'s registry, in
/// the order they run.
pub open spec fn for_label<T>(rs: Seq<RegistrationModel<T>>, l: int) -> Seq<(Seq<char>, T)> {
    rs.filter(targets::<T>(l)).map_values(to_entry::<T>())
}

/// The registries of every label one program declares; label `l` is the
/// label declared `l`-th.
pub struct LabelSpace<T> {
    registries: Vec<Registry<T>>,
}

impl<T> View for LabelSpace<T> {
    type V = Seq<Seq<(Seq<char>, T)>>;

    closed spec fn view(&self) -> Seq<Seq<(Seq<char>, T)>> {
        Seq::new(self.registries@.len(), |i: int| self.registries@[i]@)
    }
}

impl<T> LabelSpace<T> {
    /// The state at program image load: one empty registry per declared
    /// label.
    pub fn new(label_count: usize) -> (r: Self)
        ensures
            r@.len() == label_count,
            forall|l: int| 0 <= l < label_count ==> #[trigger] r@[l] == Seq::<(Seq<char>, T)>::empty(),
    {
        let mut registries: Vec<Registry<T>> = Vec::new();
        let mut i: usize = 0;
        while i < label_count
            invariant
                i <= label_count,
                registries@.len() == i,
                forall|l: int|
                    0 <= l < i ==> #[trigger] registries@[l]@ == Seq::<(Seq<char>, T)>::empty(),
            decreases label_count - i,
        {
            registries.push(Registry::new());
            i = i + 1;
        }
        LabelSpace { registries }
    }

    /// How many labels are declared.
    pub fn label_count(&self) -> (n: usize)
        ensures
            n == self@.len(),
    {
        self.registries.len()
    }

    /// Label `l`'s registry, for reading after the startup phase.
    pub fn registry(&self, l: usize) -> (r: &Registry<T>)
        requires
            l < self@.len(),
        ensures
            r@ == self@[l as int],
    {
        &self.registries[l]
    }
}

impl<T: Copy> LabelSpace<T> {
    /// The startup phase: runs every registration in `regs` once, in the
    /// order given (any order the run-before-entry capability picks can be
    /// given). Afterwards each label's registry holds its old entries
    /// followed by exactly the registrations that targeted it.
    pub fn run_startup(&mut self, regs: &Vec<Registration<T>>)
        requires
            forall|i: int|
                0 <= i < regs@.len() ==> (#[trigger] regs@[i]).target < old(self)@.len(),
        ensures
            final(self)@.len() == old(self)@.len(),
            forall|l: int|
                0 <= l < old(self)@.len() ==> #[trigger] final(self)@[l] == old(self)@[l]
                    + for_label(regs_model(regs@), l),
    {
        let ghost init = self@;
        let ghost rs = regs_model(regs@);
        let mut j: usize = 0;
        while j < regs.len()
            invariant
                j <= regs@.len(),
                rs == regs_model(regs@),
                forall|i: int|
                    0 <= i < regs@.len() ==> (#[trigger] regs@[i]).target < init.len(),
                self@.len() == init.len(),
                forall|l: int|
                    0 <= l < init.len() ==> #[trigger] self@[l] == init[l] + for_label(
                        rs.take(j as int),
                        l,
                    ),
            decreases regs@.len() - j,
        {
            let r: &Registration<T> = &regs[j];
            let t: usize = r.target;
            let name: String = r.item_name.clone();
            let item: T = r.item;
            let ghost pre = self@;
            self.registries[t].add(name, item);
            proof {
                assert(rs[j as int] == regs@[j as int]@);
                assert(self@ =~= pre.update(t as int, pre[t as int].push((rs[j as int].item_name,
                    rs[j as int].item))));
                assert forall|l: int| 0 <= l < init.len() implies #[trigger] self@[l] == init[l]
                    + for_label(rs.take(j + 1), l) by {
                    lemma_for_label_step(rs, j as int, l);
                    if l != t as int {
                        assert(self@[l] == pre[l]);
                    }
                }
            }
            j = j + 1;
        }
        proof {
            assert(rs.take(regs@.len() as int) =~= rs);
        }
    }
}

/// Appending one registration extends exactly its target label's share of the
/// phase, by exactly its entry.
proof fn lemma_for_label_step<T>(rs: Seq<RegistrationModel<T>>, j: int, l: int)
    requires
        0 <= j < rs.len(),
    ensures
        for_label(rs.take(j + 1), l) == if rs[j].target == l {
            for_label(rs.take(j), l).push((rs[j].item_name, rs[j].item))
        } else {
            for_label(rs.take(j), l)
        },
{
    let prefix = rs.take(j);
    assert(rs.take(j + 1) =~= prefix.push(rs[j]));
    lemma_filter_push(prefix, targets::<T>(l), rs[j]);
    if rs[j].target == l {
        assert(targets::<T>(l)(rs[j]));
        assert(for_label(rs.take(j + 1), l) =~= for_label(prefix, l).push((rs[j].item_name,
            rs[j].item)));
    } else {
        assert(!targets::<T>(l)(rs[j]));
    }
}

/// Registration completeness: after a startup phase has run the
/// registrations `rs` over the registries `before`, leaving `after`, every
/// registration's `(name, reference)` pair stands in its target label's
/// registry.
pub proof fn lemma_registration_complete<T>(
    before: Seq<Seq<(Seq<char>, T)>>,
    after: Seq<Seq<(Seq<char>, T)>>,
    rs: Seq<RegistrationModel<T>>,
    i: int,
)
    requires
        after.len() == before.len(),
        forall|l: int| 0 <= l < before.len() ==> #[trigger] after[l] == before[l] + for_label(rs, l),
        0 <= i < rs.len(),
        0 <= rs[i].target < before.len(),
    ensures
        after[rs[i].target].contains((rs[i].item_name, rs[i].item)),
{
    let l = rs[i].target;
    assert(targets::<T>(l)(rs[i]));
    rs.lemma_filter_contains(targets::<T>(l), i);
    let f = rs.filter(targets::<T>(l));
    let k = choose|k: int| 0 <= k < f.len() && f[k] == rs[i];
    assert(for_label(rs, l)[k] == (rs[i].item_name, rs[i].item));
    assert(after[l][before[l].len() + k] == (rs[i].item_name, rs[i].item));
}

/// Multiplicity across labels: one item registered under two labels stands
/// in both labels' registries (the labels may also be the same one).
pub proof fn lemma_multiplicity_across_labels<T>(
    before: Seq<Seq<(Seq<char>, T)>>,
    after: Seq<Seq<(Seq<char>, T)>>,
    rs: Seq<RegistrationModel<T>>,
    i: int,
    j: int,
)
    requires
        after.len() == before.len(),
        forall|l: int| 0 <= l < before.len() ==> #[trigger] after[l] == before[l] + for_label(rs, l),
        0 <= i < rs.len(),
        0 <= j < rs.len(),
        0 <= rs[i].target < before.len(),
        0 <= rs[j].target < before.len(),
    ensures
        after[rs[i].target].contains((rs[i].item_name, rs[i].item)),
        after[rs[j].target].contains((rs[j].item_name, rs[j].item)),
{
    lemma_registration_complete(before, after, rs, i);
    lemma_registration_complete(before, after, rs, j);
}

/// Multiplicity within a label: an item registered twice under one label —
/// the same annotation written twice — leaves two entries in that label's
/// registry, in registration order.
pub proof fn lemma_multiplicity_within_label<T>(
    before: Seq<Seq<(Seq<char>, T)>>,
    after: Seq<Seq<(Seq<char>, T)>>,
    rs: Seq<RegistrationModel<T>>,
    i: int,
    j: int,
    l: int,
)
    requires
        after.len() == before.len(),
        forall|m: int| 0 <= m < before.len() ==> #[trigger] after[m] == before[m] + for_label(rs, m),
        0 <= i < j < rs.len(),
        rs[i].target == l,
        rs[j].target == l,
        0 <= l < before.len(),
    ensures
        exists|k1: int, k2: int|
            0 <= k1 < k2 < after[l].len() && #[trigger] after[l][k1] == (rs[i].item_name, rs[i].item)
                && #[trigger] after[l][k2] == (rs[j].item_name, rs[j].item),
{
    assert(targets::<T>(l)(rs[i]));
    assert(targets::<T>(l)(rs[j]));
    lemma_filter_keeps_two(rs, targets::<T>(l), i, j);
    let f = rs.filter(targets::<T>(l));
    let (k1, k2) = choose|k1: int, k2: int|
        0 <= k1 < k2 < f.len() && #[trigger] f[k1] == rs[i] && #[trigger] f[k2] == rs[j];
    let n = before[l].len() as int;
    assert(for_label(rs, l)[k1] == (rs[i].item_name, rs[i].item));
    assert(for_label(rs, l)[k2] == (rs[j].item_name, rs[j].item));
    assert(after[l][n + k1] == (rs[i].item_name, rs[i].item));
    assert(after[l][n + k2] == (rs[j].item_name, rs[j].item));
}

/// Independence across labels: a startup phase none of whose registrations
/// targets label `l` leaves `l`'s registry exactly as it was — populating
/// one label never disturbs another.
pub proof fn lemma_label_independence<T>(
    before: Seq<Seq<(Seq<char>, T)>>,
    after: Seq<Seq<(Seq<char>, T)>>,
    rs: Seq<RegistrationModel<T>>,
    l: int,
)
    requires
        after.len() == before.len(),
        forall|m: int| 0 <= m < before.len() ==> #[trigger] after[m] == before[m] + for_label(rs, m),
        0 <= l < before.len(),
        forall|i: int| 0 <= i < rs.len() ==> (#[trigger] rs[i]).target != l,
    ensures
        after[l] == before[l],
{
    assert forall|i: int| 0 <= i < rs.len() implies !targets::<T>(l)(#[trigger] rs[i]) by {}
    lemma_filter_all_out(rs, targets::<T>(l));
    assert(for_label(rs, l) =~= Seq::<(Seq<char>, T)>::empty());
    assert(after[l] =~= before[l]);
}

} // verus!
