//! The per-label registry: the collection behind a declared label's
//! namespace.
//!
//! A registry is created empty, appended to once per registration during the
//! startup phase, and read through `iter` and `iter_named` afterwards. The
//! iteration order is whatever order the registrations appended in — it is
//! not specified in advance, but it is fixed: with no intervening append, two
//! reads yield the same sequence ([`lemma_iter_stable`]).

use vstd::prelude::*;

verus! {

/// The references a registry's entries hold, stripped of their names.
pub open spec fn items_of<T>(entries: Seq<(Seq<char>, T)>) -> Seq<T> {
    entries.map_values(|p: (Seq<char>, T)| p.1)
}

/// One label's registry: the `(item name, item reference)` pairs of every
/// item attached to the label, in the order their registrations ran.
///
/// `T` is the label's signature — a function-pointer type for a
/// function-signature label, a reference type for a value label. An item of
/// any other type cannot be appended, so a mismatched attachment is refused
/// where it is written.
pub struct Registry<T> {
    entries: Vec<(String, T)>,
}

impl<T> View for Registry<T> {
    type V = Seq<(Seq<char>, T)>;

    closed spec fn view(&self) -> Seq<(Seq<char>, T)> {
        Seq::new(self.entries@.len(), |i: int| (self.entries@[i].0@, self.entries@[i].1))
    }
}

impl<T> Registry<T> {
    /// The empty registry every label starts with at program image load.
    pub fn new() -> (r: Self)
        ensures
            r@ == Seq::<(Seq<char>, T)>::empty(),
    {
        let r = Registry { entries: Vec::new() };
        proof {
            assert(r@ =~= Seq::<(Seq<char>, T)>::empty());
        }
        r
    }

    /// The registry-append operation, reachable only through an emitted
    /// registration: appends one `(name, item)` pair, keeping every earlier
    /// entry in place. Appending the same pair twice leaves two entries.
    pub fn add(&mut self, name: String, item: T)
        ensures
            final(self)@ == old(self)@.push((name@, item)),
    {
        let ghost before = self@;
        self.entries.push((name, item));
        proof {
            assert(self@ =~= before.push((name@, item)));
        }
    }

    /// How many items are attached to the label.
    pub fn len(&self) -> (n: usize)
        ensures
            n == self@.len(),
    {
        self.entries.len()
    }
}

impl<T: Copy> Registry<T> {
    /// A restartable pass over the attached items: exactly the registry's
    /// item references, in the registry's fixed order.
    pub fn iter(&self) -> (r: Vec<T>)
        ensures
            r@ == items_of(self@),
    {
        let mut r: Vec<T> = Vec::new();
        let mut i: usize = 0;
        while i < self.entries.len()
            invariant
                i <= self.entries@.len(),
                r@ =~= items_of(self@).take(i as int),
            decreases self.entries@.len() - i,
        {
            r.push(self.entries[i].1);
            i = i + 1;
        }
        proof {
            assert(r@ =~= items_of(self@));
        }
        r
    }

    /// A restartable pass over the attached items and their names: the
    /// registry's pairs, in the same order `iter` exposes.
    pub fn iter_named(&self) -> (r: Vec<(String, T)>)
        ensures
            r@.len() == self@.len(),
            forall|i: int|
                0 <= i < r@.len() ==> (#[trigger] r@[i]).0@ == self@[i].0 && r@[i].1 == self@[i].1,
    {
        let mut r: Vec<(String, T)> = Vec::new();
        let mut i: usize = 0;
        while i < self.entries.len()
            invariant
                i <= self.entries@.len(),
                r@.len() == i,
                forall|j: int|
                    0 <= j < i ==> (#[trigger] r@[j]).0@ == self@[j].0 && r@[j].1 == self@[j].1,
            decreases self.entries@.len() - i,
        {
            let name: String = self.entries[i].0.clone();
            r.push((name, self.entries[i].1));
            i = i + 1;
        }
        r
    }
}

/// Completeness carried to the named query's output: every pair a registry
/// holds is yielded by `iter_named`, the declared name and the reference
/// both.
pub proof fn lemma_iter_named_complete<T>(
    entries: Seq<(Seq<char>, T)>,
    named: Seq<(String, T)>,
    pair: (Seq<char>, T),
)
    requires
        named.len() == entries.len(),
        forall|i: int|
            0 <= i < named.len() ==> (#[trigger] named[i]).0@ == entries[i].0 && named[i].1
                == entries[i].1,
        entries.contains(pair),
    ensures
        exists|k: int|
            0 <= k < named.len() && (#[trigger] named[k]).0@ == pair.0 && named[k].1 == pair.1,
{
    let k = choose|k: int| 0 <= k < entries.len() && entries[k] == pair;
    assert(named[k].0@ == pair.0 && named[k].1 == pair.1);
}

/// Order stability: iteration exposes a function of the registry's contents
/// alone, so two passes over one registry, with no intervening registration,
/// see the same references in the same order.
pub proof fn lemma_iter_stable<T>(entries: Seq<(Seq<char>, T)>, r1: Seq<T>, r2: Seq<T>)
    requires
        r1 == items_of(entries),
        r2 == items_of(entries),
    ensures
        r1 == r2,
{
}

} // verus!
