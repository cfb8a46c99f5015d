//! The items a label can be attached to: functions, statics and consts, as
//! the attachment rewriter sees them — a kind, a declared name, and the
//! annotations on the surface declaration.

use vstd::prelude::*;

use crate::path::{Path, PathModel};

verus! {

/// The kinds of item eligible for label attachment.
#[derive(Clone, Copy, PartialEq, Eq, Structural)]
pub enum ItemKind {
    Func,
    Static,
    Const,
}

/// The mathematical value of an [`Item`].
pub struct ItemModel {
    pub kind: ItemKind,
    pub name: Seq<char>,
    pub attrs: Seq<PathModel>,
}

/// The annotation paths `attrs` as mathematical values.
pub open spec fn paths_model(attrs: Seq<Path>) -> Seq<PathModel> {
    attrs.map_values(|p: Path| p@)
}

/// One item carrying annotations: what the rewriter reads of a function,
/// static or const declaration. Each annotation appears as the path it names.
pub struct Item {
    pub kind: ItemKind,
    pub name: String,
    pub attrs: Vec<Path>,
}

impl View for Item {
    type V = ItemModel;

    open spec fn view(&self) -> ItemModel {
        ItemModel { kind: self.kind, name: self.name@, attrs: paths_model(self.attrs@) }
    }
}

impl Item {
    /// The item's declared name: the name it will be registered under.
    pub fn name(&self) -> (r: &String)
        ensures
            r@ == self@.name,
    {
        &self.name
    }

    /// The annotations on the item's surface declaration, in textual order.
    pub fn attrs(&self) -> (r: &Vec<Path>)
        ensures
            paths_model(r@) == self@.attrs,
    {
        &self.attrs
    }

    /// Replaces the annotations on the item's surface declaration, leaving
    /// its kind and name untouched.
    pub fn set_attrs(&mut self, attrs: Vec<Path>)
        ensures
            final(self)@ == (ItemModel { attrs: paths_model(attrs@), ..old(self)@ }),
    {
        self.attrs = attrs;
    }
}

} // verus!
