//! Label declarations, and what declaring them generates.
//!
//! A declaration gives a label's name and its signature: a function signature
//! (parameter types and return type, with at most lifetime generics) or a
//! value type for a static or const label. Declaring it produces a namespace:
//! the label's name bound to a fresh registry — a [`crate::registry::Registry`]
//! whose element type the signature fixes — together with its query
//! operations. [`create_label`] maps a whole declaration list, one namespace
//! per declaration, in order.

use vstd::prelude::*;

verus! {

/// The generic parameters written on a function-kind declaration.
#[derive(Debug)]
pub struct Generics {
    pub lifetimes: Vec<String>,
    pub type_params: Vec<String>,
    pub const_params: Vec<String>,
}

/// The mathematical value of a [`Generics`].
pub struct GenericsModel {
    pub lifetimes: Seq<Seq<char>>,
    pub type_params: Seq<Seq<char>>,
    pub const_params: Seq<Seq<char>>,
}

impl View for Generics {
    type V = GenericsModel;

    open spec fn view(&self) -> GenericsModel {
        GenericsModel {
            lifetimes: self.lifetimes.deep_view(),
            type_params: self.type_params.deep_view(),
            const_params: self.const_params.deep_view(),
        }
    }
}

impl GenericsModel {
    /// Lifetimes are the one generic form a label signature may carry: the
    /// registry needs one concrete, value-independent element type per label.
    pub open spec fn lifetimes_only(self) -> bool {
        self.type_params.len() == 0 && self.const_params.len() == 0
    }
}

/// One declaration inside a label-creation invocation.
#[derive(Debug)]
pub enum Definition {
    /// `fn name<generics>(params) -> ret`, the return type absent where none
    /// was written.
    Function { name: String, generics: Generics, params: Vec<String>, ret: Option<String> },
    /// `static name: ty` or `const name: ty` — the two forms declare the
    /// same kind of label and are handled alike (a `mut` on the static
    /// changes nothing).
    Static { name: String, var_type: String },
}

/// The mathematical value of a [`Definition`].
pub enum DefinitionModel {
    Function {
        name: Seq<char>,
        generics: GenericsModel,
        params: Seq<Seq<char>>,
        ret: Option<Seq<char>>,
    },
    Static { name: Seq<char>, var_type: Seq<char> },
}

impl View for Definition {
    type V = DefinitionModel;

    open spec fn view(&self) -> DefinitionModel {
        match self {
            Definition::Function { name, generics, params, ret } => DefinitionModel::Function {
                name: name@,
                generics: generics@,
                params: params.deep_view(),
                ret: ret.deep_view(),
            },
            Definition::Static { name, var_type } => DefinitionModel::Static {
                name: name@,
                var_type: var_type@,
            },
        }
    }
}

impl DeepView for Definition {
    type V = DefinitionModel;

    open spec fn deep_view(&self) -> DefinitionModel {
        self.view()
    }
}

/// Whether a declaration's signature is admissible: type-generic and
/// const-generic parameters are rejected when the declaration is read.
pub open spec fn valid_signature(d: DefinitionModel) -> bool {
    match d {
        DefinitionModel::Function { generics, .. } => generics.lifetimes_only(),
        DefinitionModel::Static { .. } => true,
    }
}

/// The element type of a declared label's registry, as the declaration fixes
/// it.
pub enum LabelSignature {
    /// A function-pointer type `for<'lifetimes> fn(params) -> ret`: a
    /// function label's registry hands out callable references.
    Function { lifetimes: Vec<String>, params: Vec<String>, ret: Option<String> },
    /// A reference type `&'static var_type`: a value label's registry hands
    /// out references to the attached statics and consts.
    Value { var_type: String },
}

/// The mathematical value of a [`LabelSignature`].
pub enum LabelSignatureModel {
    Function { lifetimes: Seq<Seq<char>>, params: Seq<Seq<char>>, ret: Option<Seq<char>> },
    Value { var_type: Seq<char> },
}

impl View for LabelSignature {
    type V = LabelSignatureModel;

    open spec fn view(&self) -> LabelSignatureModel {
        match self {
            LabelSignature::Function { lifetimes, params, ret } => LabelSignatureModel::Function {
                lifetimes: lifetimes.deep_view(),
                params: params.deep_view(),
                ret: ret.deep_view(),
            },
            LabelSignature::Value { var_type } => LabelSignatureModel::Value {
                var_type: var_type@,
            },
        }
    }
}

/// The namespace one declaration generates: the label's name, bound to a
/// registry of elements of the signature's type, its append operation and
/// its `iter` and `iter_named` queries.
pub struct LabelDecl {
    pub name: String,
    pub signature: LabelSignature,
}

/// The mathematical value of a [`LabelDecl`].
pub struct LabelDeclModel {
    pub name: Seq<char>,
    pub signature: LabelSignatureModel,
}

impl View for LabelDecl {
    type V = LabelDeclModel;

    open spec fn view(&self) -> LabelDeclModel {
        LabelDeclModel { name: self.name@, signature: self.signature@ }
    }
}

/// The namespace a single declaration generates.
pub open spec fn spec_namespace_of(d: DefinitionModel) -> LabelDeclModel {
    match d {
        DefinitionModel::Function { name, generics, params, ret } => LabelDeclModel {
            name,
            signature: LabelSignatureModel::Function { lifetimes: generics.lifetimes, params, ret },
        },
        DefinitionModel::Static { name, var_type } => LabelDeclModel {
            name,
            signature: LabelSignatureModel::Value { var_type },
        },
    }
}

/// Creates new labels: one generated namespace per declaration, in
/// declaration order. Only the lifetimes of a function declaration's
/// generics reach the signature — reading the declarations has already
/// refused every other generic form — and a static and a const declaration
/// of the same type generate the same namespace.
pub fn create_label(definitions: Vec<Definition>) -> (r: Vec<LabelDecl>)
    requires
        forall|i: int|
            0 <= i < definitions@.len() ==> valid_signature((#[trigger] definitions@[i])@),
    ensures
        r@.len() == definitions@.len(),
        forall|i: int|
            0 <= i < r@.len() ==> (#[trigger] r@[i])@ == spec_namespace_of(definitions@[i]@),
{
    let ghost all = definitions@;
    let mut defs = definitions;
    let mut out: Vec<LabelDecl> = Vec::new();
    while defs.len() > 0
        invariant
            out@.len() + defs@.len() == all.len(),
            forall|i: int| 0 <= i < out@.len() ==> (#[trigger] out@[i])@ == spec_namespace_of(
                all[i]@,
            ),
            forall|i: int| 0 <= i < defs@.len() ==> #[trigger] defs@[i] == all[out@.len() + i],
        decreases defs@.len(),
    {
        let d = defs.remove(0);
        proof {
            assert(d == all[out@.len() as int]);
        }
        match d {
            Definition::Function { name, generics, params, ret } => {
                let Generics { lifetimes, type_params: _tp, const_params: _cp } = generics;
                out.push(LabelDecl {
                    name,
                    signature: LabelSignature::Function { lifetimes, params, ret },
                });
            },
            Definition::Static { name, var_type } => {
                out.push(LabelDecl { name, signature: LabelSignature::Value { var_type } });
            },
        }
    }
    out
}

} // verus!
