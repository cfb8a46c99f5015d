//! Reading label declarations: the grammar behind a label-creation
//! invocation.
//!
//! A declaration list is a semicolon-separated sequence of declarations, an
//! optional trailing semicolon included. One declaration is
//!
//! * `fn name<generics>(params) -> ret` — the generics clause, the
//!   parameters and the return type each optional; a parameter is a type
//!   name, optionally preceded by `name:`; a generic parameter is a
//!   lifetime, a type name, or `const name: type` — the latter two are
//!   recognised and then refused, since a label's registry needs one
//!   concrete element type;
//! * `static name: type`, with an ignored `mut` allowed;
//! * `const name: type`, read exactly like `static`.
//!
//! The declarations are read from a token sequence; a type is carried as a
//! single name, never inspected.

use vstd::prelude::*;

use crate::definition::{Definition, DefinitionModel, Generics, GenericsModel};

verus! {

/// One token of a declaration list.
pub enum Token {
    KwFn,
    KwStatic,
    KwConst,
    KwMut,
    KwPub,
    Ident(String),
    Lifetime(String),
    LParen,
    RParen,
    Lt,
    Gt,
    Colon,
    Semi,
    Comma,
    Arrow,
}

/// The mathematical value of a [`Token`].
pub enum TokenModel {
    KwFn,
    KwStatic,
    KwConst,
    KwMut,
    KwPub,
    Ident(Seq<char>),
    Lifetime(Seq<char>),
    LParen,
    RParen,
    Lt,
    Gt,
    Colon,
    Semi,
    Comma,
    Arrow,
}

impl View for Token {
    type V = TokenModel;

    open spec fn view(&self) -> TokenModel {
        match self {
            Token::KwFn => TokenModel::KwFn,
            Token::KwStatic => TokenModel::KwStatic,
            Token::KwConst => TokenModel::KwConst,
            Token::KwMut => TokenModel::KwMut,
            Token::KwPub => TokenModel::KwPub,
            Token::Ident(s) => TokenModel::Ident(s@),
            Token::Lifetime(s) => TokenModel::Lifetime(s@),
            Token::LParen => TokenModel::LParen,
            Token::RParen => TokenModel::RParen,
            Token::Lt => TokenModel::Lt,
            Token::Gt => TokenModel::Gt,
            Token::Colon => TokenModel::Colon,
            Token::Semi => TokenModel::Semi,
            Token::Comma => TokenModel::Comma,
            Token::Arrow => TokenModel::Arrow,
        }
    }
}

impl DeepView for Token {
    type V = TokenModel;

    open spec fn deep_view(&self) -> TokenModel {
        self.view()
    }
}

/// Why a declaration list was refused.
#[derive(Clone, Copy, PartialEq, Eq, Structural, Debug)]
pub enum ParseError {
    /// The next tokens begin no function, static or const declaration.
    ExpectedItem,
    /// A declaration begins correctly and then breaks off or goes wrong.
    MalformedDeclaration,
    /// A declaration carries a generic type parameter.
    GenericTypeParams,
    /// A declaration carries a const-generic parameter.
    GenericConstParams,
}

/// The wording each refusal carries.
pub open spec fn spec_message(e: ParseError) -> Seq<char> {
    match e {
        ParseError::ExpectedItem => "Expected either function definition, static variable or const variable."@,
        ParseError::MalformedDeclaration => "Malformed label declaration."@,
        ParseError::GenericTypeParams => "Labels can not have generic type parameters (only lifetimes)."@,
        ParseError::GenericConstParams => "Labels can not have const parameters (only lifetimes)."@,
    }
}

impl ParseError {
    /// The refusal's wording.
    pub fn message(&self) -> (r: String)
        ensures
            r@ == spec_message(*self),
    {
        match self {
            ParseError::ExpectedItem => String::from_str(
                "Expected either function definition, static variable or const variable.",
            ),
            ParseError::MalformedDeclaration => String::from_str("Malformed label declaration."),
            ParseError::GenericTypeParams => String::from_str(
                "Labels can not have generic type parameters (only lifetimes).",
            ),
            ParseError::GenericConstParams => String::from_str(
                "Labels can not have const parameters (only lifetimes).",
            ),
        }
    }
}

/// A generics clause with nothing written in it.
pub open spec fn empty_generics() -> GenericsModel {
    GenericsModel {
        lifetimes: Seq::empty(),
        type_params: Seq::empty(),
        const_params: Seq::empty(),
    }
}

/// Reads generic parameters from just inside the `<` until past the `>`,
/// sorting each into `acc` by its form.
pub open spec fn spec_generic_params(toks: Seq<TokenModel>, i: int, acc: GenericsModel) -> Result<
    (GenericsModel, int),
    ParseError,
>
    decreases toks.len() - i,
{
    if i < 0 || i >= toks.len() {
        Err(ParseError::MalformedDeclaration)
    } else {
        match toks[i] {
            TokenModel::Gt => Ok((acc, i + 1)),
            TokenModel::Lifetime(x) => spec_generic_sep(
                toks,
                i + 1,
                GenericsModel { lifetimes: acc.lifetimes.push(x), ..acc },
            ),
            TokenModel::Ident(x) => spec_generic_sep(
                toks,
                i + 1,
                GenericsModel { type_params: acc.type_params.push(x), ..acc },
            ),
            TokenModel::KwConst => {
                if toks.len() - i >= 4 {
                    match (toks[i + 1], toks[i + 2], toks[i + 3]) {
                        (TokenModel::Ident(x), TokenModel::Colon, TokenModel::Ident(_ty)) => {
                            spec_generic_sep(
                                toks,
                                i + 4,
                                GenericsModel { const_params: acc.const_params.push(x), ..acc },
                            )
                        },
                        _ => Err(ParseError::MalformedDeclaration),
                    }
                } else {
                    Err(ParseError::MalformedDeclaration)
                }
            },
            _ => Err(ParseError::MalformedDeclaration),
        }
    }
}

/// After one generic parameter: a comma continues the clause, a `>` closes
/// it.
pub open spec fn spec_generic_sep(toks: Seq<TokenModel>, i: int, acc: GenericsModel) -> Result<
    (GenericsModel, int),
    ParseError,
>
    decreases toks.len() - i,
{
    if i < 0 || i >= toks.len() {
        Err(ParseError::MalformedDeclaration)
    } else {
        match toks[i] {
            TokenModel::Gt => Ok((acc, i + 1)),
            TokenModel::Comma => spec_generic_params(toks, i + 1, acc),
            _ => Err(ParseError::MalformedDeclaration),
        }
    }
}

/// Reads parameter types from just inside the `(` until past the `)`. A
/// parameter is a type name, optionally preceded by a name and a colon; only
/// the type is kept.
pub open spec fn spec_params(toks: Seq<TokenModel>, i: int, acc: Seq<Seq<char>>) -> Result<
    (Seq<Seq<char>>, int),
    ParseError,
>
    decreases toks.len() - i,
{
    if i < 0 || i >= toks.len() {
        Err(ParseError::MalformedDeclaration)
    } else {
        match toks[i] {
            TokenModel::RParen => Ok((acc, i + 1)),
            TokenModel::Ident(a) => {
                if i + 1 < toks.len() && toks[i + 1] is Colon {
                    if toks.len() - i >= 3 {
                        match toks[i + 2] {
                            TokenModel::Ident(ty) => spec_param_sep(toks, i + 3, acc.push(ty)),
                            _ => Err(ParseError::MalformedDeclaration),
                        }
                    } else {
                        Err(ParseError::MalformedDeclaration)
                    }
                } else {
                    spec_param_sep(toks, i + 1, acc.push(a))
                }
            },
            _ => Err(ParseError::MalformedDeclaration),
        }
    }
}

/// After one parameter: a comma continues the list, a `)` closes it.
pub open spec fn spec_param_sep(toks: Seq<TokenModel>, i: int, acc: Seq<Seq<char>>) -> Result<
    (Seq<Seq<char>>, int),
    ParseError,
>
    decreases toks.len() - i,
{
    if i < 0 || i >= toks.len() {
        Err(ParseError::MalformedDeclaration)
    } else {
        match toks[i] {
            TokenModel::RParen => Ok((acc, i + 1)),
            TokenModel::Comma => spec_params(toks, i + 1, acc),
            _ => Err(ParseError::MalformedDeclaration),
        }
    }
}

/// Reads `name: type` and yields the pair's name and type.
pub open spec fn spec_value_definition(toks: Seq<TokenModel>, i: int) -> Result<
    (DefinitionModel, int),
    ParseError,
> {
    if 0 <= i && toks.len() - i >= 3 {
        match (toks[i], toks[i + 1], toks[i + 2]) {
            (TokenModel::Ident(name), TokenModel::Colon, TokenModel::Ident(ty)) => Ok(
                (DefinitionModel::Static { name, var_type: ty }, i + 3),
            ),
            _ => Err(ParseError::MalformedDeclaration),
        }
    } else {
        Err(ParseError::MalformedDeclaration)
    }
}

/// Reads the rest of a function declaration after its `fn`: the name, the
/// generics (refusing type-generic and const-generic parameters as soon as
/// the clause is read, before the parameters), the parameter list, and an
/// optional return type.
pub open spec fn spec_fn_definition(toks: Seq<TokenModel>, i: int) -> Result<
    (DefinitionModel, int),
    ParseError,
> {
    if i < 0 || i >= toks.len() {
        Err(ParseError::MalformedDeclaration)
    } else {
        match toks[i] {
            TokenModel::Ident(name) => {
                let g = if i + 1 < toks.len() && toks[i + 1] is Lt {
                    spec_generic_params(toks, i + 2, empty_generics())
                } else {
                    Ok((empty_generics(), i + 1))
                };
                match g {
                    Err(e) => Err(e),
                    Ok((gen, j)) => {
                        if gen.type_params.len() > 0 {
                            Err(ParseError::GenericTypeParams)
                        } else if gen.const_params.len() > 0 {
                            Err(ParseError::GenericConstParams)
                        } else if j < toks.len() && toks[j] is LParen {
                            match spec_params(toks, j + 1, Seq::empty()) {
                                Err(e) => Err(e),
                                Ok((ps, k)) => {
                                    if k < toks.len() && toks[k] is Arrow {
                                        if k + 1 < toks.len() {
                                            match toks[k + 1] {
                                                TokenModel::Ident(rt) => Ok(
                                                    (
                                                        DefinitionModel::Function {
                                                            name,
                                                            generics: gen,
                                                            params: ps,
                                                            ret: Option::Some(rt),
                                                        },
                                                        k + 2,
                                                    ),
                                                ),
                                                _ => Err(ParseError::MalformedDeclaration),
                                            }
                                        } else {
                                            Err(ParseError::MalformedDeclaration)
                                        }
                                    } else {
                                        Ok(
                                            (
                                                DefinitionModel::Function {
                                                    name,
                                                    generics: gen,
                                                    params: ps,
                                                    ret: Option::None,
                                                },
                                                k,
                                            ),
                                        )
                                    }
                                },
                            }
                        } else {
                            Err(ParseError::MalformedDeclaration)
                        }
                    },
                }
            },
            _ => Err(ParseError::MalformedDeclaration),
        }
    }
}

/// Reads one declaration beginning at `start`: an ignored `pub`, then a
/// function, static or const declaration.
pub open spec fn spec_parse_definition(toks: Seq<TokenModel>, start: int) -> Result<
    (DefinitionModel, int),
    ParseError,
> {
    let i = if 0 <= start < toks.len() && toks[start] is KwPub {
        start + 1
    } else {
        start
    };
    if i < 0 || i >= toks.len() {
        Err(ParseError::ExpectedItem)
    } else {
        match toks[i] {
            TokenModel::KwFn => spec_fn_definition(toks, i + 1),
            TokenModel::KwStatic => {
                let j = if i + 1 < toks.len() && toks[i + 1] is KwMut {
                    i + 2
                } else {
                    i + 1
                };
                spec_value_definition(toks, j)
            },
            TokenModel::KwConst => spec_value_definition(toks, i + 1),
            _ => Err(ParseError::ExpectedItem),
        }
    }
}

/// Reads a whole declaration list from `i` on: declarations separated by
/// semicolons, a trailing semicolon allowed, nothing at all allowed.
pub open spec fn spec_parse_definitions(toks: Seq<TokenModel>, i: int) -> Result<
    Seq<DefinitionModel>,
    ParseError,
>
    decreases toks.len() - i,
{
    if i >= toks.len() {
        Ok(Seq::empty())
    } else {
        match spec_parse_definition(toks, i) {
            Err(e) => Err(e),
            Ok((d, j)) => {
                if j >= toks.len() {
                    Ok(seq![d])
                } else if toks[j] is Semi {
                    // a declaration never parses backwards; stepping at
                    // least one token keeps the walk finite
                    let next = if j + 1 > i + 1 {
                        j + 1
                    } else {
                        i + 1
                    };
                    match spec_parse_definitions(toks, next) {
                        Ok(rest) => Ok(seq![d] + rest),
                        Err(e) => Err(e),
                    }
                } else {
                    Err(ParseError::MalformedDeclaration)
                }
            },
        }
    }
}

/// Exec twin of [`spec_generic_params`].
fn parse_generic_params(toks: &Vec<Token>, i: usize, acc: Generics) -> (r: Result<
    (Generics, usize),
    ParseError,
>)
    requires
        i <= toks@.len(),
    ensures
        match r {
            Result::Ok((g, j)) => spec_generic_params(toks.deep_view(), i as int, acc@)
                == Result::<(GenericsModel, int), ParseError>::Ok((g@, j as int)),
            Result::Err(e) => spec_generic_params(toks.deep_view(), i as int, acc@)
                == Result::<(GenericsModel, int), ParseError>::Err(e),
        },
    decreases toks@.len() - i,
{
    if i >= toks.len() {
        return Result::Err(ParseError::MalformedDeclaration);
    }
    let ghost accv = acc@;
    match &toks[i] {
        Token::Gt => Result::Ok((acc, i + 1)),
        Token::Lifetime(x) => {
            let mut acc = acc;
            acc.lifetimes.push(x.clone());
            proof {
                assert(acc@.lifetimes =~= accv.lifetimes.push(x@));
                assert(acc@ == (GenericsModel { lifetimes: accv.lifetimes.push(x@), ..accv }));
            }
            parse_generic_sep(toks, i + 1, acc)
        },
        Token::Ident(x) => {
            let mut acc = acc;
            acc.type_params.push(x.clone());
            proof {
                assert(acc@.type_params =~= accv.type_params.push(x@));
                assert(acc@ == (GenericsModel { type_params: accv.type_params.push(x@), ..accv }));
            }
            parse_generic_sep(toks, i + 1, acc)
        },
        Token::KwConst => {
            if toks.len() - i >= 4 {
                match (&toks[i + 1], &toks[i + 2], &toks[i + 3]) {
                    (Token::Ident(x), Token::Colon, Token::Ident(_ty)) => {
                        let mut acc = acc;
                        acc.const_params.push(x.clone());
                        proof {
                            assert(acc@.const_params =~= accv.const_params.push(x@));
                            assert(acc@ == (GenericsModel {
                                const_params: accv.const_params.push(x@),
                                ..accv
                            }));
                        }
                        parse_generic_sep(toks, i + 4, acc)
                    },
                    _ => Result::Err(ParseError::MalformedDeclaration),
                }
            } else {
                Result::Err(ParseError::MalformedDeclaration)
            }
        },
        _ => Result::Err(ParseError::MalformedDeclaration),
    }
}

/// Exec twin of [`spec_generic_sep`].
fn parse_generic_sep(toks: &Vec<Token>, i: usize, acc: Generics) -> (r: Result<
    (Generics, usize),
    ParseError,
>)
    requires
        i <= toks@.len(),
    ensures
        match r {
            Result::Ok((g, j)) => spec_generic_sep(toks.deep_view(), i as int, acc@)
                == Result::<(GenericsModel, int), ParseError>::Ok((g@, j as int)),
            Result::Err(e) => spec_generic_sep(toks.deep_view(), i as int, acc@)
                == Result::<(GenericsModel, int), ParseError>::Err(e),
        },
    decreases toks@.len() - i,
{
    if i >= toks.len() {
        return Result::Err(ParseError::MalformedDeclaration);
    }
    match &toks[i] {
        Token::Gt => Result::Ok((acc, i + 1)),
        Token::Comma => parse_generic_params(toks, i + 1, acc),
        _ => Result::Err(ParseError::MalformedDeclaration),
    }
}

/// Exec twin of [`spec_params`].
fn parse_params(toks: &Vec<Token>, i: usize, acc: Vec<String>) -> (r: Result<
    (Vec<String>, usize),
    ParseError,
>)
    requires
        i <= toks@.len(),
    ensures
        match r {
            Result::Ok((ps, j)) => spec_params(toks.deep_view(), i as int, acc.deep_view())
                == Result::<(Seq<Seq<char>>, int), ParseError>::Ok((ps.deep_view(), j as int)),
            Result::Err(e) => spec_params(toks.deep_view(), i as int, acc.deep_view())
                == Result::<(Seq<Seq<char>>, int), ParseError>::Err(e),
        },
    decreases toks@.len() - i,
{
    if i >= toks.len() {
        return Result::Err(ParseError::MalformedDeclaration);
    }
    let ghost accv = acc.deep_view();
    match &toks[i] {
        Token::RParen => Result::Ok((acc, i + 1)),
        Token::Ident(a) => {
            let named = i + 1 < toks.len() && (match &toks[i + 1] {
                Token::Colon => true,
                _ => false,
            });
            if named {
                if toks.len() - i >= 3 {
                    match &toks[i + 2] {
                        Token::Ident(ty) => {
                            let mut acc = acc;
                            acc.push(ty.clone());
                            proof {
                                assert(acc.deep_view() =~= accv.push(ty@));
                            }
                            parse_param_sep(toks, i + 3, acc)
                        },
                        _ => Result::Err(ParseError::MalformedDeclaration),
                    }
                } else {
                    Result::Err(ParseError::MalformedDeclaration)
                }
            } else {
                let mut acc = acc;
                acc.push(a.clone());
                proof {
                    assert(acc.deep_view() =~= accv.push(a@));
                }
                parse_param_sep(toks, i + 1, acc)
            }
        },
        _ => Result::Err(ParseError::MalformedDeclaration),
    }
}

/// Exec twin of [`spec_param_sep`].
fn parse_param_sep(toks: &Vec<Token>, i: usize, acc: Vec<String>) -> (r: Result<
    (Vec<String>, usize),
    ParseError,
>)
    requires
        i <= toks@.len(),
    ensures
        match r {
            Result::Ok((ps, j)) => spec_param_sep(toks.deep_view(), i as int, acc.deep_view())
                == Result::<(Seq<Seq<char>>, int), ParseError>::Ok((ps.deep_view(), j as int)),
            Result::Err(e) => spec_param_sep(toks.deep_view(), i as int, acc.deep_view())
                == Result::<(Seq<Seq<char>>, int), ParseError>::Err(e),
        },
    decreases toks@.len() - i,
{
    if i >= toks.len() {
        return Result::Err(ParseError::MalformedDeclaration);
    }
    match &toks[i] {
        Token::RParen => Result::Ok((acc, i + 1)),
        Token::Comma => parse_params(toks, i + 1, acc),
        _ => Result::Err(ParseError::MalformedDeclaration),
    }
}

/// Exec twin of [`spec_value_definition`].
fn parse_value_definition(toks: &Vec<Token>, i: usize) -> (r: Result<
    (Definition, usize),
    ParseError,
>)
    requires
        i <= toks@.len(),
    ensures
        match r {
            Result::Ok((d, j)) => spec_value_definition(toks.deep_view(), i as int)
                == Result::<(DefinitionModel, int), ParseError>::Ok((d@, j as int)),
            Result::Err(e) => spec_value_definition(toks.deep_view(), i as int)
                == Result::<(DefinitionModel, int), ParseError>::Err(e),
        },
{
    if toks.len() - i >= 3 {
        match (&toks[i], &toks[i + 1], &toks[i + 2]) {
            (Token::Ident(name), Token::Colon, Token::Ident(ty)) => Result::Ok(
                (Definition::Static { name: name.clone(), var_type: ty.clone() }, i + 3),
            ),
            _ => Result::Err(ParseError::MalformedDeclaration),
        }
    } else {
        Result::Err(ParseError::MalformedDeclaration)
    }
}

/// Exec twin of [`spec_fn_definition`].
fn parse_fn_definition(toks: &Vec<Token>, i: usize) -> (r: Result<(Definition, usize), ParseError>)
    requires
        i <= toks@.len(),
    ensures
        match r {
            Result::Ok((d, j)) => spec_fn_definition(toks.deep_view(), i as int)
                == Result::<(DefinitionModel, int), ParseError>::Ok((d@, j as int)),
            Result::Err(e) => spec_fn_definition(toks.deep_view(), i as int)
                == Result::<(DefinitionModel, int), ParseError>::Err(e),
        },
{
    if i >= toks.len() {
        return Result::Err(ParseError::MalformedDeclaration);
    }
    let name: String = match &toks[i] {
        Token::Ident(n) => n.clone(),
        _ => {
            return Result::Err(ParseError::MalformedDeclaration);
        },
    };
    let has_generics = i + 1 < toks.len() && (match &toks[i + 1] {
        Token::Lt => true,
        _ => false,
    });
    let empty = Generics {
        lifetimes: Vec::new(),
        type_params: Vec::new(),
        const_params: Vec::new(),
    };
    proof {
        assert(empty@.lifetimes =~= empty_generics().lifetimes);
        assert(empty@.type_params =~= empty_generics().type_params);
        assert(empty@.const_params =~= empty_generics().const_params);
        assert(empty@ == empty_generics());
    }
    let g: Result<(Generics, usize), ParseError> = if has_generics {
        parse_generic_params(toks, i + 2, empty)
    } else {
        Result::Ok((empty, i + 1))
    };
    match g {
        Result::Err(e) => Result::Err(e),
        Result::Ok((gen, j)) => {
            if gen.type_params.len() > 0 {
                Result::Err(ParseError::GenericTypeParams)
            } else if gen.const_params.len() > 0 {
                Result::Err(ParseError::GenericConstParams)
            } else {
                let at_lparen = j < toks.len() && (match &toks[j] {
                    Token::LParen => true,
                    _ => false,
                });
                if at_lparen {
                    match parse_params(toks, j + 1, Vec::new()) {
                        Result::Err(e) => Result::Err(e),
                        Result::Ok((ps, k)) => {
                            let at_arrow = k < toks.len() && (match &toks[k] {
                                Token::Arrow => true,
                                _ => false,
                            });
                            if at_arrow {
                                if k + 1 < toks.len() {
                                    match &toks[k + 1] {
                                        Token::Ident(rt) => Result::Ok(
                                            (
                                                Definition::Function {
                                                    name,
                                                    generics: gen,
                                                    params: ps,
                                                    ret: Option::Some(rt.clone()),
                                                },
                                                k + 2,
                                            ),
                                        ),
                                        _ => Result::Err(ParseError::MalformedDeclaration),
                                    }
                                } else {
                                    Result::Err(ParseError::MalformedDeclaration)
                                }
                            } else {
                                Result::Ok(
                                    (
                                        Definition::Function {
                                            name,
                                            generics: gen,
                                            params: ps,
                                            ret: Option::None,
                                        },
                                        k,
                                    ),
                                )
                            }
                        },
                    }
                } else {
                    Result::Err(ParseError::MalformedDeclaration)
                }
            }
        },
    }
}

/// Reads one declaration beginning at `start`.
pub fn parse_definition(toks: &Vec<Token>, start: usize) -> (r: Result<
    (Definition, usize),
    ParseError,
>)
    ensures
        match r {
            Result::Ok((d, j)) => spec_parse_definition(toks.deep_view(), start as int)
                == Result::<(DefinitionModel, int), ParseError>::Ok((d@, j as int)),
            Result::Err(e) => spec_parse_definition(toks.deep_view(), start as int)
                == Result::<(DefinitionModel, int), ParseError>::Err(e),
        },
{
    let mut i: usize = start;
    if start < toks.len() {
        let is_pub = match &toks[start] {
            Token::KwPub => true,
            _ => false,
        };
        if is_pub {
            i = start + 1;
        }
    }
    if i >= toks.len() {
        return Result::Err(ParseError::ExpectedItem);
    }
    match &toks[i] {
        Token::KwFn => parse_fn_definition(toks, i + 1),
        Token::KwStatic => {
            let mut j: usize = i + 1;
            if i + 1 < toks.len() {
                let is_mut = match &toks[i + 1] {
                    Token::KwMut => true,
                    _ => false,
                };
                if is_mut {
                    j = i + 2;
                }
            }
            parse_value_definition(toks, j)
        },
        Token::KwConst => parse_value_definition(toks, i + 1),
        _ => Result::Err(ParseError::ExpectedItem),
    }
}

/// Exec twin of [`spec_parse_definitions`], from position `i` on.
fn parse_definitions_from(toks: &Vec<Token>, i: usize) -> (r: Result<Vec<Definition>, ParseError>)
    requires
        i <= toks@.len(),
    ensures
        match r {
            Result::Ok(ds) => spec_parse_definitions(toks.deep_view(), i as int)
                == Result::<Seq<DefinitionModel>, ParseError>::Ok(ds.deep_view()),
            Result::Err(e) => spec_parse_definitions(toks.deep_view(), i as int)
                == Result::<Seq<DefinitionModel>, ParseError>::Err(e),
        },
    decreases toks@.len() - i,
{
    if i >= toks.len() {
        let v: Vec<Definition> = Vec::new();
        proof {
            assert(v.deep_view() =~= Seq::<DefinitionModel>::empty());
        }
        return Result::Ok(v);
    }
    match parse_definition(toks, i) {
        Result::Err(e) => Result::Err(e),
        Result::Ok((d, j)) => {
            if j >= toks.len() {
                let ghost dv = d@;
                let mut v: Vec<Definition> = Vec::new();
                v.push(d);
                proof {
                    assert(v.deep_view() =~= seq![dv]);
                }
                Result::Ok(v)
            } else {
                let at_semi = match &toks[j] {
                    Token::Semi => true,
                    _ => false,
                };
                if at_semi {
                    let next: usize = if j + 1 > i + 1 {
                        j + 1
                    } else {
                        i + 1
                    };
                    match parse_definitions_from(toks, next) {
                        Result::Err(e) => Result::Err(e),
                        Result::Ok(rest) => {
                            let ghost dv = d@;
                            let ghost restv = rest.deep_view();
                            let mut v = rest;
                            v.insert(0, d);
                            proof {
                                assert(v.deep_view() =~= seq![dv] + restv);
                            }
                            Result::Ok(v)
                        },
                    }
                } else {
                    Result::Err(ParseError::MalformedDeclaration)
                }
            }
        },
    }
}

/// Reads a whole declaration list: declarations separated by semicolons, a
/// trailing semicolon allowed, an empty list allowed.
pub fn parse_definitions(toks: &Vec<Token>) -> (r: Result<Vec<Definition>, ParseError>)
    ensures
        match r {
            Result::Ok(ds) => spec_parse_definitions(toks.deep_view(), 0)
                == Result::<Seq<DefinitionModel>, ParseError>::Ok(ds.deep_view()),
            Result::Err(e) => spec_parse_definitions(toks.deep_view(), 0)
                == Result::<Seq<DefinitionModel>, ParseError>::Err(e),
        },
{
    parse_definitions_from(toks, 0)
}

} // verus!
