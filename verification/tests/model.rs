// The mechanism's pieces one by one: path rewriting, resolution, the
// rewriter's partition, declarations, and the registry laws on concrete
// values.

use label::definition::{create_label, Definition, Generics, LabelSignature};
use label::parse::{parse_definition, parse_definitions, ParseError, Token};
use label::path::{rewrite_attachment_path, simplify_path, Path};
use label::resolve::resolve_from;
use label::rewrite::rewrite_item;
use label::item::{Item, ItemKind};
use label::registry::Registry;
use label::startup::{LabelSpace, Registration};

fn path(rooted: bool, segs: &[&str]) -> Path {
    Path { rooted, segments: segs.iter().map(|s| s.to_string()).collect() }
}

fn site(segs: &[&str]) -> Vec<String> {
    segs.iter().map(|s| s.to_string()).collect()
}

fn one() -> usize {
    1
}

fn two() -> usize {
    2
}

#[test]
fn simplify_replaces_marker() {
    let p = simplify_path(path(false, &["test", "label"]));
    assert!(!p.rooted);
    assert_eq!(p.segments, site(&["test", "add"]));
}

#[test]
fn rewrite_shifts_bare_path() {
    let p = rewrite_attachment_path(path(false, &["test", "label"]));
    assert_eq!(p.segments, site(&["super", "test", "add"]));
}

#[test]
fn rewrite_keeps_scoped_paths() {
    let p = rewrite_attachment_path(path(false, &["crate", "test", "label"]));
    assert_eq!(p.segments, site(&["crate", "test", "add"]));

    let p = rewrite_attachment_path(path(true, &["test", "label"]));
    assert!(p.rooted);
    assert_eq!(p.segments, site(&["test", "add"]));

    let p = rewrite_attachment_path(path(false, &["self", "test", "label"]));
    assert_eq!(p.segments, site(&["self", "test", "add"]));
}

#[test]
fn resolution_walks_the_modules() {
    // a bare name steps inward
    let r = resolve_from(&site(&["a", "b"]), &path(false, &["c", "d"]));
    assert_eq!(r, Some(site(&["a", "b", "c", "d"])));

    // `crate` returns to the root, a rooted path starts there
    let r = resolve_from(&site(&["a", "b"]), &path(false, &["crate", "c"]));
    assert_eq!(r, Some(site(&["c"])));
    let r = resolve_from(&site(&["a", "b"]), &path(true, &["c"]));
    assert_eq!(r, Some(site(&["c"])));

    // `self` stays, `super` steps out
    let r = resolve_from(&site(&["a"]), &path(false, &["self", "c"]));
    assert_eq!(r, Some(site(&["a", "c"])));
    let r = resolve_from(&site(&["a", "b"]), &path(false, &["super", "c"]));
    assert_eq!(r, Some(site(&["a", "c"])));

    // `super` past the crate root resolves to nothing
    let r = resolve_from(&site(&[]), &path(false, &["super", "c"]));
    assert_eq!(r, None);
}

// The concrete resolution scenario: a label `test` declared at the top
// level; `#[test::label]` written at the top level and `#[super::test::label]`
// written in a directly nested module both register into the same registry.
#[test]
fn attachments_from_two_modules_share_one_registry() {
    let from_top = rewrite_attachment_path(path(false, &["test", "label"]));
    let mut scope_top = site(&[]);
    scope_top.push("item_scope".to_string());
    let top_target = resolve_from(&scope_top, &from_top).unwrap();

    let from_nested = rewrite_attachment_path(path(false, &["super", "test", "label"]));
    let mut scope_nested = site(&["nested"]);
    scope_nested.push("item_scope".to_string());
    let nested_target = resolve_from(&scope_nested, &from_nested).unwrap();

    assert_eq!(top_target, nested_target);
    assert_eq!(top_target, site(&["test", "add"]));

    // both items then stand in that one registry, under their names
    let mut space: LabelSpace<fn() -> usize> = LabelSpace::new(1);
    let regs = vec![
        Registration { target: 0, item_name: String::from("one"), item: one as fn() -> usize },
        Registration { target: 0, item_name: String::from("two"), item: two as fn() -> usize },
    ];
    space.run_startup(&regs);
    let named = space.registry(0).iter_named();
    assert!(named.iter().any(|(n, _)| n.as_str() == "one"));
    assert!(named.iter().any(|(n, _)| n.as_str() == "two"));
}

#[test]
fn rewriter_strips_attachments_and_keeps_the_rest() {
    let item = Item {
        kind: ItemKind::Static,
        name: String::from("COUNTER"),
        attrs: vec![
            path(false, &["allow"]),
            path(false, &["marks", "label"]),
            path(false, &["cfg_attr"]),
        ],
    };
    let r = rewrite_item(item, path(false, &["tags", "label"]));

    // other annotations survive, in order
    assert_eq!(r.item.attrs.len(), 2);
    assert_eq!(r.item.attrs[0].segments, site(&["allow"]));
    assert_eq!(r.item.attrs[1].segments, site(&["cfg_attr"]));
    assert_eq!(r.item.name, "COUNTER");

    // one registration per attachment, the invoking one first, each shifted
    assert_eq!(r.registrations.len(), 2);
    assert_eq!(r.registrations[0].segments, site(&["super", "tags", "add"]));
    assert_eq!(r.registrations[1].segments, site(&["super", "marks", "add"]));

    // a static registers a reference to itself
    assert_eq!(r.item_name, "COUNTER");
    assert!(r.by_reference);
}

#[test]
fn a_const_item_of_value_four_is_handed_back_by_reference() {
    let mut reg: Registry<&'static usize> = Registry::new();
    reg.add(String::from("B"), &4);
    let handed = reg.iter();
    assert_eq!(handed.len(), 1);
    assert_eq!(*handed[0], 4);
}

#[test]
fn registering_twice_leaves_two_entries() {
    let mut space: LabelSpace<fn() -> usize> = LabelSpace::new(1);
    let regs = vec![
        Registration { target: 0, item_name: String::from("one"), item: one as fn() -> usize },
        Registration { target: 0, item_name: String::from("one"), item: one as fn() -> usize },
    ];
    space.run_startup(&regs);
    assert_eq!(space.registry(0).len(), 2);
    let named = space.registry(0).iter_named();
    assert_eq!(named[0].0, "one");
    assert_eq!(named[1].0, "one");
}

#[test]
fn iteration_order_is_stable() {
    let mut reg: Registry<fn() -> usize> = Registry::new();
    reg.add(String::from("one"), one);
    reg.add(String::from("two"), two);
    let first: Vec<usize> = reg.iter().iter().map(|f| f()).collect();
    let second: Vec<usize> = reg.iter().iter().map(|f| f()).collect();
    assert_eq!(first, second);
    assert_eq!(first.len(), 2);
}

#[test]
fn populating_one_label_leaves_the_other_alone() {
    let mut space: LabelSpace<fn() -> usize> = LabelSpace::new(2);
    let regs = vec![
        Registration { target: 0, item_name: String::from("one"), item: one as fn() -> usize },
        Registration { target: 0, item_name: String::from("one"), item: one as fn() -> usize },
    ];
    space.run_startup(&regs);
    assert_eq!(space.registry(0).len(), 2);
    assert_eq!(space.registry(1).len(), 0);
    assert!(space.registry(1).iter().is_empty());
}

fn ident(s: &str) -> Token {
    Token::Ident(s.to_string())
}

#[test]
fn a_function_declaration_parses() {
    // fn test() -> str_ref
    let toks = vec![
        Token::KwFn,
        ident("test"),
        Token::LParen,
        Token::RParen,
        Token::Arrow,
        ident("str_ref"),
    ];
    let (d, end) = parse_definition(&toks, 0).unwrap();
    assert_eq!(end, 6);
    match d {
        Definition::Function { name, generics, params, ret } => {
            assert_eq!(name, "test");
            assert!(generics.lifetimes.is_empty());
            assert!(params.is_empty());
            assert_eq!(ret, Some(String::from("str_ref")));
        }
        Definition::Static { .. } => panic!("parsed as a value declaration"),
    }
}

#[test]
fn parameters_and_lifetimes_parse() {
    // fn test2<'a>(x: usize, usize)
    let toks = vec![
        Token::KwFn,
        ident("test2"),
        Token::Lt,
        Token::Lifetime("a".to_string()),
        Token::Gt,
        Token::LParen,
        ident("x"),
        Token::Colon,
        ident("usize"),
        Token::Comma,
        ident("usize"),
        Token::RParen,
    ];
    let (d, end) = parse_definition(&toks, 0).unwrap();
    assert_eq!(end, toks.len());
    match d {
        Definition::Function { name, generics, params, ret } => {
            assert_eq!(name, "test2");
            assert_eq!(generics.lifetimes, site(&["a"]));
            assert_eq!(params, site(&["usize", "usize"]));
            assert_eq!(ret, None);
        }
        Definition::Static { .. } => panic!("parsed as a value declaration"),
    }
}

#[test]
fn static_and_const_declare_the_same_label_kind() {
    // static mut counter: usize  /  const limit: usize
    let toks = vec![Token::KwStatic, Token::KwMut, ident("counter"), Token::Colon, ident("usize")];
    let (d, _) = parse_definition(&toks, 0).unwrap();
    match d {
        Definition::Static { name, var_type } => {
            assert_eq!(name, "counter");
            assert_eq!(var_type, "usize");
        }
        Definition::Function { .. } => panic!("parsed as a function declaration"),
    }

    let toks = vec![Token::KwConst, ident("limit"), Token::Colon, ident("usize")];
    let (d, _) = parse_definition(&toks, 0).unwrap();
    match d {
        Definition::Static { name, var_type } => {
            assert_eq!(name, "limit");
            assert_eq!(var_type, "usize");
        }
        Definition::Function { .. } => panic!("parsed as a function declaration"),
    }
}

#[test]
fn generic_type_parameters_are_refused() {
    // fn bad<T>()
    let toks = vec![
        Token::KwFn,
        ident("bad"),
        Token::Lt,
        ident("T"),
        Token::Gt,
        Token::LParen,
        Token::RParen,
    ];
    let e = parse_definition(&toks, 0).unwrap_err();
    assert_eq!(e, ParseError::GenericTypeParams);
    assert_eq!(e.message(), "Labels can not have generic type parameters (only lifetimes).");
}

#[test]
fn const_generic_parameters_are_refused() {
    // fn bad<const N: usize>()
    let toks = vec![
        Token::KwFn,
        ident("bad"),
        Token::Lt,
        Token::KwConst,
        ident("N"),
        Token::Colon,
        ident("usize"),
        Token::Gt,
        Token::LParen,
        Token::RParen,
    ];
    let e = parse_definition(&toks, 0).unwrap_err();
    assert_eq!(e, ParseError::GenericConstParams);
    assert_eq!(e.message(), "Labels can not have const parameters (only lifetimes).");
}

#[test]
fn something_else_is_no_declaration() {
    let toks = vec![ident("oops")];
    let e = parse_definition(&toks, 0).unwrap_err();
    assert_eq!(e, ParseError::ExpectedItem);
    assert_eq!(
        e.message(),
        "Expected either function definition, static variable or const variable.",
    );

    let toks = vec![Token::KwFn, ident("broken"), Token::LParen];
    let e = parse_definition(&toks, 0).unwrap_err();
    assert_eq!(e, ParseError::MalformedDeclaration);
    assert_eq!(e.message(), "Malformed label declaration.");
}

#[test]
fn a_declaration_list_parses_with_a_trailing_semicolon() {
    // fn test(); static counter: usize;
    let toks = vec![
        Token::KwFn,
        ident("test"),
        Token::LParen,
        Token::RParen,
        Token::Semi,
        Token::KwStatic,
        ident("counter"),
        Token::Colon,
        ident("usize"),
        Token::Semi,
    ];
    let ds = parse_definitions(&toks).unwrap();
    assert_eq!(ds.len(), 2);

    let empty: Vec<Token> = Vec::new();
    assert!(parse_definitions(&empty).unwrap().is_empty());
}

#[test]
fn creating_labels_generates_one_namespace_each() {
    let defs = vec![
        Definition::Function {
            name: String::from("test"),
            generics: Generics {
                lifetimes: site(&["a"]),
                type_params: Vec::new(),
                const_params: Vec::new(),
            },
            params: site(&["usize"]),
            ret: Some(String::from("usize")),
        },
        Definition::Static { name: String::from("limit"), var_type: String::from("usize") },
    ];
    let decls = create_label(defs);
    assert_eq!(decls.len(), 2);
    assert_eq!(decls[0].name, "test");
    match &decls[0].signature {
        LabelSignature::Function { lifetimes, params, ret } => {
            assert_eq!(*lifetimes, site(&["a"]));
            assert_eq!(*params, site(&["usize"]));
            assert_eq!(*ret, Some(String::from("usize")));
        }
        LabelSignature::Value { .. } => panic!("a function label got a value signature"),
    }
    assert_eq!(decls[1].name, "limit");
    match &decls[1].signature {
        LabelSignature::Value { var_type } => assert_eq!(var_type, "usize"),
        LabelSignature::Function { .. } => panic!("a value label got a function signature"),
    }
}
