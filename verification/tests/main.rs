// Function labels attached from several modules, resolved through the same
// path rule the emitted registrations use.

use std::collections::HashSet;

use label::item::{Item, ItemKind};
use label::path::{rewrite_attachment_path, Path};
use label::resolve::resolve_from;
use label::rewrite::rewrite_item;
use label::startup::{LabelSpace, Registration};

fn path(rooted: bool, segs: &[&str]) -> Path {
    Path { rooted, segments: segs.iter().map(|s| s.to_string()).collect() }
}

fn site(segs: &[&str]) -> Vec<String> {
    segs.iter().map(|s| s.to_string()).collect()
}

// Resolves one emitted registration path from inside the synthesized scope
// the rewriter wraps the item in.
fn resolved_target(site_segs: &[&str], emitted: &Path) -> Vec<String> {
    let mut from = site(site_segs);
    from.push("item_scope".to_string());
    resolve_from(&from, emitted).expect("registration path resolves")
}

fn resolve_attachment(site_segs: &[&str], attr: Path) -> Vec<String> {
    let emitted = rewrite_attachment_path(attr);
    resolved_target(site_segs, &emitted)
}

fn my_fn_in_child() -> &'static str {
    "Test2!"
}

fn my_fn_in_folder_child() -> &'static str {
    "Test3!"
}

fn fn_four() -> &'static str {
    "Test4!"
}

fn another_fn() -> &'static str {
    "Test1!"
}

fn my_usize_fn(x: usize) -> usize {
    x + 1
}

// Labels `test` (declared at the top level) and `test1` (declared in
// `folder::child`), both of signature `fn() -> &'static str`:
// test = 0, test1 = 1.
fn populated_str_space() -> LabelSpace<fn() -> &'static str> {
    let test_abs = site(&["test", "add"]);
    let test1_abs = site(&["folder", "child", "test1", "add"]);
    let id_of = |target: Vec<String>| -> usize {
        if target == test_abs {
            0
        } else if target == test1_abs {
            1
        } else {
            panic!("attachment names no declared label")
        }
    };

    let mut regs: Vec<Registration<fn() -> &'static str>> = Vec::new();

    // in `child`: #[super::test::label] fn my_fn
    regs.push(Registration {
        target: id_of(resolve_attachment(&["child"], path(false, &["super", "test", "label"]))),
        item_name: String::from("my_fn"),
        item: my_fn_in_child,
    });

    // in `folder`: #[crate::test::label] #[child::test1::label] fn fn_four —
    // one item carrying two attachments, rewritten in one pass
    let item = Item {
        kind: ItemKind::Func,
        name: String::from("fn_four"),
        attrs: vec![path(false, &["child", "test1", "label"])],
    };
    let rewrite = rewrite_item(item, path(false, &["crate", "test", "label"]));
    assert_eq!(rewrite.item_name, "fn_four");
    assert!(!rewrite.by_reference);
    for emitted in &rewrite.registrations {
        regs.push(Registration {
            target: id_of(resolved_target(&["folder"], emitted)),
            item_name: rewrite.item_name.clone(),
            item: fn_four,
        });
    }

    // in `folder::child`: #[super::super::test::label] fn my_fn
    regs.push(Registration {
        target: id_of(resolve_attachment(
            &["folder", "child"],
            path(false, &["super", "super", "test", "label"]),
        )),
        item_name: String::from("my_fn"),
        item: my_fn_in_folder_child,
    });

    // at the top level: #[test::label] #[folder::child::test1::label] fn another_fn
    let item = Item {
        kind: ItemKind::Func,
        name: String::from("another_fn"),
        attrs: vec![path(false, &["folder", "child", "test1", "label"])],
    };
    let rewrite = rewrite_item(item, path(false, &["test", "label"]));
    for emitted in &rewrite.registrations {
        regs.push(Registration {
            target: id_of(resolved_target(&[], emitted)),
            item_name: rewrite.item_name.clone(),
            item: another_fn,
        });
    }

    let mut space: LabelSpace<fn() -> &'static str> = LabelSpace::new(2);
    space.run_startup(&regs);
    space
}

// The label `test2`, of signature `fn(usize) -> usize`: test2 = 0.
fn populated_usize_space() -> LabelSpace<fn(usize) -> usize> {
    let test2_abs = site(&["test2", "add"]);
    let target = resolve_attachment(&[], path(false, &["test2", "label"]));
    assert_eq!(target, test2_abs);

    let mut space: LabelSpace<fn(usize) -> usize> = LabelSpace::new(1);
    let regs = vec![Registration {
        target: 0,
        item_name: String::from("my_usize_fn"),
        item: my_usize_fn as fn(usize) -> usize,
    }];
    space.run_startup(&regs);
    space
}

#[test]
fn main_test_simple() {
    let space = populated_str_space();

    // using iter you can go through all functions with this annotation.
    let mut ret = HashSet::new();
    for i in space.registry(0).iter() {
        ret.insert(i());
    }

    assert!(ret.contains("Test1!"));
    assert!(ret.contains("Test2!"));
    assert!(ret.contains("Test3!"));
    assert!(ret.contains("Test4!"));
}

#[test]
fn test_label_in_module() {
    let space = populated_str_space();

    let mut ret = HashSet::new();
    for i in space.registry(1).iter() {
        ret.insert(i());
    }

    assert!(ret.contains("Test1!"));
    assert!(ret.contains("Test4!"));
}

#[test]
fn test_add_one() {
    let space = populated_usize_space();

    for i in space.registry(0).iter() {
        assert_eq!(i(3), 4);
    }
}

#[test]
fn test_simple_named() {
    let space = populated_str_space();

    let mut ret = HashSet::new();
    for (name, i) in space.registry(0).iter_named() {
        ret.insert((name, i()));
    }

    assert!(ret.contains(&(String::from("another_fn"), "Test1!")));
    assert!(ret.contains(&(String::from("my_fn"), "Test2!")));
    assert!(ret.contains(&(String::from("my_fn"), "Test3!")));
    assert!(ret.contains(&(String::from("fn_four"), "Test4!")));
}
