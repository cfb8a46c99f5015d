// Value-kind labels: statics and consts registered by reference.

use label::startup::{LabelSpace, Registration};

// Three value labels, as one declaration would create them:
// staticname = 0, constname = 1, staticmutname = 2.
fn populated_value_space() -> LabelSpace<&'static usize> {
    let mut space: LabelSpace<&'static usize> = LabelSpace::new(3);
    let regs = vec![
        Registration { target: 0, item_name: String::from("A"), item: &3 },
        Registration { target: 1, item_name: String::from("B"), item: &4 },
    ];
    space.run_startup(&regs);
    space
}

#[test]
fn consts_test_simple() {
    let space = populated_value_space();

    for i in space.registry(0).iter() {
        assert_eq!(*i, 3);
    }

    for i in space.registry(1).iter() {
        assert_eq!(*i, 4);
    }
}

#[test]
fn test_named() {
    let space = populated_value_space();

    for (name, i) in space.registry(0).iter_named() {
        assert_eq!(*i, 3);
        assert_eq!(name, "A")
    }
}
