use npchk::rpser::attributes::Attributes;
use npchk::rpser::xml::{Error, XmlElement};

fn sample() -> XmlElement {
    // root > A > (B > C, X), plus a second A that must never be reached
    XmlElement::node("root")
        .with_child(
            XmlElement::node("A")
                .with_child(XmlElement::node("B").with_child(XmlElement::node("C").with_text("c")))
                .with_child(XmlElement::node("X").with_text("x")),
        )
        .with_child(XmlElement::node("A").with_attr("second", "yes"))
}

fn names(e: &XmlElement) -> Vec<String> {
    let mut v = Vec::new();
    for c in &e.children {
        v.push(c.name.clone());
    }
    v
}

#[test]
fn node_is_empty() {
    let e = XmlElement::node("a");
    assert_eq!(e.name, "a");
    assert!(e.children.is_empty());
    assert!(e.text.is_none());
    assert_eq!(e.get_attr("x"), "");
    assert!(e.attributes.get("x").is_none());
}

#[test]
fn with_name_renames_and_keeps_the_rest() {
    let e = XmlElement::node("a").with_attr("k", "v").with_text("t").with_child(XmlElement::node("c"));
    let e = e.with_name("b");
    assert_eq!(e.name, "b");
    assert_eq!(e.get_attr("k"), "v");
    assert_eq!(e.text, Some("t".to_string()));
    assert_eq!(names(&e), vec!["c"]);
}

#[test]
fn with_text_sets_and_overwrites() {
    let e = XmlElement::node("a").with_text("one");
    assert_eq!(e.text, Some("one".to_string()));
    let e = e.with_text("two");
    assert_eq!(e.text, Some("two".to_string()));
    let e = e.with_text("");
    assert_eq!(e.text, Some(String::new()));
}

#[test]
fn with_attr_sets_and_overwrites() {
    let e = XmlElement::node("a").with_attr("k", "1").with_attr("l", "2");
    assert_eq!(e.get_attr("k"), "1");
    assert_eq!(e.get_attr("l"), "2");
    let e = e.with_attr("k", "3");
    assert_eq!(e.get_attr("k"), "3");
    assert_eq!(e.get_attr("l"), "2");
    assert_eq!(e.get_attr("m"), "");
}

#[test]
fn get_attr_of_an_empty_value_is_empty() {
    let e = XmlElement::node("a").with_attr("k", "");
    assert_eq!(e.get_attr("k"), "");
    assert_eq!(e.attributes.get("k"), Some(&String::new()));
}

#[test]
fn with_child_appends_in_order() {
    let e = XmlElement::node("p")
        .with_child(XmlElement::node("b"))
        .with_child(XmlElement::node("a"))
        .with_child(XmlElement::node("b"));
    assert_eq!(names(&e), vec!["b", "a", "b"]);
}

#[test]
fn with_children_keeps_order_and_duplicates() {
    let e = XmlElement::node("p").with_child(XmlElement::node("z")).with_children(vec![
        XmlElement::node("y"),
        XmlElement::node("x"),
        XmlElement::node("y"),
    ]);
    assert_eq!(names(&e), vec!["z", "y", "x", "y"]);
    let e = e.with_children(Vec::new());
    assert_eq!(names(&e), vec!["z", "y", "x", "y"]);
}

#[test]
fn with_children_from_iter_copies_each_child() {
    let given = vec![XmlElement::node("one").with_text("1"), XmlElement::node("two")];
    let e = XmlElement::node("p").with_child(XmlElement::node("zero")).with_children_from_iter(&given);
    assert_eq!(names(&e), vec!["zero", "one", "two"]);
    assert_eq!(e.children[1].text, Some("1".to_string()));
    // the given ones are still there
    assert_eq!(given.len(), 2);
    assert_eq!(given[0].name, "one");
}

#[test]
fn cloned_is_deep_and_independent() {
    let source = sample().with_attr("k", "v").with_text("t");
    let copy = source.cloned();
    let changed = source.with_name("other").with_attr("k", "w").with_child(XmlElement::node("new"));
    assert_eq!(copy.name, "root");
    assert_eq!(copy.get_attr("k"), "v");
    assert_eq!(copy.text, Some("t".to_string()));
    assert_eq!(names(&copy), vec!["A", "A"]);
    assert_eq!(names(&copy.children[0]), vec!["B", "X"]);
    assert_eq!(copy.children[0].children[0].children[0].text, Some("c".to_string()));
    assert_eq!(copy.children[1].get_attr("second"), "yes");
    assert_eq!(changed.children.len(), 3);
}

#[test]
fn descend_reaches_the_subtree() {
    let found = sample().descend(&["A", "B"]).unwrap();
    assert_eq!(found.name, "B");
    assert_eq!(names(&found), vec!["C"]);
    assert_eq!(found.children[0].text, Some("c".to_string()));
}

#[test]
fn descend_reaches_a_sibling() {
    let found = sample().descend(&["A", "X"]).unwrap();
    assert_eq!(found.name, "X");
    assert_eq!(found.text, Some("x".to_string()));
}

#[test]
fn descend_missing_reports_the_whole_path() {
    match sample().descend(&["A", "Z"]) {
        Err(Error::NotFoundAtPath { path }) => assert_eq!(path, vec!["A", "Z"]),
        other => panic!("unexpected: {:?}", other),
    }
}

#[test]
fn descend_missing_early_reports_the_whole_path() {
    match sample().descend(&["Q", "B", "C"]) {
        Err(Error::NotFoundAtPath { path }) => assert_eq!(path, vec!["Q", "B", "C"]),
        other => panic!("unexpected: {:?}", other),
    }
    match sample().descend(&["A", "Q", "C"]) {
        Err(Error::NotFoundAtPath { path }) => assert_eq!(path, vec!["A", "Q", "C"]),
        other => panic!("unexpected: {:?}", other),
    }
}

#[test]
fn descend_below_a_leaf_fails() {
    match sample().descend(&["A", "B", "C", "D"]) {
        Err(Error::NotFoundAtPath { path }) => assert_eq!(path, vec!["A", "B", "C", "D"]),
        other => panic!("unexpected: {:?}", other),
    }
}

#[test]
fn descend_with_empty_path_is_the_element_itself() {
    let found = sample().descend(&[]).unwrap();
    assert_eq!(found.name, "root");
    assert_eq!(found.children.len(), 2);
}

#[test]
fn descend_takes_the_first_of_equal_names() {
    let found = sample().descend(&["A"]).unwrap();
    assert_eq!(found.get_attr("second"), "");
    assert_eq!(names(&found), vec!["B", "X"]);
    // the second A has no B below it, but it is never looked at
    let tree = XmlElement::node("r")
        .with_child(XmlElement::node("A"))
        .with_child(XmlElement::node("A").with_child(XmlElement::node("B")));
    match tree.descend(&["A", "B"]) {
        Err(Error::NotFoundAtPath { path }) => assert_eq!(path, vec!["A", "B"]),
        other => panic!("unexpected: {:?}", other),
    }
}

#[test]
fn descend_first_takes_the_first_child() {
    let first = sample().descend_first().unwrap();
    assert_eq!(first.name, "A");
    assert_eq!(names(&first), vec!["B", "X"]);
}

#[test]
fn descend_first_on_a_leaf_names_the_parent() {
    match XmlElement::node("lonely").with_text("t").descend_first() {
        Err(Error::ExpectedNotEmpty { parent }) => assert_eq!(parent, "lonely"),
        other => panic!("unexpected: {:?}", other),
    }
}

#[test]
fn get_at_path_copies_and_leaves_the_tree() {
    let tree = sample();
    let b = tree.get_at_path(&["A", "B"]).unwrap();
    let x = tree.get_at_path(&["A", "X"]).unwrap();
    assert_eq!(b.name, "B");
    assert_eq!(names(&b), vec!["C"]);
    assert_eq!(x.text, Some("x".to_string()));
    assert_eq!(names(&tree), vec!["A", "A"]);
    assert_eq!(names(&tree.children[0]), vec!["B", "X"]);
}

#[test]
fn get_at_path_missing_reports_the_whole_path() {
    let tree = sample();
    match tree.get_at_path(&["A", "Z"]) {
        Err(Error::NotFoundAtPath { path }) => assert_eq!(path, vec!["A", "Z"]),
        other => panic!("unexpected: {:?}", other),
    }
    match tree.get_at_path(&["A", "B", "Z", "W"]) {
        Err(Error::NotFoundAtPath { path }) => assert_eq!(path, vec!["A", "B", "Z", "W"]),
        other => panic!("unexpected: {:?}", other),
    }
}

#[test]
fn get_at_path_with_empty_path_is_a_copy() {
    let tree = sample().with_attr("k", "v");
    let copy = tree.get_at_path(&[]).unwrap();
    assert_eq!(copy.name, "root");
    assert_eq!(copy.get_attr("k"), "v");
    assert_eq!(names(&copy), vec!["A", "A"]);
}

#[test]
fn attributes_hold_one_value_per_name() {
    let a = Attributes::new();
    assert!(a.get("k").is_none());
    let a = a.with("k".to_string(), "1".to_string()).with("l".to_string(), "2".to_string());
    assert_eq!(a.get("k"), Some(&"1".to_string()));
    assert_eq!(a.get("l"), Some(&"2".to_string()));
    let a = a.with("k".to_string(), "3".to_string());
    assert_eq!(a.get("k"), Some(&"3".to_string()));
    assert_eq!(a.get("l"), Some(&"2".to_string()));
    assert!(a.get("K").is_none());
    let b = a.cloned();
    let a = a.with("l".to_string(), "4".to_string());
    assert_eq!(b.get("l"), Some(&"2".to_string()));
    assert_eq!(b.get("k"), Some(&"3".to_string()));
    assert_eq!(a.get("l"), Some(&"4".to_string()));
}
