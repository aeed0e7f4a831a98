use k8s_aws_nlb_proxy_protocol_operator::annotations::Annotations;

fn s(text: &str) -> String {
    text.to_string()
}

#[test]
fn new_annotations_hold_nothing() {
    let annotations = Annotations::new();
    assert_eq!(annotations.get("anything"), None);
    assert_eq!(annotations.get(""), None);
    assert!(!annotations.has_value("anything", ""));
}

#[test]
fn insert_then_get_returns_the_value() {
    let mut annotations = Annotations::new();
    annotations.insert(s("a"), s("1"));
    annotations.insert(s("b"), s("2"));
    assert_eq!(annotations.get("a"), Some(&s("1")));
    assert_eq!(annotations.get("b"), Some(&s("2")));
    assert_eq!(annotations.get("c"), None);
}

#[test]
fn insert_replaces_the_value_of_a_present_key() {
    let mut annotations = Annotations::new();
    annotations.insert(s("a"), s("1"));
    annotations.insert(s("b"), s("2"));
    annotations.insert(s("a"), s("3"));
    assert_eq!(annotations.get("a"), Some(&s("3")));
    assert_eq!(annotations.get("b"), Some(&s("2")));
    annotations.remove("a");
    assert_eq!(annotations.get("a"), None);
}

#[test]
fn remove_takes_out_only_the_key() {
    let mut annotations = Annotations::new();
    annotations.insert(s("a"), s("1"));
    annotations.insert(s("b"), s("2"));
    annotations.insert(s("c"), s("3"));
    annotations.remove("b");
    assert_eq!(annotations.get("a"), Some(&s("1")));
    assert_eq!(annotations.get("b"), None);
    assert_eq!(annotations.get("c"), Some(&s("3")));
    annotations.remove("a");
    annotations.remove("c");
    assert_eq!(annotations.get("a"), None);
    assert_eq!(annotations.get("c"), None);
}

#[test]
fn remove_of_an_absent_key_changes_nothing() {
    let mut annotations = Annotations::new();
    annotations.insert(s("a"), s("1"));
    annotations.remove("b");
    annotations.remove("");
    assert_eq!(annotations.get("a"), Some(&s("1")));
}

#[test]
fn has_value_wants_the_exact_value() {
    let mut annotations = Annotations::new();
    annotations.insert(s("a"), s("nlb"));
    assert!(annotations.has_value("a", "nlb"));
    assert!(!annotations.has_value("a", "NLB"));
    assert!(!annotations.has_value("a", "nlb "));
    assert!(!annotations.has_value("a", ""));
    assert!(!annotations.has_value("b", "nlb"));
}

#[test]
fn keys_are_told_apart_exactly() {
    let mut annotations = Annotations::new();
    annotations.insert(s("key"), s("1"));
    annotations.insert(s("key "), s("2"));
    annotations.insert(s("Key"), s("3"));
    annotations.insert(s(""), s("4"));
    assert_eq!(annotations.get("key"), Some(&s("1")));
    assert_eq!(annotations.get("key "), Some(&s("2")));
    assert_eq!(annotations.get("Key"), Some(&s("3")));
    assert_eq!(annotations.get(""), Some(&s("4")));
}

#[test]
fn a_clone_holds_the_same_and_lives_apart() {
    let mut annotations = Annotations::new();
    annotations.insert(s("a"), s("1"));
    let mut copy = annotations.clone();
    assert_eq!(copy.get("a"), Some(&s("1")));
    copy.insert(s("a"), s("2"));
    copy.insert(s("b"), s("3"));
    assert_eq!(annotations.get("a"), Some(&s("1")));
    assert_eq!(annotations.get("b"), None);
    assert_eq!(copy.get("a"), Some(&s("2")));
}
