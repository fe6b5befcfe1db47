use scheme_cycler::catalog::get_cs_anchors;
use scheme_cycler::error::CycleError;
use scheme_cycler::text::{last_present_of, present_of};

const CONFIG: &str = "schemes:\n  alpha: &alpha\n    primary:\n      background: '#000000'\n  beta: &beta\n    primary:\n      background: '#111111'\n  gamma: &gamma\n    primary:\n      background: '#222222'\ncolors: *alpha\n";

fn owned(items: &[&str]) -> Vec<String> {
    items.iter().map(|s| s.to_string()).collect()
}

#[test]
fn anchors_come_in_declaration_order() {
    let anchors = get_cs_anchors(CONFIG).unwrap();
    assert_eq!(anchors, owned(&["alpha", "beta", "gamma"]));
}

#[test]
fn anchors_are_not_sorted_by_name() {
    let text = "z: &zulu 1\na: &alpha 2\nm: &mike 3\n";
    assert_eq!(get_cs_anchors(text).unwrap(), owned(&["zulu", "alpha", "mike"]));
}

#[test]
fn reading_twice_gives_the_same_list() {
    let first = get_cs_anchors(CONFIG).unwrap();
    let second = get_cs_anchors(CONFIG).unwrap();
    assert_eq!(first, second);
}

#[test]
fn document_without_anchors_gives_empty_list() {
    let anchors = get_cs_anchors("font:\n  size: 11\n").unwrap();
    assert!(anchors.is_empty());
}

#[test]
fn empty_document_gives_empty_list() {
    assert!(get_cs_anchors("").unwrap().is_empty());
}

#[test]
fn aliases_are_not_declarations() {
    let text = "a: &one 1\nb: *one\nc: &two 2\n";
    assert_eq!(get_cs_anchors(text).unwrap(), owned(&["one", "two"]));
}

#[test]
fn anchor_declared_twice_is_listed_twice() {
    let text = "a: &one 1\nb: &two 2\nc: &one 3\n";
    assert_eq!(get_cs_anchors(text).unwrap(), owned(&["one", "two", "one"]));
}

#[test]
fn anchors_in_flow_collections_are_found() {
    let text = "list: [&first a, &second b]\nmap: {k: &third c}\n";
    assert_eq!(get_cs_anchors(text).unwrap(), owned(&["first", "second", "third"]));
}

#[test]
fn malformed_document_is_rejected() {
    let result = get_cs_anchors("key: [unclosed\nother: value\n");
    assert!(matches!(result, Err(CycleError::MalformedDocument(_))));
}

#[test]
fn alias_to_undeclared_anchor_is_malformed() {
    let result = get_cs_anchors("colors: *ghost\n");
    assert!(matches!(result, Err(CycleError::MalformedDocument(_))));
}

#[test]
fn malformed_document_keeps_the_parser_error() {
    let text = "key: [unclosed\nother: value\n";
    let expected = yaml_rust::YamlLoader::load_from_str(text).unwrap_err();
    match get_cs_anchors(text) {
        Err(CycleError::MalformedDocument(e)) => assert_eq!(e, expected),
        other => panic!("unexpected result: {:?}", other),
    }
}

#[test]
fn last_present_picks_the_last_value() {
    let marks = vec![Some("a".to_string()), None, Some("b".to_string()), None];
    assert_eq!(last_present_of(&marks), Some("b".to_string()));
}

#[test]
fn last_present_of_nothing_is_none() {
    assert_eq!(last_present_of(&vec![None, None]), None);
    assert_eq!(last_present_of(&Vec::new()), None);
}

#[test]
fn present_keeps_values_in_order() {
    let marks = vec![None, Some("x".to_string()), None, Some("y".to_string()), Some("x".to_string())];
    assert_eq!(present_of(&marks), owned(&["x", "y", "x"]));
    assert!(present_of(&vec![None]).is_empty());
}

#[test]
fn ampersands_in_comments_and_strings_declare_nothing() {
    let text = "# &hidden\na: 'x &quoted'\nb: \"&also\"\nc: &real 1\n";
    assert_eq!(get_cs_anchors(text).unwrap(), owned(&["real"]));
}

#[test]
fn anchors_on_nested_nodes_keep_document_order() {
    let text = "outer: &outer\n  inner: &inner\n    leaf: &leaf 1\nnext: &next 2\n";
    assert_eq!(get_cs_anchors(text).unwrap(), owned(&["outer", "inner", "leaf", "next"]));
}
