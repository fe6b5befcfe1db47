use scheme_cycler::cycler::{
    apply_substitution, compile_reference_pattern, cycle_color_scheme, find_active_reference,
    make_reference_line, next_anchor, ActiveReference, ReferencePattern, CS_LINE_PATTERN,
};
use scheme_cycler::error::CycleError;

const CONFIG: &str = "schemes:\n  alpha: &alpha\n    primary:\n      background: '#000000'\n  beta: &beta\n    primary:\n      background: '#111111'\n  gamma: &gamma\n    primary:\n      background: '#222222'\ncolors: *alpha\n";

fn strings(items: &[&str]) -> Vec<String> {
    items.iter().map(|s| s.to_string()).collect()
}

fn lines_of(text: &str) -> Vec<String> {
    text.lines().map(|s| s.to_string()).collect()
}

fn standard() -> ReferencePattern {
    compile_reference_pattern(CS_LINE_PATTERN).unwrap()
}

#[test]
fn standard_pattern_is_the_documented_one() {
    assert_eq!(CS_LINE_PATTERN, r"colors: \*(\S+)");
    assert_eq!(standard().as_str(), r"colors: \*(\S+)");
    assert_eq!(compile_reference_pattern("a(b)c").unwrap().as_str(), "a(b)c");
}

#[test]
fn invalid_pattern_is_rejected() {
    let result = compile_reference_pattern("colors: (unclosed");
    assert!(matches!(result, Err(CycleError::InvalidPattern(_))));
}

#[test]
fn last_match_wins() {
    let lines = strings(&["colors: *foo", "colors: *bar"]);
    let found = find_active_reference(&lines, &standard()).unwrap();
    assert_eq!(found.line_index, 1);
    assert_eq!(found.anchor, "bar");
}

#[test]
fn reference_is_found_among_other_lines() {
    let lines = strings(&["font: 1", "  colors: *foo  # active", "size: 2"]);
    let found = find_active_reference(&lines, &standard()).unwrap();
    assert_eq!(found.line_index, 1);
    assert_eq!(found.anchor, "foo");
}

#[test]
fn last_match_within_a_line_wins() {
    let lines = strings(&["colors: *one colors: *two"]);
    let found = find_active_reference(&lines, &standard()).unwrap();
    assert_eq!(found.line_index, 0);
    assert_eq!(found.anchor, "two");
}

#[test]
fn no_matching_line_gives_no_active_scheme() {
    let lines = strings(&["colors: foo", "colors:*bar", "colors: * ", "color: *baz"]);
    let result = find_active_reference(&lines, &standard());
    assert!(matches!(result, Err(CycleError::NoActiveSchemeFound)));
}

#[test]
fn no_lines_gives_no_active_scheme() {
    let result = find_active_reference(&Vec::new(), &standard());
    assert!(matches!(result, Err(CycleError::NoActiveSchemeFound)));
}

#[test]
fn pattern_without_group_matches_nothing() {
    let pattern = compile_reference_pattern("colors").unwrap();
    let result = find_active_reference(&strings(&["colors: *foo"]), &pattern);
    assert!(matches!(result, Err(CycleError::NoActiveSchemeFound)));
}

#[test]
fn next_anchor_is_the_following_one() {
    let anchors = strings(&["alpha", "beta", "gamma"]);
    assert_eq!(next_anchor(&anchors, "alpha").unwrap(), "beta");
    assert_eq!(next_anchor(&anchors, "beta").unwrap(), "gamma");
}

#[test]
fn next_anchor_is_a_member_of_the_list() {
    let anchors = strings(&["alpha", "beta", "gamma"]);
    for current in ["alpha", "beta", "gamma"] {
        let next = next_anchor(&anchors, current).unwrap();
        assert!(anchors.contains(&next));
    }
}

#[test]
fn next_anchor_wraps_around() {
    let anchors = strings(&["alpha", "beta", "gamma"]);
    assert_eq!(next_anchor(&anchors, "gamma").unwrap(), "alpha");
}

#[test]
fn single_anchor_follows_itself() {
    let anchors = strings(&["only"]);
    assert_eq!(next_anchor(&anchors, "only").unwrap(), "only");
}

#[test]
fn first_occurrence_decides() {
    let anchors = strings(&["a", "b", "a", "c"]);
    assert_eq!(next_anchor(&anchors, "a").unwrap(), "b");
    let wrapped = strings(&["a", "b", "a"]);
    assert_eq!(next_anchor(&wrapped, "a").unwrap(), "b");
}

#[test]
fn unknown_anchor_fails() {
    let anchors = strings(&["alpha", "beta"]);
    match next_anchor(&anchors, "ghost") {
        Err(CycleError::AnchorNotInCatalog(name)) => assert_eq!(name, "ghost"),
        other => panic!("unexpected result: {:?}", other),
    }
}

#[test]
fn empty_catalog_fails() {
    let result = next_anchor(&Vec::new(), "alpha");
    assert!(matches!(result, Err(CycleError::AnchorNotInCatalog(_))));
}

#[test]
fn reference_line_has_the_exact_format() {
    assert_eq!(make_reference_line("beta"), "colors: *beta");
    assert_eq!(make_reference_line(""), "colors: *");
}

#[test]
fn substitution_changes_one_line() {
    let lines = strings(&["first", "  colors: *alpha # note", "third"]);
    let reference = ActiveReference { line_index: 1, anchor: "alpha".to_string() };
    let out = apply_substitution(lines.clone(), &reference, "beta");
    assert_eq!(out.len(), lines.len());
    assert_eq!(out[0], lines[0]);
    assert_eq!(out[1], "colors: *beta");
    assert_eq!(out[2], lines[2]);
}

#[test]
fn round_trip_format() {
    let lines = lines_of(CONFIG);
    let out = cycle_color_scheme(CONFIG, lines.clone()).unwrap();
    assert_eq!(out.len(), lines.len());
    for (i, line) in lines.iter().enumerate() {
        if i == 10 {
            assert_eq!(out[i], "colors: *beta");
        } else {
            assert_eq!(&out[i], line);
        }
    }
}

#[test]
fn cycling_thrice_comes_back() {
    let mut text = CONFIG.to_string();
    let mut seen = Vec::new();
    for _ in 0..3 {
        let out = cycle_color_scheme(&text, lines_of(&text)).unwrap();
        seen.push(out[10].clone());
        text = out.join("\n") + "\n";
    }
    assert_eq!(seen, strings(&["colors: *beta", "colors: *gamma", "colors: *alpha"]));
    assert_eq!(text, CONFIG);
}

#[test]
fn cycle_rejects_malformed_document() {
    let text = "key: [unclosed\ncolors: *alpha\n";
    let result = cycle_color_scheme(text, lines_of(text));
    assert!(matches!(result, Err(CycleError::MalformedDocument(_))));
}

#[test]
fn cycle_without_reference_fails() {
    let text = "a: &alpha 1\nb: &beta 2\n";
    let result = cycle_color_scheme(text, lines_of(text));
    assert!(matches!(result, Err(CycleError::NoActiveSchemeFound)));
    let bare = "font: 1\n";
    let result = cycle_color_scheme(bare, lines_of(bare));
    assert!(matches!(result, Err(CycleError::NoActiveSchemeFound)));
}

#[test]
fn cycle_with_unknown_anchor_reports_the_line() {
    let text = "a: &alpha 1\nb: &beta 2\n# colors: *ghost\n";
    match cycle_color_scheme(text, lines_of(text)) {
        Err(CycleError::AnchorNotInCatalog(line)) => assert_eq!(line, "# colors: *ghost"),
        other => panic!("unexpected result: {:?}", other),
    }
}

#[test]
fn cycle_with_empty_catalog_fails() {
    let text = "font: 1\n# colors: *alpha\n";
    let result = cycle_color_scheme(text, lines_of(text));
    assert!(matches!(result, Err(CycleError::AnchorNotInCatalog(_))));
}

#[test]
fn cycle_uses_the_last_reference_line() {
    let text = "a: &alpha 1\nb: &beta 2\n# colors: *beta\ncolors: *alpha\n";
    let out = cycle_color_scheme(text, lines_of(text)).unwrap();
    assert_eq!(out, strings(&["a: &alpha 1", "b: &beta 2", "# colors: *beta", "colors: *beta"]));
}

#[test]
fn messages_name_the_failure() {
    assert_eq!(
        CycleError::NoActiveSchemeFound.message(),
        "Could not find set colorscheme inside config"
    );
    assert_eq!(
        CycleError::AnchorNotInCatalog("colors: *ghost".to_string()).message(),
        "Anchor `colors: *ghost` not found"
    );
}

#[test]
fn outside_messages_are_passed_on() {
    let text = "key: [unclosed\nother: value\n";
    let expected = yaml_rust::YamlLoader::load_from_str(text).unwrap_err().to_string();
    assert_eq!(scheme_cycler::catalog::get_cs_anchors(text).unwrap_err().message(), expected);
    let expected = regex::Regex::new("(").unwrap_err().to_string();
    assert_eq!(compile_reference_pattern("(").unwrap_err().message(), expected);
}
