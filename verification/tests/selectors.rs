use agent_server::selectors::{query_selector, query_selector_all};
use agent_server::types::A11yNode;

fn node(role: &str, name: &str, children: Option<Vec<A11yNode>>) -> A11yNode {
    A11yNode {
        role: role.into(),
        name: name.into(),
        bounds: None,
        children,
        parent_index: None,
        window: None,
        states: None,
    }
}

fn messages_tree() -> A11yNode {
    node(
        "desktop-frame",
        "main",
        Some(vec![node(
            "list",
            "Messages",
            Some(vec![
                node("list-item", "08:35", None),
                node("list-item", "Audio2\u{201d}sec\n", None),
                node("list-item", "Audio2\u{201d}secUnplay\n", None),
            ]),
        )]),
    )
}

#[test]
fn test_audio_unplay_selector_with_s_flag() {
    let tree = messages_tree();
    let results = query_selector_all(
        &tree,
        r#"list[name="Messages"] > list-item[name=/^Audio.*Unplay/s]"#,
    );
    assert_eq!(results.len(), 1, "should find 1 unplayed audio item");
    assert!(results[0].name.contains("Unplay"));
}

#[test]
fn test_dot_does_not_match_newline_without_s_flag() {
    let tree = node("root", "", Some(vec![node("item", "Hello\nWorld", None)]));
    let results = query_selector_all(&tree, r#"item[name=/Hello.*World/]"#);
    assert_eq!(results.len(), 0);
    let results = query_selector_all(&tree, r#"item[name=/Hello.*World/s]"#);
    assert_eq!(results.len(), 1);
}

#[test]
fn test_audio_unplay_with_plain_quote() {
    let tree = node(
        "desktop-frame",
        "main",
        Some(vec![node(
            "list",
            "Messages",
            Some(vec![node("list-item", "Audio2\"secUnplay\n", None)]),
        )]),
    );
    let results = query_selector_all(
        &tree,
        r#"list[name="Messages"] > list-item[name=/^Audio.*Unplay/s]"#,
    );
    assert_eq!(results.len(), 1);
}

#[test]
fn test_regex_case_insensitive_flag() {
    let tree = node(
        "root",
        "",
        Some(vec![node("button", "Submit", None), node("button", "cancel", None)]),
    );
    let results = query_selector_all(&tree, r#"button[name=/submit/i]"#);
    assert_eq!(results.len(), 1);
    assert_eq!(results[0].name, "Submit");
}

#[test]
fn test_child_combinator_query_selector() {
    let tree = messages_tree();
    let result = query_selector(&tree, r#"list[name="Messages"] > list-item"#);
    assert!(result.is_some(), "should find first list-item child");
    assert_eq!(result.unwrap().name, "08:35");
}

#[test]
fn test_child_combinator_query_selector_all() {
    let tree = messages_tree();
    let results = query_selector_all(&tree, r#"list[name="Messages"] > list-item"#);
    assert_eq!(results.len(), 3, "should find all 3 list-item children");
}

#[test]
fn test_descendant_combinator() {
    let tree = messages_tree();
    let results = query_selector_all(&tree, r#"list-item"#);
    assert_eq!(results.len(), 3);
}

#[test]
fn test_regex_combined_flags() {
    let tree = node("root", "", Some(vec![node("item", "Hello\nWorld", None)]));
    let results = query_selector_all(&tree, r#"item[name=/hello.*world/is]"#);
    assert_eq!(results.len(), 1);
}

#[test]
fn first_match_is_head_of_all_matches() {
    let tree = messages_tree();
    for sel in ["list-item", "list", "button", "list[name=\"Messages\"] > list-item[name=/sec/]"] {
        let first = query_selector(&tree, sel).map(|n| n.name.clone());
        let all: Vec<String> = query_selector_all(&tree, sel).iter().map(|n| n.name.clone()).collect();
        assert_eq!(first, all.first().cloned());
    }
}
