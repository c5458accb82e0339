use agent_server::aria::{command_error, tree_to_aria};
use agent_server::execution::{action_steps, window_activate_args, Step};
use agent_server::popups::{
    close_targets, in_update_popup_geometry, is_update_popup_candidate, is_weixin_named,
    popups_closed, popups_outcome, window_ids, window_info, WinInfo,
};
use agent_server::types::{A11yNode, Action, Bounds, FrameHint, ScrollDirection, SubscriptionEvent};

fn win(id: &str, name: &str, w: i32, h: i32) -> WinInfo {
    WinInfo { id: id.into(), name: name.into(), x: 100, y: 50, w, h }
}

#[test]
fn update_popup_is_closed_only_beside_the_main_window() {
    assert!(is_weixin_named("Weixin 4.1.1"));
    assert!(is_weixin_named("微信"));
    assert!(!is_weixin_named("Terminal"));
    assert!(in_update_popup_geometry(&win("1", "x", 550, 410)));
    assert!(!in_update_popup_geometry(&win("1", "x", 550, 700)));
    assert!(is_update_popup_candidate(&win("1", "Weixin 4.1.1", 550, 410)));
    let ws = vec![win("1", "Weixin 4.1.1", 550, 410), win("2", "Weixin", 1280, 800)];
    let t = close_targets(&ws);
    assert_eq!(t.len(), 1);
    assert_eq!(t[0], ("1".to_string(), 100 + 550 - 18, 50 + 24));
    // Without the main window nothing is clicked.
    let alone = vec![win("1", "Weixin 4.1.1", 550, 410)];
    assert!(close_targets(&alone).is_empty());
    assert!(popups_closed(&Some(vec![win("2", "Weixin", 1280, 800)]), 1));
    assert!(!popups_closed(&Some(alone), 1));
    assert!(popups_closed(&None, 1));
    assert!(!popups_closed(&None, 0));
    let o = popups_outcome(2, 1, true);
    assert!(o.popup_detected && o.popup_closed && o.closed_count == 1);
    assert_eq!(o.popup_type, Some("weixin_update"));
    let none = popups_outcome(3, 0, true);
    assert!(!none.popup_detected && !none.popup_closed && none.popup_type.is_none());
}

#[test]
fn window_listing_is_parsed() {
    assert_eq!(window_ids(" 12\n\n34 \n"), vec!["12".to_string(), "34".to_string()]);
    let w = window_info("9".into(), " Weixin \n", "WINDOW=9\nX=10\nY=20\nWIDTH=550\nHEIGHT=410\nSCREEN=0\n");
    assert_eq!(w.name, "Weixin");
    assert_eq!((w.x, w.y, w.w, w.h), (10, 20, 550, 410));
}

fn node(role: &str, name: &str, bounds: Option<Bounds>, states: Option<Vec<&str>>, children: Vec<A11yNode>) -> A11yNode {
    A11yNode {
        role: role.into(),
        name: name.into(),
        bounds,
        children: if children.is_empty() { None } else { Some(children) },
        parent_index: None,
        window: None,
        states: states.map(|v| v.into_iter().map(String::from).collect()),
    }
}

#[test]
fn aria_text_of_a_tree() {
    let tree = node(
        "frame",
        "Weixin",
        Some(Bounds { x: 0, y: 0, width: 800, height: 600 }),
        None,
        vec![
            node("push-button", "Send", None, Some(vec!["FOCUSED", "ENABLED"]), vec![]),
            node("filler", "", None, Some(vec![]), vec![]),
        ],
    );
    assert_eq!(
        tree_to_aria(&tree, 0),
        "- frame \"Weixin\" @(0,0 800x600)\n  - push-button \"Send\" [FOCUSED,ENABLED]\n  - filler"
    );
    assert_eq!(tree_to_aria(&node("label", "", None, None, vec![]), 2), "    - label");
    assert_eq!(command_error(String::new(), "out"), "out");
    assert_eq!(command_error("err".into(), "out"), "err");
}

#[test]
fn actions_become_helper_calls() {
    let tree = node(
        "frame",
        "",
        None,
        None,
        vec![node("push-button", "OK", Some(Bounds { x: 10, y: 10, width: 21, height: 10 }), None, vec![])],
    );
    let frame = FrameHint { name: None, bounds: Bounds { x: 1, y: 2, width: 3, height: 4 }, pid: Some(77) };
    assert_eq!(
        window_activate_args(Some(&frame)),
        vec!["--window", "77", "1", "2", "3", "4", "--"]
    );
    assert!(window_activate_args(None).is_empty());
    let action = Action::Sequence {
        actions: vec![
            Action::ClickSelector { selector: "push-button[name=\"OK\"]".into() },
            Action::ClickSelector { selector: "push-button[name=\"Nope\"]".into() },
            Action::Wait { ms: 5 },
            Action::Scroll { direction: ScrollDirection::Down, x: None, y: None, amount: Some(3) },
            Action::Emit { event: SubscriptionEvent { event_type: "status".into(), data: vec![("message".into(), "m".into())] } },
        ],
    };
    let mut steps = Vec::new();
    action_steps(&action, Some(&frame), &tree, &mut steps);
    assert_eq!(steps.len(), 4);
    match &steps[0] {
        Step::Run { program, args } => {
            assert_eq!(*program, "click");
            assert_eq!(args, &vec!["--window", "77", "1", "2", "3", "4", "--", "21", "15"]);
        }
        _ => panic!(),
    }
    assert!(matches!(steps[1], Step::Sleep { ms: 5 }));
    match &steps[2] {
        Step::Run { program, args } => {
            assert_eq!(*program, "scroll");
            assert_eq!(args, &vec!["down", "3"]);
        }
        _ => panic!(),
    }
    match &steps[3] {
        Step::Emit { event } => assert_eq!(event.event_type, "status"),
        _ => panic!(),
    }
}
