use agent_server::plans::receive_transfer::{
    click_transfer_card, find_transfer_dialog_frame, is_receivable_transfer_item_name,
    success_selector, window_close_selector,
};
use agent_server::plans::send_message::find_edit_send_pair;
use agent_server::types::{A11yNode, Action, Bounds};

fn node(role: &str, name: &str, children: Vec<A11yNode>) -> A11yNode {
    A11yNode {
        role: role.to_string(),
        name: name.to_string(),
        bounds: None,
        children: if children.is_empty() { None } else { Some(children) },
        parent_index: None,
        window: None,
        states: None,
    }
}

#[test]
fn transfer_item_matcher_only_accepts_receivable_cards() {
    assert!(is_receivable_transfer_item_name(
        "￥0.10 Confirm receipt WeChat Transfer",
        Some("￥0.10")
    ));
    assert!(!is_receivable_transfer_item_name(
        "￥0.10 Accepted WeChat Transfer",
        Some("￥0.10")
    ));
    assert!(!is_receivable_transfer_item_name(
        "￥0.20 Confirm receipt WeChat Transfer",
        Some("￥0.10")
    ));
}

#[test]
fn transfer_card_click_uses_message_bubble_side() {
    let bounds = Bounds { x: 273, y: 505, width: 1004, height: 111 };
    let incoming = click_transfer_card(&bounds, false);
    let outgoing = click_transfer_card(&bounds, true);
    match incoming {
        Action::ClickCoords { x, y } => {
            assert!(x > 430);
            assert!(x < 620);
            assert_eq!(y, 561);
        }
        _ => panic!("expected incoming click coords"),
    }
    match outgoing {
        Action::ClickCoords { x, y } => {
            assert!(x > 930);
            assert!(x < 1120);
            assert_eq!(y, 561);
        }
        _ => panic!("expected outgoing click coords"),
    }
}

#[test]
fn dialog_frame_search_skips_main_chat_frame() {
    let main_frame = node(
        "frame",
        "Weixin",
        vec![
            node("tool-bar", "", vec![node("push-button", "Disable", vec![])]),
            node("list", "Chats", vec![]),
            node(
                "list",
                "Messages",
                vec![node("list-item", "￥1.00 Accepted WeChat Transfer", vec![])],
            ),
        ],
    );
    let dialog_frame = || node(
        "frame",
        "Weixin",
        vec![
            node("tool-bar", "", vec![node("push-button", "Disable", vec![])]),
            node(
                "label",
                "You've accepted the transfer. The money has been deposited to your Balance.",
                vec![],
            ),
        ],
    );
    let desktop = node(
        "desktop-frame",
        "main",
        vec![node("application", "wechat", vec![main_frame, dialog_frame()])],
    );
    let success_frame = find_transfer_dialog_frame(&desktop, success_selector());
    let close_frame = find_transfer_dialog_frame(&desktop, window_close_selector());
    assert!(success_frame.is_some());
    assert!(close_frame.is_some());
    assert!(success_frame.is_some_and(|frame| frame.name == dialog_frame().name));
    assert!(close_frame.is_some_and(|frame| frame.name == dialog_frame().name));
}

fn editor(y: i32) -> A11yNode {
    A11yNode {
        role: "text".into(),
        name: String::new(),
        bounds: Some(Bounds { x: 300, y, width: 650, height: 80 }),
        children: None,
        parent_index: None,
        window: None,
        states: Some(vec!["EDITABLE".into()]),
    }
}

fn send(name: &str) -> A11yNode {
    A11yNode {
        role: "push-button".into(),
        name: name.into(),
        bounds: Some(Bounds { x: 890, y: 700, width: 55, height: 24 }),
        children: None,
        parent_index: None,
        window: None,
        states: Some(vec!["DISABLED".into()]),
    }
}

fn group(children: Vec<A11yNode>) -> A11yNode {
    node("filler", "", children)
}

#[test]
fn legacy_sibling_composer() {
    let tree = group(vec![editor(610), send("Send(S)")]);
    assert!(find_edit_send_pair(&tree).is_some());
}

#[test]
fn nested_new_composer_with_search_field() {
    let composer = group(vec![
        group(vec![editor(610)]),
        group(vec![group(vec![send("Send Voice"), send("Send")])]),
    ]);
    let tree = group(vec![editor(45), composer]);
    let (edit, button) = find_edit_send_pair(&tree).unwrap();
    assert_eq!(edit.bounds.as_ref().unwrap().y, 610);
    assert_eq!(button.name, "Send");
}

#[test]
fn does_not_pair_search_field_with_send() {
    let tree = group(vec![group(vec![editor(45)]), group(vec![send("Send")])]);
    assert!(find_edit_send_pair(&tree).is_none());
}

#[test]
fn rejects_ambiguous_editors_and_voice_button() {
    let tree = group(vec![group(vec![editor(610), editor(610)]), group(vec![send("Send")])]);
    assert!(find_edit_send_pair(&tree).is_none());
    let voice = group(vec![editor(610), send("Send Voice")]);
    assert!(find_edit_send_pair(&voice).is_none());
}
