use agent_server::ui_open_chat::{
    choose_search_editable, needs_pre_search_unfocus, OpenChatAction, OpenChatEvent, OpenChatOptions, OpenChatRun,
    Rect,
};

fn r(y: i32) -> Rect {
    Rect { x: 0, y, w: 200, h: 30 }
}

#[test]
fn topmost_editable_beats_focused_bottom_composer() {
    let search_box = (14usize, r(69), false);
    let composer = (16usize, r(697), true);
    let chosen = choose_search_editable(&[composer, search_box]).unwrap();
    assert_eq!(chosen.1.y, 69);
    assert!(!chosen.2, "must not pick the focused composer");
}

#[test]
fn focused_does_not_auto_win() {
    let top = (14usize, r(45), false);
    let focused_bottom = (16usize, r(700), true);
    assert_eq!(choose_search_editable(&[top, focused_bottom]).unwrap().1.y, 45);
}

#[test]
fn single_editable_is_chosen() {
    assert_eq!(choose_search_editable(&[(14usize, r(50), true)]).unwrap().1.y, 50);
}

#[test]
fn no_editable_is_none() {
    assert!(choose_search_editable(&[]).is_none());
}

#[test]
fn send_safe_with_chat_open_needs_unfocus() {
    assert!(needs_pre_search_unfocus(true, true));
}

#[test]
fn send_safe_with_no_chat_open_skips_unfocus() {
    assert!(!needs_pre_search_unfocus(true, false));
}

#[test]
fn non_send_safe_never_unfocuses() {
    assert!(!needs_pre_search_unfocus(false, true));
    assert!(!needs_pre_search_unfocus(false, false));
}

fn bare_tree() -> agent_server::types::A11yNode {
    agent_server::types::A11yNode {
        role: "frame".to_string(),
        name: "Weixin".to_string(),
        bounds: None,
        children: None,
        parent_index: None,
        window: None,
        states: None,
    }
}

#[test]
fn send_safe_run_never_presses_return() {
    let (mut run, mut action) = OpenChatRun::start("wxid_bob", OpenChatOptions::send_safe());
    let mut steps = 0;
    let outcome = loop {
        steps += 1;
        assert!(steps < 100);
        let event = match action {
            OpenChatAction::Finish(o) => break o,
            OpenChatAction::ResolveTarget(_) => OpenChatEvent::Resolved(Ok(("Bob".to_string(), false))),
            OpenChatAction::FindMainWindow => {
                OpenChatEvent::Window(Some(("7".to_string(), Rect { x: 0, y: 0, w: 800, h: 600 })))
            }
            OpenChatAction::Xdotool(args) => {
                assert!(!args.iter().any(|a| a == "Return" || a == "Down"));
                OpenChatEvent::Done
            }
            OpenChatAction::Sleep(_) => OpenChatEvent::Done,
            OpenChatAction::ReadTree => OpenChatEvent::Tree(Some(bare_tree())),
        };
        assert!(run.accepts(&event));
        action = run.step(event);
    };
    assert_eq!(outcome.error, Some("keyboard_fallback_suppressed"));
    assert!(!outcome.open_confirmed);
}
