use agent_server::states::{
    contact_card_identify, identify_login_state, login_account_identify, login_account_reduce,
    login_loading_identify, login_qr_identify, network_proxy_identify, network_proxy_reduce,
    settings_identify, settings_modal_identify, settings_reduce,
};
use agent_server::types::{A11yNode, AppState, Bounds, MainWindowView};

fn node(role: &str, name: &str, bounds: Option<Bounds>, states: Option<Vec<&str>>, children: Vec<A11yNode>) -> A11yNode {
    A11yNode {
        role: role.into(),
        name: name.into(),
        bounds,
        children: if children.is_empty() { None } else { Some(children) },
        parent_index: None,
        window: None,
        states: states.map(|v| v.into_iter().map(String::from).collect()),
    }
}

fn b(x: i32) -> Option<Bounds> {
    Some(Bounds { x, y: 0, width: 10, height: 10 })
}

#[test]
fn settings_window_and_modal() {
    let plain = node("desktop-frame", "", None, None, vec![node(
        "frame", "Settings", b(1), None,
        vec![node("push-button", "Log Out", b(2), None, vec![]), node("push-button", "My Account", b(3), None, vec![])],
    )]);
    assert!(settings_identify(&plain).identified);
    assert!(!settings_modal_identify(&plain).identified);
    let s = settings_reduce(AppState::initial(), &plain, false);
    let st = s.settings.unwrap();
    assert_eq!(st.logout_button_bounds, b(2));
    assert_eq!(st.my_account_bounds, b(3));
    assert_eq!(st.modal_ok_bounds, None);
    let modal = node("desktop-frame", "", None, None, vec![node(
        "frame", "Settings", b(1), None,
        vec![node("push-button", "OK", b(4), None, vec![]), node("push-button", "Cancel", b(5), None, vec![])],
    )]);
    assert!(settings_modal_identify(&modal).identified);
    assert!(!settings_identify(&modal).identified);
    assert_eq!(settings_reduce(AppState::initial(), &modal, true).settings.unwrap().modal_cancel_bounds, b(5));
    let none = node("desktop-frame", "", None, None, vec![]);
    assert!(!settings_identify(&none).identified);
    assert!(settings_reduce(AppState::initial(), &none, true).settings.is_none());
}

#[test]
fn login_screens() {
    let qr = node("frame", "Weixin", b(0), None, vec![
        node("label", "Scan to log in to Weixin", None, None, vec![]),
        node("push-button", "Transfer files only", None, None, vec![]),
    ]);
    assert!(login_qr_identify(&qr, Some("http://weixin.qq.com/x/abc")).identified);
    assert!(!login_qr_identify(&qr, Some("https://example.com")).identified);
    assert!(!login_qr_identify(&qr, None).identified);
    assert_eq!(identify_login_state(&qr, Some("http://weixin.qq.com/x/abc")).map(|(id, _)| id), Some("login_qr"));
    let account = node("frame", "Weixin", b(0), None, vec![
        node("label", "Current User Alice ", None, None, vec![]),
        node("push-button", "Log In", None, None, vec![]),
        node("push-button", "Switch Account", None, None, vec![]),
    ]);
    assert!(login_account_identify(&account).identified);
    let s = login_account_reduce(AppState::initial(), &account);
    assert_eq!(s.main_window.view, MainWindowView::LoginAccount);
    assert_eq!(s.main_window.account_name, Some("Alice".into()));
    let loading = node("frame", "Weixin", b(0), None, vec![
        node("push-button", "Weixin", None, None, vec![]),
        node("push-button", "Contacts", None, None, vec![]),
    ]);
    assert!(login_loading_identify(&loading).identified);
    assert_eq!(identify_login_state(&loading, None).map(|(id, _)| id), Some("login_loading"));
    let proxy = node("frame", "Weixin", b(0), None, vec![
        node("label", "Network proxy settings", None, None, vec![]),
        node("check-box", "Use proxy", None, Some(vec!["CHECKED"]), vec![]),
    ]);
    assert!(network_proxy_identify(&proxy).identified);
    let s = network_proxy_reduce(AppState::initial(), &proxy);
    assert_eq!(s.main_window.proxy_enabled, Some(true));
    assert_eq!(s.main_window.proxy_save_failed, Some(false));
    assert!(identify_login_state(&node("frame", "", None, None, vec![]), None).is_none());
    let card = node("frame", "", None, None, vec![node("label", "WeChat ID:", None, None, vec![])]);
    assert!(contact_card_identify(&card).identified);
}
