use agent_server::login_ws::{
    default_timeout, event_field, fallback_event, is_terminal_login_event, login_ws_start,
    login_ws_step, subscription_event_to_login_event, LoginWsAction, LoginWsEvent, PlanOutcome,
};
use agent_server::types::{LoginSubscriptionEvent, SubscriptionEvent};

fn ev(kind: &str, data: &[(&str, &str)]) -> SubscriptionEvent {
    SubscriptionEvent {
        event_type: kind.into(),
        data: data.iter().map(|(k, v)| (k.to_string(), v.to_string())).collect(),
    }
}

#[test]
fn plan_events_become_login_events() {
    match subscription_event_to_login_event(ev("status", &[("message", "hi")]), None) {
        LoginSubscriptionEvent::Status { message } => assert_eq!(message, "hi"),
        _ => panic!(),
    }
    match subscription_event_to_login_event(ev("status", &[]), None) {
        LoginSubscriptionEvent::Status { message } => assert_eq!(message, ""),
        _ => panic!(),
    }
    match subscription_event_to_login_event(ev("qr", &[("qrData", "http://weixin.qq.com/x/a")]), Some("data:x".into())) {
        LoginSubscriptionEvent::Qr { qr_data, qr_binary_data, qr_data_url } => {
            assert_eq!(qr_data, "http://weixin.qq.com/x/a");
            assert!(qr_binary_data.is_none());
            assert_eq!(qr_data_url, Some("data:x".into()));
        }
        _ => panic!(),
    }
    match subscription_event_to_login_event(ev("login_success", &[("userId", "wxid_1")]), None) {
        LoginSubscriptionEvent::LoginSuccess { user_id } => assert_eq!(user_id, Some("wxid_1".into())),
        _ => panic!(),
    }
    match subscription_event_to_login_event(ev("error", &[]), None) {
        LoginSubscriptionEvent::Error { message } => assert_eq!(message, "Unknown error"),
        _ => panic!(),
    }
    match subscription_event_to_login_event(ev("weird", &[]), None) {
        LoginSubscriptionEvent::Status { message } => assert_eq!(message, "Unknown event: weird"),
        _ => panic!(),
    }
    assert!(matches!(
        subscription_event_to_login_event(ev("login_timeout", &[]), None),
        LoginSubscriptionEvent::LoginTimeout
    ));
    assert_eq!(event_field(&ev("x", &[("a", "1"), ("a", "2")]), "a"), Some("1".into()));
}

#[test]
fn terminal_events() {
    assert!(is_terminal_login_event(&LoginSubscriptionEvent::LoginTimeout));
    assert!(is_terminal_login_event(&LoginSubscriptionEvent::Error { message: "x".into() }));
    assert!(is_terminal_login_event(&LoginSubscriptionEvent::LoginSuccess { user_id: None }));
    assert!(!is_terminal_login_event(&LoginSubscriptionEvent::Status { message: "x".into() }));
    assert_eq!(default_timeout(), 300_000);
}

#[test]
fn socket_loop_and_fallback() {
    let s = login_ws_start();
    let (s, a) = login_ws_step(s, LoginWsEvent::Plan(LoginSubscriptionEvent::Status { message: "m".into() }));
    assert!(matches!(a, LoginWsAction::Send(_)));
    assert!(!s.sent_terminal);
    let (s2, a) = login_ws_step(s, LoginWsEvent::PlanFinished);
    assert!(matches!(a, LoginWsAction::Stop { cancel: false }));
    // The plan ended without a final event: success is owed.
    match fallback_event(s2, PlanOutcome::Finished { success: true, error: None }) {
        Some(LoginSubscriptionEvent::LoginSuccess { user_id: None }) => {}
        _ => panic!(),
    }
    match fallback_event(s2, PlanOutcome::Finished { success: false, error: Some("Execution timeout after 5s".into()) }) {
        Some(LoginSubscriptionEvent::LoginTimeout) => {}
        _ => panic!(),
    }
    match fallback_event(s2, PlanOutcome::Finished { success: false, error: None }) {
        Some(LoginSubscriptionEvent::Error { message }) => assert_eq!(message, "Login failed"),
        _ => panic!(),
    }
    match fallback_event(s2, PlanOutcome::Lost) {
        Some(LoginSubscriptionEvent::Error { message }) => assert_eq!(message, "Login execution task failed"),
        _ => panic!(),
    }
    // After the server's timeout nothing more is sent.
    let (t, a) = login_ws_step(login_ws_start(), LoginWsEvent::Timeout);
    assert!(matches!(a, LoginWsAction::CancelSendStop(LoginSubscriptionEvent::LoginTimeout)));
    assert!(fallback_event(t, PlanOutcome::Finished { success: false, error: Some("Aborted".into()) }).is_none());
    // A gone client is owed nothing.
    let (g, a) = login_ws_step(login_ws_start(), LoginWsEvent::ClientGone);
    assert!(matches!(a, LoginWsAction::Stop { cancel: true }));
    assert!(fallback_event(g, PlanOutcome::Lost).is_none());
}
