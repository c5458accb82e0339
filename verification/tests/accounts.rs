use agent_server::auth::{auth_exempt, authorized, choose_token};
use agent_server::health::{monitor_start, probe_scan, process_scan, ProcessStep};
use agent_server::keys::{
    checkpoint_targets, find_key, image_keys, immutable_uri, key_check, key_pragma, keys_output_path,
    parse_hex_u8, KeyCheck,
};
use agent_server::sessions::{
    dbus_address, default_session_current, duplicate_name_error, lock_path, next_display,
    next_vnc_port, session_launches, stop_args, stop_before_delete, xvfb_args,
};

#[test]
fn tokens_and_authorization() {
    assert_eq!(choose_token(Some("env".into()), Some("file".into())), Some("env".into()));
    assert_eq!(choose_token(Some(String::new()), Some(" file \n".into())), Some("file".into()));
    assert_eq!(choose_token(None, Some("  ".into())), None);
    assert!(auth_exempt("/health"));
    assert!(auth_exempt("/vnc/app.js"));
    assert!(!auth_exempt("/vnc/websockify"));
    assert!(!auth_exempt("/api/chats"));
    assert!(authorized("/api/chats", Some("Bearer tok"), None, "tok"));
    assert!(!authorized("/api/chats", Some("Bearer other"), None, "tok"));
    assert!(authorized("/api/chats", None, Some("a=1&token=tok"), "tok"));
    assert!(!authorized("/api/chats", None, Some("token=tok2"), "tok"));
    assert!(authorized("/health", None, None, "tok"));
}

#[test]
fn health_monitor_restarts_after_delay_and_kills_unresponsive() {
    let m = monitor_start(0);
    let (m, step) = process_scan(m, 1000, true);
    assert_eq!(step, ProcessStep::Probe);
    assert!(m.was_running);
    // The client vanishes: the restart waits.
    let (m, step) = process_scan(m, 2000, false);
    assert_eq!(step, ProcessStep::Wait);
    assert_eq!(m.waiting_restart_since, Some(2000));
    let (m, step) = process_scan(m, 4000, false);
    assert_eq!(step, ProcessStep::Wait);
    let (m, step) = process_scan(m, 5000, false);
    assert_eq!(step, ProcessStep::Spawn);
    assert_eq!(m.restart_count, 1);
    assert_eq!(m.waiting_restart_since, None);
    // Unresponsive for a minute: kill.
    let m = monitor_start(0);
    let (m, kill) = probe_scan(m, 59_999, false);
    assert!(!kill);
    let (_, kill) = probe_scan(m, 60_000, false);
    assert!(kill);
    let (m2, kill) = probe_scan(monitor_start(0), 120_000, true);
    assert!(!kill);
    assert_eq!(m2.last_identified, 120_000);
}

fn keys(names: &[&str]) -> Vec<(String, String)> {
    names.iter().map(|n| (n.to_string(), format!("key-{n}"))).collect()
}

#[test]
fn key_extraction_decisions() {
    assert!(matches!(key_check(&Vec::new(), &Vec::new()), KeyCheck::Needed));
    let all = keys(&["session.db", "contact.db", "emoticon.db", "head_image.db", "hardlink.db"]);
    match key_check(&all, &vec!["message_0.db".to_string()]) {
        KeyCheck::Needed => {}
        _ => panic!(),
    }
    match key_check(&all, &vec!["other.db".to_string()]) {
        KeyCheck::SpotCheck(k) => assert_eq!(k, "key-session.db"),
        _ => panic!(),
    }
    assert_eq!(find_key(&all, "contact.db"), Some("key-contact.db".into()));
    assert_eq!(key_pragma("ab"), "PRAGMA key = \"x'ab'\"; PRAGMA cipher_compatibility = 4;");
    assert_eq!(immutable_uri("/x.db"), "file:/x.db?immutable=1");
    assert_eq!(keys_output_path(42), "/tmp/wechat_keys_42.json");
    let mut with_meta = all.clone();
    with_meta.push(("_image_aes".into(), "aes".into()));
    with_meta.push(("_image_xor".into(), "1f".into()));
    assert_eq!(checkpoint_targets(&with_meta).len(), 5);
    assert_eq!(image_keys(&with_meta), Some(("aes".into(), Some(0x1f))));
    assert_eq!(image_keys(&all), None);
    assert_eq!(parse_hex_u8("ff"), Some(255));
    assert_eq!(parse_hex_u8("+0A"), Some(10));
    assert_eq!(parse_hex_u8("100"), None);
    assert_eq!(parse_hex_u8("0001"), Some(1));
    assert_eq!(parse_hex_u8("g"), None);
    assert_eq!(parse_hex_u8(""), None);
    assert_eq!(parse_hex_u8("-1"), None);
}

#[test]
fn session_numbering_and_commands() {
    assert_eq!(next_display(None), (":100".to_string(), "wechat-100".to_string()));
    assert_eq!(next_display(Some(101)), (":102".to_string(), "wechat-102".to_string()));
    assert_eq!(next_vnc_port(None), 5901);
    assert_eq!(next_vnc_port(Some(5905)), 5906);
    assert_eq!(duplicate_name_error("a"), "Session with name \"a\" already exists");
    assert!(default_session_current(":99"));
    assert!(!default_session_current(":100"));
    assert_eq!(lock_path(":99"), "/tmp/.X99-lock");
    assert_eq!(lock_path("::7"), "/tmp/.X7-lock");
    assert_eq!(xvfb_args(":99"), vec![":99", "-screen", "0", "1280x800x24"]);
    assert_eq!(
        dbus_address("DBUS_SESSION_BUS_ADDRESS='unix:path=/tmp/x,guid=1';\nexport X;"),
        "unix:path=/tmp/x,guid=1"
    );
    assert_eq!(dbus_address("nothing"), "");
    let l = session_launches(":99", "wechat", "unix:a", 5900, true);
    assert_eq!(l.len(), 5);
    assert_eq!(l[0].program, "su");
    assert_eq!(l[0].args[3], "DISPLAY=:99 DBUS_SESSION_BUS_ADDRESS=unix:a HOME=/home/wechat fluxbox &");
    assert_eq!(l[3].args, vec!["--web", "/opt/novnc", "127.0.0.1:6080", "localhost:5900"]);
    assert_eq!(session_launches(":99", "wechat", "unix:a", 5900, false).len(), 4);
    let (a, b) = stop_args("wechat", ":99");
    assert_eq!(a, vec!["-u", "wechat"]);
    assert_eq!(b, vec!["-f", "Xvfb :99"]);
    assert!(stop_before_delete("starting"));
    assert!(!stop_before_delete("stopped"));
}
