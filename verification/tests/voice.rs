use agent_server::voice::{
    audio_size_ok, check_opened, chat_list_click_target, classify_field, current_account_owns,
    existing_job, is_terminal_status, job_dir, recovered_status, removable_chunk, request_hash,
    stopped_status, valid_destination, valid_idempotency_key, ExistingJob, FieldAction, OpenedChat,
};
use agent_server::types::{A11yNode, Bounds};

#[test]
fn idempotency_keys_and_destinations() {
    assert!(valid_idempotency_key("abc"));
    assert!(!valid_idempotency_key(""));
    assert!(!valid_idempotency_key("a\tb"));
    assert!(!valid_idempotency_key(&"k".repeat(201)));
    assert!(valid_idempotency_key(&"k".repeat(200)));
    assert!(valid_destination("wxid_abc"));
    assert!(valid_destination("123@chatroom"));
    assert!(!valid_destination("gh_official"));
    assert!(!valid_destination(""));
    assert!(!valid_destination(&"x".repeat(256)));
}

#[test]
fn form_fields_are_read_once() {
    assert_eq!(classify_field("chatId", false, false), FieldAction::ReadChatId);
    assert_eq!(classify_field("chatId", true, false), FieldAction::Reject);
    assert_eq!(classify_field("audio", false, false), FieldAction::ReadAudio);
    assert_eq!(classify_field("audio", false, true), FieldAction::Reject);
    assert_eq!(classify_field("other", false, false), FieldAction::Reject);
    assert!(!audio_size_ok(0));
    assert!(audio_size_ok(1));
    assert!(audio_size_ok(128 * 1024 * 1024));
    assert!(!audio_size_ok(128 * 1024 * 1024 + 1));
}

#[test]
fn request_hash_is_sha256_of_chat_zero_audio() {
    assert_eq!(
        request_hash("a", b"b"),
        "59b271ae1bbcb1d31d41929817f4b16fb439eb4f31520b5ad1d5ce98920a7138"
    );
    assert_eq!(
        request_hash("chat", b"\x01\x02"),
        "67df87b974b78b5b5763555c43e9e0a3e14698d3b1bb898731668e9181fab6e1"
    );
    assert_ne!(request_hash("a", b"b"), request_hash("ab", b""));
}

#[test]
fn earlier_jobs_decide_idempotent_answers() {
    assert_eq!(existing_job(None, "h"), ExistingJob::Fresh);
    assert_eq!(
        existing_job(Some(("job".into(), "h".into())), "h"),
        ExistingJob::Same("job".into())
    );
    assert_eq!(
        existing_job(Some(("job".into(), "g".into())), "h"),
        ExistingJob::Conflict
    );
}

#[test]
fn stopped_and_recovered_jobs() {
    let none: Vec<Option<String>> = vec![Some("pending".into()), None];
    let sent: Vec<Option<String>> = vec![Some("pending".into()), Some("send_clicked".into())];
    assert_eq!(stopped_status("completed", &sent, false), None);
    assert_eq!(stopped_status("sending", &sent, true), Some("needs_review"));
    assert_eq!(stopped_status("sending", &none, true), Some("cancelled"));
    assert_eq!(stopped_status("sending", &none, false), Some("failed"));
    assert_eq!(recovered_status("queued", &none), Some("failed"));
    assert_eq!(recovered_status("queued", &sent), Some("needs_review"));
    assert_eq!(recovered_status("cancelled", &sent), None);
    assert!(is_terminal_status("needs_review"));
    assert!(!is_terminal_status("queued"));
}

#[test]
fn job_files_and_owners() {
    assert!(removable_chunk("chunk-1.wav"));
    assert!(!removable_chunk("chunk-1.mp3"));
    assert!(!removable_chunk("chunk-/../x.wav"));
    assert!(!removable_chunk("input"));
    assert_eq!(
        job_dir("550e8400-e29b-41d4-a716-446655440000"),
        Ok("/data/voice-jobs/550e8400-e29b-41d4-a716-446655440000".to_string())
    );
    assert_eq!(job_dir("../etc"), Err("Invalid voice job ID".to_string()));
    assert!(current_account_owns(Some("a"), Some("a")));
    assert!(!current_account_owns(Some("a"), Some("b")));
    assert!(!current_account_owns(None, Some("a")));
}

#[test]
fn destination_must_be_the_opened_chat() {
    let ok = OpenedChat { ok: true, error: None, username: Some("wxid_a".into()) };
    assert_eq!(check_opened(ok, "wxid_a"), Ok(()));
    let other = OpenedChat { ok: true, error: None, username: Some("wxid_b".into()) };
    assert_eq!(
        check_opened(other, "wxid_a"),
        Err("Chat selection returned a different destination".to_string())
    );
    let failed = OpenedChat { ok: false, error: None, username: None };
    assert_eq!(check_opened(failed, "wxid_a"), Err("Chat selection failed".to_string()));
    let said = OpenedChat { ok: false, error: Some("boom".into()), username: None };
    assert_eq!(check_opened(said, "wxid_a"), Err("boom".to_string()));
}

fn node(role: &str, name: &str, bounds: Option<Bounds>, children: Vec<A11yNode>) -> A11yNode {
    A11yNode {
        role: role.into(),
        name: name.into(),
        bounds,
        children: if children.is_empty() { None } else { Some(children) },
        parent_index: None,
        window: None,
        states: None,
    }
}

#[test]
fn chat_list_click_target_is_first_item_centre() {
    let tree = node(
        "frame",
        "",
        None,
        vec![node(
            "list",
            "Chats",
            None,
            vec![node("list-item", "A", Some(Bounds { x: 10, y: 20, width: 101, height: 40 }), vec![])],
        )],
    );
    assert_eq!(chat_list_click_target(&tree), Ok((61, 40)));
    let empty = node("frame", "", None, vec![]);
    assert_eq!(
        chat_list_click_target(&empty),
        Err("Chat list click target is unavailable".to_string())
    );
}
