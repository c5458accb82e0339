use agent_server::router::chats::{chat_key_missing, chat_keys_present, open_chat_error, open_chat_refusal};
use agent_server::router::messages::{
    check_send_content, check_send_session, decode_file_upload, decode_image_upload,
    file_upload_fits, file_upload_path, has_message_key, image_extension, image_upload_path,
    key_missing, media_final, safe_upload_name, DbKind,
};
use agent_server::router::sync::{account_changed, rescan_pid, RescanResponse};
use agent_server::router::ui::close_popups_response;
use agent_server::popups::{outcome_unavailable, popups_outcome};
use agent_server::media::{pending, unsupported};

fn keys(names: &[&str]) -> Vec<(String, String)> {
    names.iter().map(|n| (n.to_string(), "k".to_string())).collect()
}

#[test]
fn key_presence_decides_extraction() {
    let disk = vec!["message_0.db".to_string(), "message_fts.db".to_string(), "media_0.db".to_string()];
    assert!(key_missing(DbKind::Message, &disk, &keys(&[])));
    assert!(!key_missing(DbKind::Message, &disk, &keys(&["message_0.db"])));
    assert!(key_missing(DbKind::Media, &disk, &keys(&["message_0.db"])));
    assert!(has_message_key(&keys(&["message_1.db"])));
    assert!(!has_message_key(&keys(&["message_resource.db"])));
    assert!(chat_keys_present(&keys(&["session.db", "contact.db"])));
    assert!(!chat_keys_present(&keys(&["session.db"])));
    assert!(chat_key_missing(&vec!["contact.db".into()], &keys(&["session.db"])));
    assert!(!chat_key_missing(&vec!["other.db".into()], &keys(&[])));
}

#[test]
fn send_requests_and_uploads() {
    assert_eq!(check_send_content(false, false, false), Some("No text, image, or file provided"));
    assert_eq!(check_send_content(true, false, false), None);
    assert_eq!(check_send_session(false, false), Some("No session available"));
    assert_eq!(check_send_session(true, false), Some("NOT_LOGGED_IN"));
    assert_eq!(check_send_session(true, true), None);
    assert_eq!(image_extension("image/jpeg"), ".jpg");
    assert_eq!(image_extension("image/gif"), ".gif");
    assert_eq!(image_extension("image/webp"), ".png");
    assert_eq!(safe_upload_name("遗憾.pdf"), "__.pdf");
    assert_eq!(safe_upload_name("a b-c_d.txt"), "a_b-c_d.txt");
    assert_eq!(decode_image_upload("YWJj"), Ok(Some(b"abc".to_vec())));
    assert_eq!(decode_image_upload("%%%"), Ok(None));
    assert_eq!(decode_file_upload("YWJj"), Ok(b"abc".to_vec()));
    assert!(decode_file_upload("%%%").unwrap_err().starts_with("Failed to decode base64 file data: "));
    assert!(file_upload_fits(128 * 1024 * 1024));
    assert!(!file_upload_fits(128 * 1024 * 1024 + 1));
    assert_eq!(image_upload_path(1700, ".png"), "/tmp/send_image_1700.png");
    assert_eq!(file_upload_path(1700, "a.pdf"), "/tmp/send_file_1700_a.pdf");
    assert!(media_final(&unsupported()));
    assert!(!media_final(&pending()));
}

#[test]
fn chat_opening_refusals() {
    assert_eq!(open_chat_refusal(false, true, "x"), Some("No session available"));
    assert_eq!(open_chat_refusal(true, false, "x"), Some("NOT_LOGGED_IN"));
    assert_eq!(open_chat_refusal(true, true, "gh_1"), Some("Opening official accounts is not supported"));
    assert_eq!(open_chat_refusal(true, true, "wxid_1"), None);
    assert_eq!(open_chat_error(None), "Chat open failed");
    assert_eq!(open_chat_error(Some("x".into())), "x");
}

#[test]
fn rescan_reports() {
    let f = RescanResponse::failure("no_wechat_pid", "no_wechat_pid", false, "none", true);
    assert_eq!(f.status, "no_wechat_pid");
    assert_eq!(f.reason, Some("no_wechat_pid"));
    assert!(f.logged_in_user_after && !f.account_detected);
    let s = RescanResponse::success("pid_fd", false, true, true);
    assert_eq!(s.status, "ok");
    assert!(s.logged_in_user_after && s.key_extraction_triggered);
    assert!(account_changed(Some("a"), "b"));
    assert!(!account_changed(Some("a"), "a"));
    assert!(!account_changed(None, "a"));
    assert_eq!(rescan_pid(Some(1), Some(2)), Some(1));
    assert_eq!(rescan_pid(None, Some(2)), Some(2));
    let r = close_popups_response(outcome_unavailable());
    assert_eq!(r.status, "xdotool_missing");
    assert_eq!(r.warning, Some("xdotool_unavailable"));
    let r = close_popups_response(popups_outcome(2, 1, true));
    assert_eq!(r.status, "ok");
    assert_eq!(r.warning, None);
}
