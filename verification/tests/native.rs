use agent_server::media_meta::{
    alias_sql, database_account, metadata_content_ok, metadata_request_ok, metadata_sql,
    raw_message_sql,
};
use agent_server::media_queue::{
    process_identity, prune, queue_step, remember, start_time, submission_key, QueueStep,
    SubmitQueue,
};

#[test]
fn native_requests_and_content() {
    assert!(metadata_request_ok(1, "wxid_abc"));
    assert!(metadata_request_ok(1, "123@chatroom"));
    assert!(!metadata_request_ok(0, "wxid_abc"));
    assert!(!metadata_request_ok(1 << 32, "wxid_abc"));
    let md5 = "900150983cd24fb0d6963f7d28e17f72";
    assert!(metadata_content_ok(3, "<msg><img/></msg>"));
    assert!(!metadata_content_ok(1, "text"));
    assert!(!metadata_content_ok(3, ""));
    assert!(!metadata_content_ok(3, "a\0b"));
    let video = format!("<msg><videomsg length=\"3\" md5=\"{md5}\" /></msg>");
    assert!(metadata_content_ok(43, &video));
    assert!(!metadata_content_ok(43, "<msg><videomsg length=\"x\" md5=\"00\" /></msg>"));
    let file = format!("<title>a.pdf</title><totallen>3</totallen><md5>{md5}</md5>");
    assert!(metadata_content_ok(0x6_0000_0031, &file));
    let bad = format!("<title>../a.pdf</title><totallen>3</totallen><md5>{md5}</md5>");
    assert!(!metadata_content_ok(0x6_0000_0031, &bad));
}

#[test]
fn account_alias_in_database() {
    let names = vec!["wxid_abc".to_string(), "other".to_string()];
    assert_eq!(database_account(&names, "wxid_abc_1f2e", "chat"), Some("wxid_abc".into()));
    assert_eq!(database_account(&names, "wxid_abc", "chat"), Some("wxid_abc".into()));
    assert_eq!(database_account(&names, "wxid_abc", "wxid_abc"), None);
    let two = vec!["wxid_abc".to_string(), "wxid_abc_1f2e".to_string()];
    assert_eq!(database_account(&two, "wxid_abc_1f2e", "chat"), None);
    assert_eq!(database_account(&names, "wxid_abc_zzzz", "chat"), None);
    assert!(metadata_sql("Msg_x", 5).contains("FROM \"Msg_x\" m") && metadata_sql("Msg_x", 5).ends_with("m.local_id=5 LIMIT 1;"));
    assert!(alias_sql("o'k").starts_with("SELECT user_name FROM Name2Id WHERE user_name='o''k'"));
    assert!(raw_message_sql("Msg_x", 7).contains("WHERE local_id = 7"));
}

#[test]
fn native_queue_submits_once_per_retry_period() {
    let stat = "1234 (wechat (x)) S 1 2 3 4 5 6 7 8 9 10 11 12 13 14 15 16 17 18 99887766 20";
    assert_eq!(start_time(stat), Some("99887766".into()));
    assert_eq!(start_time("no paren"), None);
    assert_eq!(start_time("1 (a) S 1"), None);
    let identity = process_identity(1234, "99887766", "wxid");
    assert_eq!(identity, "1234:99887766:wxid");
    let key = submission_key(&identity, "\"c\"", "5", "\"9\"");
    assert_eq!(key, "1234:99887766:wxid:\"c\":5:\"9\"");
    let mut q = SubmitQueue::new();
    assert_eq!(queue_step(&q, &key, &identity), QueueStep::RestartAndSubmit);
    remember(&mut q, key.clone(), identity.clone(), 1000);
    assert_eq!(queue_step(&q, &key, &identity), QueueStep::AlreadySubmitted);
    assert_eq!(queue_step(&q, "other", &identity), QueueStep::Submit);
    prune(&mut q, 1000 + 299_999);
    assert_eq!(queue_step(&q, &key, &identity), QueueStep::AlreadySubmitted);
    prune(&mut q, 1000 + 300_000);
    assert_eq!(queue_step(&q, &key, &identity), QueueStep::Submit);
}
