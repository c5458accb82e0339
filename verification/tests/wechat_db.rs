use agent_server::wechat_db::{account_dir_from_db_path, busiest_pid, select_newest_candidate};

#[test]
fn account_dir_from_db_path_extracts_wxid() {
    let p = "/home/wechat/xwechat_files/wxid_abc123/db_storage/session/session.db";
    assert_eq!(account_dir_from_db_path(p), Some("wxid_abc123".to_string()));
}

#[test]
fn account_dir_from_db_path_handles_documents_variant() {
    let p = "/home/wechat/Documents/xwechat_files/wxid_xyz/db_storage/contact/contact.db";
    assert_eq!(account_dir_from_db_path(p), Some("wxid_xyz".to_string()));
}

#[test]
fn account_dir_from_db_path_rejects_unrelated_paths() {
    assert_eq!(account_dir_from_db_path("/proc/61/maps"), None);
    assert_eq!(account_dir_from_db_path("/home/wechat/.pki/nssdb/key4.db"), None);
    assert_eq!(
        account_dir_from_db_path("/home/wechat/xwechat_files/wxid_a/db_storage/"),
        None
    );
}

#[test]
fn select_newest_candidate_picks_latest_mtime() {
    let older: i128 = 1000;
    let newer: i128 = 2000;
    let candidates = vec![
        ("wxid_old".to_string(), older),
        ("wxid_new".to_string(), newer),
    ];
    assert_eq!(select_newest_candidate(candidates), Some("wxid_new".to_string()));
}

#[test]
fn select_newest_candidate_single_and_empty() {
    assert_eq!(
        select_newest_candidate(vec![("wxid_only".to_string(), 0)]),
        Some("wxid_only".to_string())
    );
    assert_eq!(select_newest_candidate(Vec::new()), None);
}

#[test]
fn busiest_pid_prefers_most_open_files_then_first() {
    assert_eq!(busiest_pid(&vec![(10, 3), (11, 7), (12, 7)]), Some(11));
    assert_eq!(busiest_pid(&vec![(10, 0)]), None);
    assert_eq!(busiest_pid(&vec![]), None);
}
