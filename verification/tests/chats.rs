use agent_server::chats::{
    assemble_chat_list, assemble_found_chats, chat_by_username, chat_lookup_sqls,
    contact_batch_sqls, contact_search_sql, quote_usernames, session_page_sql, sessions_in_sql,
    SessionRow,
};
use agent_server::contacts::ContactRow;

fn session(u: &str) -> SessionRow {
    SessionRow {
        username: Some(u.into()),
        unread_count: Some(3),
        summary: Some("hi".into()),
        last_timestamp: Some(0),
        last_msg_sender: Some("wxid_s".into()),
        last_sender_display_name: Some(String::new()),
        last_msg_local_id: Some(9),
    }
}

fn contact(u: &str, nick: &str, remark: &str) -> ContactRow {
    ContactRow {
        username: Some(u.into()),
        nick_name: Some(nick.into()),
        remark: Some(remark.into()),
        alias: None,
        small_head_url: None,
        local_type: Some(1),
    }
}

#[test]
fn chat_list_names_and_senders() {
    let sessions = vec![session("123@chatroom"), session("wxid_b"), SessionRow { username: None, ..session("x") }];
    let contacts = vec![contact("wxid_b", "Bob", ""), contact("123@chatroom", "Group", "Team"), contact("wxid_b", "Bobby", "")];
    let chats = assemble_chat_list(&sessions, &contacts);
    assert_eq!(chats.len(), 2);
    assert_eq!(chats[0].name, "Team");
    assert_eq!(chats[0].remark, Some("Team".into()));
    assert!(chats[0].is_group);
    assert_eq!(chats[1].name, "Bobby");
    assert_eq!(chats[1].remark, None);
    assert_eq!(chats[1].last_message_sender, Some("wxid_s".into()));
    assert_eq!(chats[1].unread_count, 3);
    assert_eq!(chats[1].last_activity_at, None);
    assert_eq!(chats[1].last_msg_local_id, Some(9));
    let found = assemble_found_chats(&contacts, &sessions);
    assert_eq!(found.len(), 3);
    assert_eq!(found[0].last_message_sender, None);
    let one = chat_by_username("wxid_c", &vec![SessionRow { last_timestamp: Some(86400), ..session("wxid_c") }], &vec![]).unwrap();
    assert_eq!(one.name, "wxid_c");
    assert_eq!(one.last_activity_at, Some("1970-01-02T00:00:00+00:00".into()));
    assert!(chat_by_username("wxid_c", &vec![], &vec![]).is_none());
}

#[test]
fn chat_queries() {
    assert_eq!(quote_usernames(&["a".to_string(), "o'b".to_string()]), "'a','o''b'");
    assert!(session_page_sql(50, 0).ends_with("ORDER BY sort_timestamp DESC\n             LIMIT 50 OFFSET 0;"));
    let names: Vec<String> = (0..120).map(|i| format!("u{i}")).collect();
    let batches = contact_batch_sqls(&names);
    assert_eq!(batches.len(), 3);
    assert!(batches[2].contains("'u100'") && batches[2].ends_with("'u119');"));
    let (s, c) = chat_lookup_sqls("o'k");
    assert!(s.ends_with("WHERE username = 'o''k';"));
    assert!(c.ends_with("WHERE username = 'o''k';"));
    assert!(contact_search_sql("ab").contains("nick_name LIKE '%ab%'"));
    assert!(sessions_in_sql(&vec!["a".to_string()]).contains("WHERE username IN ('a')"));
}

#[test]
fn contact_queries_page_and_search_the_contact_list() {
    let page = agent_server::contacts::contact_page_sql(200, 0);
    assert!(page.contains("WHERE local_type IN (1, 3, 5)"));
    assert!(page.ends_with("LIMIT 200 OFFSET 0;"));
    let find = agent_server::contacts::contact_find_sql("o'k");
    assert!(find.contains("nick_name LIKE '%o''k%'"));
    assert!(find.ends_with("LIMIT 50;"));
}
