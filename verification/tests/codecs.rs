use agent_server::hex::hex_decode_would_panic;
use agent_server::messages::{
    contact_display_name, decode_message_content, distinct_senders, get_msg_table_name, message_page_sql,
    messages_from_rows, reply_would_panic, row_is_decodable, sender_names_sql, table_exists_sql, MessageRow,
};
use agent_server::router::file_downloads::decoded_len;

#[test]
fn message_table_is_md5_of_chat() {
    // md5("abc") = 900150983cd24fb0d6963f7d28e17f72
    assert_eq!(get_msg_table_name("abc"), "Msg_900150983cd24fb0d6963f7d28e17f72");
}

#[test]
fn plain_and_compressed_content() {
    // "hi" in hex, not compressed
    assert_eq!(decode_message_content("6869", false), "hi");
    assert_eq!(decoded_len(&Some("aGk=".into())), 2);
}

#[test]
fn hex_split_inside_a_character_is_detected() {
    assert!(!hex_decode_would_panic("6869"));
    assert!(!hex_decode_would_panic("0\u{e9}"));
    assert!(hex_decode_would_panic("0\u{e9}0"));
    assert!(!hex_decode_would_panic("zz\u{e9}"));
}

#[test]
fn quoted_block_closing_before_it_opens_is_detected() {
    assert!(reply_would_panic("<appmsg></refermsg>x<refermsg>", 49));
    assert!(!reply_would_panic("<appmsg></refermsg>x<refermsg>", 1));
    assert!(!reply_would_panic("<refermsg><content>a</content></refermsg>", 49));
    assert!(!reply_would_panic("</refermsg><refermsg>", 49));
}

#[test]
fn message_page_queries_and_sender_names() {
    assert_eq!(
        table_exists_sql("Msg_ab"),
        "SELECT name FROM sqlite_master WHERE type='table' AND name='Msg_ab';"
    );
    let page = message_page_sql("Msg_ab", 50, 10);
    assert!(page.contains("FROM \"Msg_ab\" m"));
    assert!(page.ends_with("LIMIT 50 OFFSET 10;"));
    let row = |s: Option<&str>| MessageRow {
        local_id: Some(1),
        server_id: None,
        local_type: Some(1),
        create_time: None,
        hex_content: None,
        is_compressed: None,
        hex_source: None,
        source_compressed: None,
        sender_name: s.map(|x| x.to_string()),
    };
    let rows = vec![row(Some("b")), row(None), row(Some("")), row(Some("a")), row(Some("b"))];
    let senders = distinct_senders(&rows);
    assert_eq!(senders, vec!["b".to_string(), "a".to_string()]);
    assert_eq!(
        sender_names_sql(&senders),
        "SELECT username, nick_name, remark FROM contact WHERE username IN ('b','a');"
    );
    assert_eq!(contact_display_name("u", &Some("N".into()), &Some("R".into())), "R");
    assert_eq!(contact_display_name("u", &Some("N".into()), &Some("".into())), "N");
    assert_eq!(contact_display_name("u", &None, &None), "u");
}

#[test]
fn page_rows_become_messages_in_order() {
    let row = |id: Option<i64>, hex: &str| MessageRow {
        local_id: id,
        server_id: Some(7),
        local_type: Some(1),
        create_time: None,
        hex_content: Some(hex.to_string()),
        is_compressed: Some(0),
        hex_source: None,
        source_compressed: None,
        sender_name: Some("wxid_me".to_string()),
    };
    let rows = vec![row(Some(2), "6869"), row(None, "6869"), row(Some(1), "6f6b")];
    assert!(rows.iter().all(|r| row_is_decodable(r, "peer")));
    let names = vec![("wxid_me".to_string(), "Me".to_string())];
    let msgs = messages_from_rows(&rows, "peer", "wxid_me_1234", &names);
    assert_eq!(msgs.len(), 2);
    assert_eq!(msgs[0].local_id, 2);
    assert_eq!(msgs[0].content, "hi");
    assert_eq!(msgs[0].sender_name.as_deref(), Some("Me"));
    assert_eq!(msgs[0].is_self, Some(true));
    assert_eq!(msgs[1].local_id, 1);
    assert_eq!(msgs[1].content, "ok");
    assert!(!row_is_decodable(&row(Some(3), "0\u{e9}0"), "peer"));
}
