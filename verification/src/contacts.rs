//! Contacts from the contact database: which rows are shown and how each is
//! classified.
use vstd::prelude::*;
use crate::text::{chars_of, contains_spec, ends_with_spec, starts_with_spec, str_eq};
use crate::types::{Contact, opt_str_view};

verus! {

/// The kind of a contact: a group chat, an official account, an OpenIM
/// contact, or an individual.
pub open spec fn classify_spec(username: Seq<char>, local_type: i64) -> Seq<char> {
    if ends_with_spec(username, "@chatroom"@) {
        "chatroom"@
    } else if starts_with_spec(username, "gh_"@) {
        "official"@
    } else if contains_spec(username, "@openim"@) || local_type == 5 {
        "openim"@
    } else {
        "individual"@
    }
}

fn lit_test(h: &[char], lit: &str, kind: u8) -> (r: bool)
    ensures
        kind == 0 ==> r == ends_with_spec(h@, lit@),
        kind == 1 ==> r == starts_with_spec(h@, lit@),
        kind >= 2 ==> r == contains_spec(h@, lit@),
{
    let n = chars_of(lit);
    if kind == 0 {
        crate::text::ends_with(h, n.as_slice())
    } else if kind == 1 {
        crate::text::starts_with(h, n.as_slice())
    } else {
        crate::text::contains(h, n.as_slice())
    }
}

/// Classify a contact by its username and stored type.
pub fn classify_contact(username: &str, local_type: i64) -> (r: &'static str)
    ensures
        r@ == classify_spec(username@, local_type),
{
    let u = chars_of(username);
    if lit_test(u.as_slice(), "@chatroom", 0) {
        "chatroom"
    } else if lit_test(u.as_slice(), "gh_", 1) {
        "official"
    } else if lit_test(u.as_slice(), "@openim", 2) || local_type == 5 {
        "openim"
    } else {
        "individual"
    }
}

/// The system and internal accounts left out of contact listings.
pub open spec fn system_usernames() -> Seq<Seq<char>> {
    seq![
        "qmessage"@,
        "floatbottle"@,
        "medianote"@,
        "notifymessage"@,
        "weixin"@,
        "fmessage"@,
        "filehelper"@,
        "newsapp"@,
        "tmessage"@,
        "mphelper"@,
        "qqmail"@,
        "weixingongzhong"@,
        "qqsafe"@,
        "exmail_tool"@,
        "lbsapp"@,
        "pc_qq"@,
    ]
}

pub open spec fn is_system_spec(username: Seq<char>) -> bool {
    system_usernames().contains(username)
}

/// Whether a username is one of the known system accounts.
pub fn is_system_account(username: &str) -> (r: bool)
    ensures
        r == is_system_spec(username@),
{
    let names: [&str; 16] = [
        "qmessage",
        "floatbottle",
        "medianote",
        "notifymessage",
        "weixin",
        "fmessage",
        "filehelper",
        "newsapp",
        "tmessage",
        "mphelper",
        "qqmail",
        "weixingongzhong",
        "qqsafe",
        "exmail_tool",
        "lbsapp",
        "pc_qq",
    ];
    let ghost sv = system_usernames();
    assert(forall|j: int| 0 <= j < 16 ==> #[trigger] names@[j]@ == sv[j]);
    let mut i: usize = 0;
    while i < 16
        invariant
            i <= 16,
            sv == system_usernames(),
            forall|j: int| 0 <= j < 16 ==> #[trigger] names@[j]@ == sv[j],
            forall|j: int| 0 <= j < i ==> sv[j] != username@,
        decreases 16 - i,
    {
        if str_eq(names[i], username) {
            assert(sv[i as int] == username@);
            return true;
        }
        i += 1;
    }
    assert(!sv.contains(username@));
    false
}

/// One row of the contact query.
#[derive(Clone, Debug)]
pub struct ContactRow {
    pub username: Option<String>,
    pub nick_name: Option<String>,
    pub remark: Option<String>,
    pub alias: Option<String>,
    pub small_head_url: Option<String>,
    pub local_type: Option<i64>,
}

pub struct ContactSpec {
    pub username: Seq<char>,
    pub nick_name: Seq<char>,
    pub remark: Option<Seq<char>>,
    pub alias: Option<Seq<char>>,
    pub small_head_url: Option<Seq<char>>,
    pub contact_type: Seq<char>,
}

pub open spec fn contact_view(c: Contact) -> ContactSpec {
    ContactSpec {
        username: c.username@,
        nick_name: c.nick_name@,
        remark: opt_str_view(c.remark),
        alias: opt_str_view(c.alias),
        small_head_url: opt_str_view(c.small_head_url),
        contact_type: c.contact_type@,
    }
}

/// A text field, absent when empty.
pub open spec fn non_empty(s: Option<String>) -> Option<Seq<char>> {
    match s {
        Some(v) => if v@.len() > 0 {
            Some(v@)
        } else {
            None
        },
        None => None,
    }
}

/// The contact a row shows: none without a username or for a system account.
pub open spec fn row_contact(row: ContactRow) -> Option<ContactSpec> {
    match row.username {
        None => None,
        Some(u) => if is_system_spec(u@) {
            None
        } else {
            Some(
                ContactSpec {
                    username: u@,
                    nick_name: match row.nick_name {
                        Some(n) => n@,
                        None => Seq::empty(),
                    },
                    remark: non_empty(row.remark),
                    alias: non_empty(row.alias),
                    small_head_url: non_empty(row.small_head_url),
                    contact_type: classify_spec(
                        u@,
                        match row.local_type {
                            Some(t) => t,
                            None => 3,
                        },
                    ),
                },
            )
        },
    }
}

fn non_empty_exec(s: &Option<String>) -> (r: Option<String>)
    ensures
        opt_str_view(r) == non_empty(*s),
{
    match s {
        Some(v) => if !v.as_str().is_empty() {
            Some(v.clone())
        } else {
            None
        },
        None => None,
    }
}

/// The contact a row of the contact query shows, if any.
pub fn contact_from_row(row: &ContactRow) -> (r: Option<Contact>)
    ensures
        match r {
            Some(c) => row_contact(*row) == Some(contact_view(c)),
            None => row_contact(*row) is None,
        },
{
    let username = match &row.username {
        Some(u) => u,
        None => return None,
    };
    if is_system_account(username.as_str()) {
        return None;
    }
    let local_type = match row.local_type {
        Some(t) => t,
        None => 3,
    };
    Some(
        Contact {
            username: username.clone(),
            nick_name: match &row.nick_name {
                Some(n) => n.clone(),
                None => String::new(),
            },
            remark: non_empty_exec(&row.remark),
            alias: non_empty_exec(&row.alias),
            small_head_url: non_empty_exec(&row.small_head_url),
            contact_type: classify_contact(username.as_str(), local_type).to_owned(),
        },
    )
}

/// A row shows a contact exactly when it has a username that is not a
/// system account; the contact's username and nickname are the row's (an
/// empty nickname when it has none), and its remark, alias and avatar URL are
/// the row's own remark, alias and avatar URL when non-empty, none otherwise.
#[verifier::rlimit(30)]
pub proof fn lemma_contact_fields_from_row(row: ContactRow)
    ensures
        (row_contact(row) is Some) == (row.username matches Some(u) && !is_system_spec(u@)),
        row_contact(row) matches Some(c) ==> {
            &&& row.username matches Some(u) && c.username == u@
            &&& c.nick_name == (match row.nick_name {
                Some(v) => v@,
                None => Seq::<char>::empty(),
            })
            &&& (c.remark matches Some(x) ==> row.remark matches Some(v) && v@ == x && x.len() > 0)
            &&& (forall|v: String| row.remark == Some(v) && v@.len() > 0 ==> c.remark == Some(v@))
            &&& (c.alias matches Some(x) ==> row.alias matches Some(v) && v@ == x && x.len() > 0)
            &&& (forall|v: String| row.alias == Some(v) && v@.len() > 0 ==> c.alias == Some(v@))
            &&& (c.small_head_url matches Some(x) ==> row.small_head_url matches Some(v) && v@ == x
                && x.len() > 0)
            &&& (forall|v: String| row.small_head_url == Some(v) && v@.len() > 0 ==> c.small_head_url == Some(v@))
        },
{
}

/// The contacts shown for rows, in order.
pub open spec fn rows_contacts(rows: Seq<ContactRow>) -> Seq<ContactSpec>
    decreases rows.len(),
{
    if rows.len() == 0 {
        Seq::empty()
    } else {
        rows_contacts(rows.drop_last()) + match row_contact(rows.last()) {
            Some(c) => seq![c],
            None => Seq::empty(),
        }
    }
}

pub open spec fn contacts_view(v: Seq<Contact>) -> Seq<ContactSpec> {
    v.map_values(|c: Contact| contact_view(c))
}

fn contacts_from_rows(rows: &Vec<ContactRow>) -> (r: Vec<Contact>)
    ensures
        contacts_view(r@) == rows_contacts(rows@),
{
    let mut out: Vec<Contact> = Vec::new();
    let mut i: usize = 0;
    while i < rows.len()
        invariant
            i <= rows.len(),
            contacts_view(out@) == rows_contacts(rows@.take(i as int)),
        decreases rows.len() - i,
    {
        assert(rows@.take(i + 1).drop_last() == rows@.take(i as int));
        assert(rows@.take(i + 1).last() == rows@[i as int]);
        if let Some(c) = contact_from_row(&rows[i]) {
            let ghost before = out@;
            out.push(c);
            assert(contacts_view(out@) =~= contacts_view(before).push(contact_view(out@.last())));
        }
        i += 1;
    }
    assert(rows@.take(rows.len() as int) == rows@);
    out
}

/// List contacts from the rows of the contact query (individuals, official
/// and OpenIM accounts, ordered by the query): system accounts are left out.
pub fn list_contacts(rows: &Vec<ContactRow>) -> (r: Vec<Contact>)
    ensures
        contacts_view(r@) == rows_contacts(rows@),
{
    contacts_from_rows(rows)
}

/// Contacts matching a search, from the rows of the search query: system
/// accounts are left out.
pub fn find_contacts(rows: &Vec<ContactRow>) -> (r: Vec<Contact>)
    ensures
        contacts_view(r@) == rows_contacts(rows@),
{
    contacts_from_rows(rows)
}

/// A text quoted for an SQL string literal: every `'` doubled.
pub open spec fn sql_escape_spec(s: Seq<char>) -> Seq<char> {
    crate::text::replace_spec(s, "'"@, "''"@)
}

/// Double every single quote, so the text can stand in an SQL literal.
pub fn sql_escape(s: &str) -> (r: String)
    ensures
        r@ == sql_escape_spec(s@),
{
    let c = chars_of(s);
    let q = chars_of("'");
    let qq = chars_of("''");
    proof {
        reveal_strlit("'");
    }
    let v = crate::text::replace_all(c.as_slice(), q.as_slice(), qq.as_slice());
    crate::text::string_of(v.as_slice())
}

/// The query for one page of the contact list: individuals, official and
/// OpenIM accounts (no group chats), remarked contacts first, then by nickname.
pub open spec fn contact_page_sql_spec(limit: i64, offset: i64) -> Seq<char> {
    crate::chats::contact_columns() + "WHERE local_type IN (1, 3, 5)\n               AND username NOT LIKE '%@chatroom'\n             ORDER BY remark != '' DESC, nick_name COLLATE NOCASE ASC\n             LIMIT "@
        + crate::text::signed_decimal(limit as int) + " OFFSET "@ + crate::text::signed_decimal(offset as int) + ";"@
}

/// The query for one page of the contact list.
pub fn contact_page_sql(limit: i64, offset: i64) -> (r: String)
    ensures
        r@ == contact_page_sql_spec(limit, offset),
{
    let mut q = String::from_str(
        "SELECT username, nick_name, remark, alias, small_head_url, local_type\n             FROM contact\n             ",
    );
    crate::router::file_downloads::append_str(
        &mut q,
        "WHERE local_type IN (1, 3, 5)\n               AND username NOT LIKE '%@chatroom'\n             ORDER BY remark != '' DESC, nick_name COLLATE NOCASE ASC\n             LIMIT ",
    );
    crate::text::push_signed_decimal(limit, &mut q);
    crate::router::file_downloads::append_str(&mut q, " OFFSET ");
    crate::text::push_signed_decimal(offset, &mut q);
    crate::router::file_downloads::append_str(&mut q, ";");
    q
}

/// The contact search: the contact-list rows whose nickname, remark, alias or
/// username contains the text, fifty at most.
pub open spec fn contact_find_sql_spec(query: Seq<char>) -> Seq<char> {
    let e = sql_escape_spec(query);
    crate::chats::contact_columns() + "WHERE local_type IN (1, 3, 5)\n               AND username NOT LIKE '%@chatroom'\n               AND (nick_name LIKE '%"@
        + e + "%'\n                    OR remark LIKE '%"@ + e + "%'\n                    OR alias LIKE '%"@ + e
        + "%'\n                    OR username LIKE '%"@ + e
        + "%')\n             ORDER BY remark != '' DESC, nick_name COLLATE NOCASE ASC\n             LIMIT 50;"@
}

/// The query that searches the contact list by part of a name.
pub fn contact_find_sql(query: &str) -> (r: String)
    ensures
        r@ == contact_find_sql_spec(query@),
{
    let e = sql_escape(query);
    let mut q = String::from_str(
        "SELECT username, nick_name, remark, alias, small_head_url, local_type\n             FROM contact\n             ",
    );
    crate::router::file_downloads::append_str(
        &mut q,
        "WHERE local_type IN (1, 3, 5)\n               AND username NOT LIKE '%@chatroom'\n               AND (nick_name LIKE '%",
    );
    crate::router::file_downloads::append_str(&mut q, e.as_str());
    crate::router::file_downloads::append_str(&mut q, "%'\n                    OR remark LIKE '%");
    crate::router::file_downloads::append_str(&mut q, e.as_str());
    crate::router::file_downloads::append_str(&mut q, "%'\n                    OR alias LIKE '%");
    crate::router::file_downloads::append_str(&mut q, e.as_str());
    crate::router::file_downloads::append_str(&mut q, "%'\n                    OR username LIKE '%");
    crate::router::file_downloads::append_str(&mut q, e.as_str());
    crate::router::file_downloads::append_str(
        &mut q,
        "%')\n             ORDER BY remark != '' DESC, nick_name COLLATE NOCASE ASC\n             LIMIT 50;",
    );
    q
}

} // verus!
