//! The chat list: the queries sent to the session and contact databases, and
//! how their rows become chats.
use vstd::prelude::*;
use crate::plans::strings_view;
use crate::contacts::{sql_escape, sql_escape_spec, ContactRow};
use crate::text::{chars_of, contains, contains_spec, str_eq};
use crate::types::{opt_str_view, Chat};

verus! {

/// A row of the session table, as far as a chat needs it.
pub struct SessionRow {
    pub username: Option<String>,
    pub unread_count: Option<i64>,
    pub summary: Option<String>,
    pub last_timestamp: Option<i64>,
    pub last_msg_sender: Option<String>,
    pub last_sender_display_name: Option<String>,
    pub last_msg_local_id: Option<i64>,
}

/// A chat as plain values.
pub struct ChatSpec {
    pub id: Seq<char>,
    pub username: Seq<char>,
    pub name: Seq<char>,
    pub remark: Option<Seq<char>>,
    pub last_message_preview: Option<Seq<char>>,
    pub last_message_sender: Option<Seq<char>>,
    pub last_activity_at: Option<Seq<char>>,
    pub unread_count: i32,
    pub is_group: bool,
    pub last_msg_local_id: Option<i64>,
}

pub open spec fn chat_view(c: Chat) -> ChatSpec {
    ChatSpec {
        id: c.id@,
        username: c.username@,
        name: c.name@,
        remark: opt_str_view(c.remark),
        last_message_preview: opt_str_view(c.last_message_preview),
        last_message_sender: opt_str_view(c.last_message_sender),
        last_activity_at: opt_str_view(c.last_activity_at),
        unread_count: c.unread_count,
        is_group: c.is_group,
        last_msg_local_id: c.last_msg_local_id,
    }
}

pub open spec fn chats_view(v: Seq<Chat>) -> Seq<ChatSpec> {
    v.map_values(|c: Chat| chat_view(c))
}

/// A text field that is present and not empty.
pub open spec fn nonempty(o: Option<String>) -> Option<Seq<char>> {
    match o {
        Some(s) => if s@.len() > 0 {
            Some(s@)
        } else {
            None
        },
        None => None,
    }
}

fn nonempty_exec(o: &Option<String>) -> (r: Option<String>)
    ensures
        opt_str_view(r) == nonempty(*o),
{
    match o {
        Some(s) => if !s.as_str().is_empty() {
            Some(s.clone())
        } else {
            None
        },
        None => None,
    }
}

/// A chat's name: the contact's remark, else its nickname, else the username.
pub open spec fn chat_name(contact: Option<ContactRow>, username: Seq<char>) -> Seq<char> {
    match contact {
        Some(c) => match nonempty(c.remark) {
            Some(r) => r,
            None => match nonempty(c.nick_name) {
                Some(n) => n,
                None => username,
            },
        },
        None => username,
    }
}

/// The time of the last activity: the RFC 3339 text of a positive timestamp
/// (empty when it cannot be represented), nothing otherwise.
pub open spec fn activity_spec(ts: Option<i64>) -> Option<Seq<char>> {
    match ts {
        Some(t) => if t > 0 {
            Some(
                match crate::codec::rfc3339_of(t as int) {
                    Some(s) => s,
                    None => Seq::empty(),
                },
            )
        } else {
            None
        },
        None => None,
    }
}

/// The chat a session row and its contact describe. `sender_fallback` says
/// whether the last sender's id stands in for a missing display name, as in
/// the chat list.
pub open spec fn chat_spec(
    username: Seq<char>,
    s: SessionRow,
    contact: Option<ContactRow>,
    sender_fallback: bool,
) -> ChatSpec {
    ChatSpec {
        id: username,
        username,
        name: chat_name(contact, username),
        remark: match contact {
            Some(c) => nonempty(c.remark),
            None => None,
        },
        last_message_preview: nonempty(s.summary),
        last_message_sender: match nonempty(s.last_sender_display_name) {
            Some(d) => Some(d),
            None => if sender_fallback {
                nonempty(s.last_msg_sender)
            } else {
                None
            },
        },
        last_activity_at: activity_spec(s.last_timestamp),
        unread_count: (match s.unread_count {
            Some(n) => n,
            None => 0,
        }) as i32,
        is_group: contains_spec(username, "@chatroom"@),
        last_msg_local_id: s.last_msg_local_id,
    }
}

/// Builds a chat from a session row and the matching contact row.
pub fn chat_from_rows(
    username: &str,
    s: &SessionRow,
    contact: Option<&ContactRow>,
    sender_fallback: bool,
) -> (r: Chat)
    ensures
        chat_view(r) == chat_spec(
            username@,
            *s,
            match contact {
                Some(c) => Some(*c),
                None => None,
            },
            sender_fallback,
        ),
{
    let remark = match contact {
        Some(c) => nonempty_exec(&c.remark),
        None => None,
    };
    let name = match contact {
        Some(c) => match nonempty_exec(&c.remark) {
            Some(r) => r,
            None => match nonempty_exec(&c.nick_name) {
                Some(n) => n,
                None => String::from_str(username),
            },
        },
        None => String::from_str(username),
    };
    let sender = match nonempty_exec(&s.last_sender_display_name) {
        Some(d) => Some(d),
        None => if sender_fallback {
            nonempty_exec(&s.last_msg_sender)
        } else {
            None
        },
    };
    let activity = match s.last_timestamp {
        Some(t) => if t > 0 {
            Some(
                match crate::codec::timestamp_rfc3339(t) {
                    Some(x) => x,
                    None => String::new(),
                },
            )
        } else {
            None
        },
        None => None,
    };
    let unread: i64 = match s.unread_count {
        Some(n) => n,
        None => 0,
    };
    let u = chars_of(username);
    let is_group = contains(u.as_slice(), chars_of("@chatroom").as_slice());
    Chat {
        id: String::from_str(username),
        username: String::from_str(username),
        name,
        remark,
        last_message_preview: nonempty_exec(&s.summary),
        last_message_sender: sender,
        last_activity_at: activity,
        unread_count: unread as i32,
        is_group,
        last_msg_local_id: s.last_msg_local_id,
    }
}

/// The last contact row with the username: later rows replace earlier ones.
pub open spec fn last_contact(contacts: Seq<ContactRow>, username: Seq<char>) -> Option<ContactRow>
    decreases contacts.len(),
{
    if contacts.len() == 0 {
        None
    } else if opt_str_view(contacts.last().username) == Some(username) {
        Some(contacts.last())
    } else {
        last_contact(contacts.drop_last(), username)
    }
}

fn find_last_contact<'a>(contacts: &'a Vec<ContactRow>, username: &str) -> (r: Option<&'a ContactRow>)
    ensures
        match r {
            Some(c) => last_contact(contacts@, username@) == Some(*c),
            None => last_contact(contacts@, username@) is None,
        },
{
    let mut i: usize = contacts.len();
    assert(contacts@.take(contacts.len() as int) == contacts@);
    while i > 0
        invariant
            i <= contacts.len(),
            last_contact(contacts@, username@) == last_contact(contacts@.take(i as int), username@),
        decreases i,
    {
        assert(contacts@.take(i as int).drop_last() == contacts@.take(i - 1));
        assert(contacts@.take(i as int).last() == contacts@[i - 1]);
        let hit = match &contacts[i - 1].username {
            Some(u) => str_eq(u.as_str(), username),
            None => false,
        };
        if hit {
            return Some(&contacts[i - 1]);
        }
        i -= 1;
    }
    None
}

/// The chat list: one chat per session row that has a username, in row
/// order, named from the last contact row for that username.
pub open spec fn chat_list_spec(sessions: Seq<SessionRow>, contacts: Seq<ContactRow>) -> Seq<ChatSpec>
    decreases sessions.len(),
{
    if sessions.len() == 0 {
        Seq::empty()
    } else {
        let rest = chat_list_spec(sessions.drop_last(), contacts);
        let s = sessions.last();
        match s.username {
            Some(u) => rest.push(chat_spec(u@, s, last_contact(contacts, u@), true)),
            None => rest,
        }
    }
}

/// Turns session rows (newest first) and contact rows into the chat list.
pub fn assemble_chat_list(sessions: &Vec<SessionRow>, contacts: &Vec<ContactRow>) -> (r: Vec<Chat>)
    ensures
        chats_view(r@) == chat_list_spec(sessions@, contacts@),
{
    let mut out: Vec<Chat> = Vec::new();
    let mut i: usize = 0;
    while i < sessions.len()
        invariant
            i <= sessions.len(),
            chats_view(out@) == chat_list_spec(sessions@.take(i as int), contacts@),
        decreases sessions.len() - i,
    {
        assert(sessions@.take(i + 1).drop_last() == sessions@.take(i as int));
        assert(sessions@.take(i + 1).last() == sessions@[i as int]);
        let s = &sessions[i];
        match &s.username {
            Some(u) => {
                let c = find_last_contact(contacts, u.as_str());
                let chat = chat_from_rows(u.as_str(), s, c, true);
                let ghost prev = chats_view(out@);
                out.push(chat);
                assert(chats_view(out@) =~= prev.push(chat_view(chat)));
            },
            None => {},
        }
        i += 1;
    }
    assert(sessions@.take(sessions.len() as int) == sessions@);
    out
}

/// The last session row with the username: later rows replace earlier ones.
pub open spec fn last_session(sessions: Seq<SessionRow>, username: Seq<char>) -> Option<SessionRow>
    decreases sessions.len(),
{
    if sessions.len() == 0 {
        None
    } else if opt_str_view(sessions.last().username) == Some(username) {
        Some(sessions.last())
    } else {
        last_session(sessions.drop_last(), username)
    }
}

fn find_last_session<'a>(sessions: &'a Vec<SessionRow>, username: &str) -> (r: Option<&'a SessionRow>)
    ensures
        match r {
            Some(s) => last_session(sessions@, username@) == Some(*s),
            None => last_session(sessions@, username@) is None,
        },
{
    let mut i: usize = sessions.len();
    assert(sessions@.take(sessions.len() as int) == sessions@);
    while i > 0
        invariant
            i <= sessions.len(),
            last_session(sessions@, username@) == last_session(sessions@.take(i as int), username@),
        decreases i,
    {
        assert(sessions@.take(i as int).drop_last() == sessions@.take(i - 1));
        assert(sessions@.take(i as int).last() == sessions@[i - 1]);
        let hit = match &sessions[i - 1].username {
            Some(u) => str_eq(u.as_str(), username),
            None => false,
        };
        if hit {
            return Some(&sessions[i - 1]);
        }
        i -= 1;
    }
    None
}

/// Chats found by name: one per matching contact that has a session, in
/// contact order; the last sender's id does not stand in for its name.
pub open spec fn found_chats_spec(contacts: Seq<ContactRow>, sessions: Seq<SessionRow>) -> Seq<ChatSpec>
    decreases contacts.len(),
{
    if contacts.len() == 0 {
        Seq::empty()
    } else {
        let rest = found_chats_spec(contacts.drop_last(), sessions);
        let c = contacts.last();
        match c.username {
            Some(u) => match last_session(sessions, u@) {
                Some(s) => rest.push(chat_spec(u@, s, Some(c), false)),
                None => rest,
            },
            None => rest,
        }
    }
}

/// Turns the contacts that matched a search and their sessions into chats.
pub fn assemble_found_chats(contacts: &Vec<ContactRow>, sessions: &Vec<SessionRow>) -> (r: Vec<Chat>)
    ensures
        chats_view(r@) == found_chats_spec(contacts@, sessions@),
{
    let mut out: Vec<Chat> = Vec::new();
    let mut i: usize = 0;
    while i < contacts.len()
        invariant
            i <= contacts.len(),
            chats_view(out@) == found_chats_spec(contacts@.take(i as int), sessions@),
        decreases contacts.len() - i,
    {
        assert(contacts@.take(i + 1).drop_last() == contacts@.take(i as int));
        assert(contacts@.take(i + 1).last() == contacts@[i as int]);
        let c = &contacts[i];
        match &c.username {
            Some(u) => match find_last_session(sessions, u.as_str()) {
                Some(s) => {
                    let chat = chat_from_rows(u.as_str(), s, Some(c), false);
                    let ghost prev = chats_view(out@);
                    out.push(chat);
                    assert(chats_view(out@) =~= prev.push(chat_view(chat)));
                },
                None => {},
            },
            None => {},
        }
        i += 1;
    }
    assert(contacts@.take(contacts.len() as int) == contacts@);
    out
}

/// The chat with a username, from its session rows and contact rows: the
/// first of each, when there is a session.
pub open spec fn chat_by_username_spec(
    username: Seq<char>,
    sessions: Seq<SessionRow>,
    contacts: Seq<ContactRow>,
) -> Option<ChatSpec> {
    if sessions.len() == 0 {
        None
    } else {
        Some(
            chat_spec(
                username,
                sessions[0],
                if contacts.len() > 0 {
                    Some(contacts[0])
                } else {
                    None
                },
                false,
            ),
        )
    }
}

/// The chat with a username, from the rows its lookup queries returned.
pub fn chat_by_username(username: &str, sessions: &Vec<SessionRow>, contacts: &Vec<ContactRow>) -> (r:
    Option<Chat>)
    ensures
        match r {
            Some(c) => chat_by_username_spec(username@, sessions@, contacts@) == Some(chat_view(c)),
            None => chat_by_username_spec(username@, sessions@, contacts@) is None,
        },
{
    if sessions.len() == 0 {
        return None;
    }
    let c = if contacts.len() > 0 {
        Some(&contacts[0])
    } else {
        None
    };
    Some(chat_from_rows(username, &sessions[0], c, false))
}

/// The columns read from the session table.
pub open spec fn session_columns() -> Seq<char> {
    "SELECT username, type, unread_count, summary, draft, last_timestamp,\n                    sort_timestamp, last_msg_sender, last_sender_display_name, is_hidden,\n                    last_msg_locald_id\n             FROM SessionTable\n             "@
}

/// The columns read from the contact table.
pub open spec fn contact_columns() -> Seq<char> {
    "SELECT username, nick_name, remark, alias, small_head_url, local_type\n             FROM contact\n             "@
}

/// A username as an SQL literal.
pub open spec fn quoted(u: Seq<char>) -> Seq<char> {
    "'"@ + sql_escape_spec(u) + "'"@
}

/// Usernames as a comma-separated list of SQL literals.
pub open spec fn quoted_list(us: Seq<Seq<char>>) -> Seq<char>
    decreases us.len(),
{
    if us.len() == 0 {
        Seq::empty()
    } else if us.len() == 1 {
        quoted(us[0])
    } else {
        quoted_list(us.drop_last()) + ","@ + quoted(us.last())
    }
}

fn push_quoted(out: &mut String, u: &str)
    ensures
        final(out)@ == old(out)@ + quoted(u@),
{
    crate::router::file_downloads::append_str(out, "'");
    let e = sql_escape(u);
    crate::router::file_downloads::append_str(out, e.as_str());
    crate::router::file_downloads::append_str(out, "'");
}

/// The usernames as SQL literals, separated by commas.
pub fn quote_usernames(us: &[String]) -> (r: String)
    ensures
        r@ == quoted_list(strings_view(us@)),
{
    let ghost uv = strings_view(us@);
    let mut out = String::new();
    let mut i: usize = 0;
    while i < us.len()
        invariant
            i <= us.len(),
            uv == strings_view(us@),
            out@ == quoted_list(uv.take(i as int)),
        decreases us.len() - i,
    {
        assert(uv.take(i + 1).drop_last() == uv.take(i as int));
        assert(uv.take(i + 1).last() == us@[i as int]@);
        if i > 0 {
            crate::router::file_downloads::append_str(&mut out, ",");
        } else {
            assert(uv.take(1)[0] == us@[0]@);
            assert(quoted_list(uv.take(0)) == Seq::<char>::empty());
        }
        push_quoted(&mut out, us[i].as_str());
        proof {
            if i == 0 {
                assert(out@ =~= quoted(uv.take(1)[0]));
            }
        }
        i += 1;
    }
    assert(uv.take(us.len() as int) == uv);
    out
}

/// The query for one page of visible sessions, newest first.
pub open spec fn session_page_sql_spec(limit: i64, offset: i64) -> Seq<char> {
    session_columns() + "WHERE is_hidden = 0\n             ORDER BY sort_timestamp DESC\n             LIMIT "@
        + crate::text::signed_decimal(limit as int) + " OFFSET "@ + crate::text::signed_decimal(
        offset as int,
    ) + ";"@
}

/// The query for one page of the chat list.
pub fn session_page_sql(limit: i64, offset: i64) -> (r: String)
    ensures
        r@ == session_page_sql_spec(limit, offset),
{
    let mut q = String::from_str(
        "SELECT username, type, unread_count, summary, draft, last_timestamp,\n                    sort_timestamp, last_msg_sender, last_sender_display_name, is_hidden,\n                    last_msg_locald_id\n             FROM SessionTable\n             ",
    );
    crate::router::file_downloads::append_str(
        &mut q,
        "WHERE is_hidden = 0\n             ORDER BY sort_timestamp DESC\n             LIMIT ",
    );
    crate::text::push_signed_decimal(limit, &mut q);
    crate::router::file_downloads::append_str(&mut q, " OFFSET ");
    crate::text::push_signed_decimal(offset, &mut q);
    crate::router::file_downloads::append_str(&mut q, ";");
    q
}

/// The query for the contacts of some usernames.
pub open spec fn contacts_in_sql_spec(us: Seq<Seq<char>>) -> Seq<char> {
    contact_columns() + "WHERE username IN ("@ + quoted_list(us) + ");"@
}

/// The contact queries for the usernames of a chat page, fifty usernames each.
pub open spec fn contact_batches_spec(us: Seq<Seq<char>>) -> Seq<Seq<char>>
    decreases us.len(),
{
    if us.len() == 0 {
        Seq::empty()
    } else if us.len() <= 50 {
        seq![contacts_in_sql_spec(us)]
    } else {
        seq![contacts_in_sql_spec(us.take(50))] + contact_batches_spec(us.skip(50))
    }
}

/// The queries that look up the contacts of the listed usernames, in batches of fifty.
pub fn contact_batch_sqls(us: &Vec<String>) -> (r: Vec<String>)
    ensures
        strings_view(r@) == contact_batches_spec(strings_view(us@)),
{
    let ghost uv = strings_view(us@);
    let mut out: Vec<String> = Vec::new();
    let mut start: usize = 0;
    assert(uv.skip(0) == uv);
    while start < us.len()
        invariant
            start <= us.len(),
            uv == strings_view(us@),
            strings_view(out@) + contact_batches_spec(uv.skip(start as int)) == contact_batches_spec(uv),
        decreases us.len() - start,
    {
        let end = if us.len() - start > 50 {
            start + 50
        } else {
            us.len()
        };
        let chunk = vstd::slice::slice_subrange(us.as_slice(), start, end);
        let mut q = String::from_str(
            "SELECT username, nick_name, remark, alias, small_head_url, local_type\n             FROM contact\n             ",
        );
        crate::router::file_downloads::append_str(&mut q, "WHERE username IN (");
        let list = quote_usernames(chunk);
        crate::router::file_downloads::append_str(&mut q, list.as_str());
        crate::router::file_downloads::append_str(&mut q, ");");
        let ghost rest = uv.skip(start as int);
        proof {
            assert(strings_view(chunk@) == uv.subrange(start as int, end as int));
            if rest.len() <= 50 {
                assert(rest == uv.subrange(start as int, end as int));
            } else {
                assert(rest.take(50) == uv.subrange(start as int, end as int));
                assert(rest.skip(50) == uv.skip(end as int));
            }
        }
        let ghost prev = strings_view(out@);
        out.push(q);
        assert(strings_view(out@) =~= prev.push(contacts_in_sql_spec(uv.subrange(start as int, end as int))));
        start = end;
        proof {
            if rest.len() <= 50 {
                assert(uv.skip(start as int) =~= Seq::<Seq<char>>::empty());
            }
        }
    }
    assert(uv.skip(us.len() as int) =~= Seq::<Seq<char>>::empty());
    assert(strings_view(out@) + Seq::<Seq<char>>::empty() =~= strings_view(out@));
    out
}

/// The session query for one username.
pub open spec fn session_of_sql_spec(u: Seq<char>) -> Seq<char> {
    session_columns() + "WHERE username = '"@ + sql_escape_spec(u) + "';"@
}

/// The contact query for one username.
pub open spec fn contact_of_sql_spec(u: Seq<char>) -> Seq<char> {
    contact_columns() + "WHERE username = '"@ + sql_escape_spec(u) + "';"@
}

/// The two queries that look up one chat: its session, then its contact.
pub fn chat_lookup_sqls(username: &str) -> (r: (String, String))
    ensures
        r.0@ == session_of_sql_spec(username@),
        r.1@ == contact_of_sql_spec(username@),
{
    let e = sql_escape(username);
    let mut s = String::from_str(
        "SELECT username, type, unread_count, summary, draft, last_timestamp,\n                    sort_timestamp, last_msg_sender, last_sender_display_name, is_hidden,\n                    last_msg_locald_id\n             FROM SessionTable\n             ",
    );
    crate::router::file_downloads::append_str(&mut s, "WHERE username = '");
    crate::router::file_downloads::append_str(&mut s, e.as_str());
    crate::router::file_downloads::append_str(&mut s, "';");
    let mut c = String::from_str(
        "SELECT username, nick_name, remark, alias, small_head_url, local_type\n             FROM contact\n             ",
    );
    crate::router::file_downloads::append_str(&mut c, "WHERE username = '");
    crate::router::file_downloads::append_str(&mut c, e.as_str());
    crate::router::file_downloads::append_str(&mut c, "';");
    (s, c)
}

/// The contact search: names, remarks or usernames containing the text, twenty at most.
pub open spec fn contact_search_sql_spec(q: Seq<char>) -> Seq<char> {
    let e = sql_escape_spec(q);
    contact_columns() + "WHERE nick_name LIKE '%"@ + e + "%'\n                OR remark LIKE '%"@ + e
        + "%'\n                OR username LIKE '%"@ + e + "%'\n             LIMIT 20;"@
}

/// The query that finds contacts by part of a name.
pub fn contact_search_sql(query: &str) -> (r: String)
    ensures
        r@ == contact_search_sql_spec(query@),
{
    let e = sql_escape(query);
    let mut c = String::from_str(
        "SELECT username, nick_name, remark, alias, small_head_url, local_type\n             FROM contact\n             ",
    );
    crate::router::file_downloads::append_str(&mut c, "WHERE nick_name LIKE '%");
    crate::router::file_downloads::append_str(&mut c, e.as_str());
    crate::router::file_downloads::append_str(&mut c, "%'\n                OR remark LIKE '%");
    crate::router::file_downloads::append_str(&mut c, e.as_str());
    crate::router::file_downloads::append_str(&mut c, "%'\n                OR username LIKE '%");
    crate::router::file_downloads::append_str(&mut c, e.as_str());
    crate::router::file_downloads::append_str(&mut c, "%'\n             LIMIT 20;");
    c
}

/// The session query for the contacts a search found, newest first.
pub open spec fn sessions_in_sql_spec(us: Seq<Seq<char>>) -> Seq<char> {
    session_columns() + "WHERE username IN ("@ + quoted_list(us) + ")\n             ORDER BY sort_timestamp DESC;"@
}

/// The session query for a list of usernames.
pub fn sessions_in_sql(us: &Vec<String>) -> (r: String)
    ensures
        r@ == sessions_in_sql_spec(strings_view(us@)),
{
    let mut s = String::from_str(
        "SELECT username, type, unread_count, summary, draft, last_timestamp,\n                    sort_timestamp, last_msg_sender, last_sender_display_name, is_hidden,\n                    last_msg_locald_id\n             FROM SessionTable\n             ",
    );
    crate::router::file_downloads::append_str(&mut s, "WHERE username IN (");
    let list = quote_usernames(us.as_slice());
    crate::router::file_downloads::append_str(&mut s, list.as_str());
    crate::router::file_downloads::append_str(&mut s, ")\n             ORDER BY sort_timestamp DESC;");
    s
}

} // verus!
