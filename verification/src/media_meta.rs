//! What a native media download may be asked for: which messages qualify,
//! which stored content is trusted, and which account the database names.
use vstd::prelude::*;
use crate::media::{is_hex_char, native_group_spec, native_user_spec, safe_name_spec};
use crate::messages::{video_attr_spec, xml_tag_spec};
use crate::text::{any_control, chars_of, parse_int_spec, str_eq, utf8_len};

verus! {

/// The message type of a file attachment.
pub open spec fn file_kind() -> i64 {
    0x6_0000_0031
}

/// A download can be asked for a positive 32-bit local id in a chat with a
/// plain user id or a group id.
pub open spec fn request_ok_spec(id: i64, chat: Seq<char>) -> bool {
    0 < id <= u32::MAX && (native_user_spec(chat) || native_group_spec(chat))
}

/// Whether a download may be asked for this message of this chat.
pub fn metadata_request_ok(id: i64, chat: &str) -> (r: bool)
    ensures
        r == request_ok_spec(id, chat@),
{
    0 < id && id <= u32::MAX as i64 && (crate::media::native_user_id(chat)
        || crate::media::native_group_id(chat))
}

/// A digest as stored: exactly 32 hex digits.
pub open spec fn md5_text_ok(h: Seq<char>) -> bool {
    h.len() == 32 && forall|i: int| 0 <= i < h.len() ==> is_hex_char(#[trigger] h[i])
}

fn md5_text_ok_exec(h: &str) -> (r: bool)
    ensures
        r == md5_text_ok(h@),
{
    let c = chars_of(h);
    if c.len() != 32 {
        return false;
    }
    let mut i: usize = 0;
    while i < c.len()
        invariant
            i <= c.len(),
            c@ == h@,
            forall|j: int| 0 <= j < i ==> is_hex_char(#[trigger] c@[j]),
        decreases c.len() - i,
    {
        let x = c[i];
        if !(('0' <= x && x <= '9') || ('a' <= x && x <= 'f') || ('A' <= x && x <= 'F')) {
            return false;
        }
        i += 1;
    }
    true
}

pub open spec fn parses_u64(s: Option<Seq<char>>) -> bool {
    match s {
        Some(t) => parse_int_spec(t, 0, u64::MAX as int) is Some,
        None => false,
    }
}

pub open spec fn md5_present(s: Option<Seq<char>>) -> bool {
    match s {
        Some(t) => md5_text_ok(t),
        None => false,
    }
}

/// Stored content is trusted for a native download when the message is an
/// image, a video or a file; the content is not empty, at most 1 MiB and
/// free of NUL; a file names a safe title, a size and a digest; a video a
/// length and a digest.
pub open spec fn content_ok_spec(kind: i64, content: Seq<char>) -> bool {
    &&& (kind == 3 || kind == 43 || kind == file_kind())
    &&& content.len() > 0
    &&& utf8_len(content) <= 1048576
    &&& !content.contains('\0')
    &&& (kind == file_kind() ==> (match xml_tag_spec(content, "title"@) {
        Some(t) => safe_name_spec(t),
        None => false,
    }) && parses_u64(xml_tag_spec(content, "totallen"@)) && md5_present(xml_tag_spec(content, "md5"@)))
    &&& (kind == 43 ==> parses_u64(video_attr_spec(content, "length"@)) && md5_present(
        video_attr_spec(content, "md5"@),
    ))
}

fn parses_u64_exec(s: Option<String>) -> (r: bool)
    ensures
        r == parses_u64(crate::types::opt_str_view(s)),
{
    match s {
        Some(t) => {
            let c = chars_of(t.as_str());
            crate::text::parse_int(c.as_slice(), 0, 0xffff_ffff_ffff_ffff).is_some()
        },
        None => false,
    }
}

fn md5_present_exec(s: Option<String>) -> (r: bool)
    ensures
        r == md5_present(crate::types::opt_str_view(s)),
{
    match s {
        Some(t) => md5_text_ok_exec(t.as_str()),
        None => false,
    }
}

/// Whether a message's stored content may be handed to the native downloader.
pub fn metadata_content_ok(kind: i64, content: &str) -> (r: bool)
    ensures
        r == content_ok_spec(kind, content@),
{
    if kind != 3 && kind != 43 && kind != 0x6_0000_0031 {
        return false;
    }
    let c = chars_of(content);
    if c.len() == 0 || crate::text::utf8_len_of(c.as_slice()) > 1048576 {
        return false;
    }
    let mut i: usize = 0;
    while i < c.len()
        invariant
            i <= c.len(),
            c@ == content@,
            forall|j: int| 0 <= j < i ==> c@[j] != '\0',
        decreases c.len() - i,
    {
        if c[i] == '\0' {
            assert(c@.contains('\0'));
            return false;
        }
        i += 1;
    }
    if kind == 0x6_0000_0031 {
        let title_ok = match crate::messages::extract_xml_tag(content, "title") {
            Some(t) => crate::media::safe_attachment_name(t.as_str()),
            None => false,
        };
        if !title_ok {
            return false;
        }
        if !parses_u64_exec(crate::messages::extract_xml_tag(content, "totallen")) {
            return false;
        }
        if !md5_present_exec(crate::messages::extract_xml_tag(content, "md5")) {
            return false;
        }
    } else if kind == 43 {
        if !parses_u64_exec(crate::messages::video_attr(content, "length")) {
            return false;
        }
        if !md5_present_exec(crate::messages::video_attr(content, "md5")) {
            return false;
        }
    }
    true
}

/// A name the database may record the account under: the account itself, or
/// a prefix of it followed by `_` and four hex digits.
pub open spec fn account_alias(name: Seq<char>, account: Seq<char>) -> bool {
    name == account || (account.len() == name.len() + 5 && account.take(name.len() as int) == name
        && account[name.len() as int] == '_' && forall|i: int| name.len() + 1 <= i < account.len()
        ==> is_hex_char(#[trigger] account[i]))
}

fn account_alias_exec(name: &str, account: &str) -> (r: bool)
    ensures
        r == account_alias(name@, account@),
{
    if str_eq(name, account) {
        return true;
    }
    let n = chars_of(name);
    let a = chars_of(account);
    if a.len() < 5 || n.len() != a.len() - 5 {
        return false;
    }
    if !crate::text::starts_with(a.as_slice(), n.as_slice()) || a[n.len()] != '_' {
        return false;
    }
    let mut i: usize = n.len() + 1;
    while i < a.len()
        invariant
            n.len() + 1 <= i <= a.len(),
            a@ == account@,
            n@ == name@,
            forall|j: int| n.len() + 1 <= j < i ==> is_hex_char(#[trigger] a@[j]),
        decreases a.len() - i,
    {
        let x = a[i];
        if !(('0' <= x && x <= '9') || ('a' <= x && x <= 'f') || ('A' <= x && x <= 'F')) {
            return false;
        }
        i += 1;
    }
    true
}

/// The names among the rows that stand for the account, in order.
pub open spec fn aliases(names: Seq<String>, account: Seq<char>) -> Seq<Seq<char>>
    decreases names.len(),
{
    if names.len() == 0 {
        Seq::empty()
    } else if account_alias(names.last()@, account) {
        aliases(names.drop_last(), account).push(names.last()@)
    } else {
        aliases(names.drop_last(), account)
    }
}

/// The account's id in the database: the only matching name, when there is
/// exactly one and it is not the chat itself.
pub open spec fn database_account_spec(names: Seq<String>, account: Seq<char>, chat: Seq<char>) -> Option<Seq<char>> {
    let m = aliases(names, account);
    if m.len() == 1 && m[0] != chat {
        Some(m[0])
    } else {
        None
    }
}

/// The positions found so far are those of the aliases among the first `i` names.
pub open spec fn found_ok(found: Seq<usize>, names: Seq<String>, i: int, account: Seq<char>) -> bool {
    &&& found.len() == aliases(names.take(i), account).len()
    &&& forall|k: int| #![trigger found[k]] 0 <= k < found.len() ==> found[k] < i && aliases(names.take(i), account)[k]
        == names[found[k] as int]@
}

proof fn lemma_found_step(
    found_old: Seq<usize>,
    names: Seq<String>,
    i: int,
    account: Seq<char>,
    hit: bool,
    found_new: Seq<usize>,
)
    requires
        found_ok(found_old, names, i, account),
        0 <= i < names.len(),
        i < usize::MAX,
        hit == account_alias(names[i]@, account),
        found_new == (if hit { found_old.push(i as usize) } else { found_old }),
    ensures
        found_ok(found_new, names, i + 1, account),
{
    let prev_al = aliases(names.take(i), account);
    let new_al = aliases(names.take(i + 1), account);
    assert(names.take(i + 1).drop_last() == names.take(i));
    assert(names.take(i + 1).last() == names[i]);
    assert(new_al == if hit { prev_al.push(names[i]@) } else { prev_al });
    assert forall|k: int| #![trigger found_new[k]] 0 <= k < found_new.len() implies found_new[k] < i + 1 && aliases(
        names.take(i + 1),
        account,
    )[k] == names[found_new[k] as int]@ by {
        if k < found_old.len() {
            assert(found_new[k] == found_old[k]);
            assert(new_al[k] == prev_al[k]);
        } else {
            assert(found_new[k] == i);
        }
    }
    assert(found_new.len() == new_al.len());
}

/// Picks the account's id among the names the database returned.
pub fn database_account(names: &Vec<String>, account: &str, chat: &str) -> (r: Option<String>)
    ensures
        crate::types::opt_str_view(r) == database_account_spec(names@, account@, chat@),
{
    let mut found: Vec<usize> = Vec::new();
    let mut i: usize = 0;
    while i < names.len()
        invariant
            i <= names.len(),
            found_ok(found@, names@, i as int, account@),
        decreases names.len() - i,
    {
        assert(names@.take(i + 1).drop_last() == names@.take(i as int));
        assert(names@.take(i + 1).last() == names@[i as int]);
        let ghost prev_al = aliases(names@.take(i as int), account@);
        let ghost prev_found = found@;
        let ghost old_i = i;
        let hit = account_alias_exec(names[i].as_str(), account);
        if hit {
            found.push(i);
        }
        i += 1;
        proof {
            lemma_found_step(prev_found, names@, old_i as int, account@, hit, found@);
        }
    }
    assert(names@.take(names.len() as int) == names@);
    if found.len() != 1 {
        return None;
    }
    let k = found[0];
    if str_eq(names[k].as_str(), chat) {
        return None;
    }
    Some(names[k].clone())
}

/// The query that reads one message for a native download.
pub open spec fn metadata_sql_spec(table: Seq<char>, id: i64) -> Seq<char> {
    "SELECT m.local_id, m.local_type, CAST(m.server_id AS TEXT) AS server_id,\n         CAST(m.sort_seq AS TEXT) AS sort_seq, m.create_time,\n         hex(m.message_content) AS body, m.WCDB_CT_message_content AS compressed,\n         n.user_name AS sender FROM \""@
        + table
        + "\" m\n         LEFT JOIN Name2Id n ON n.rowid=m.real_sender_id WHERE m.local_id="@
        + crate::text::signed_decimal(id as int) + " LIMIT 1;"@
}

/// Builds the message query of a native download.
pub fn metadata_sql(table: &str, id: i64) -> (r: String)
    ensures
        r@ == metadata_sql_spec(table@, id),
{
    let mut s = String::from_str(
        "SELECT m.local_id, m.local_type, CAST(m.server_id AS TEXT) AS server_id,\n         CAST(m.sort_seq AS TEXT) AS sort_seq, m.create_time,\n         hex(m.message_content) AS body, m.WCDB_CT_message_content AS compressed,\n         n.user_name AS sender FROM \"",
    );
    crate::router::file_downloads::append_str(&mut s, table);
    crate::router::file_downloads::append_str(
        &mut s,
        "\" m\n         LEFT JOIN Name2Id n ON n.rowid=m.real_sender_id WHERE m.local_id=",
    );
    crate::text::push_signed_decimal(id, &mut s);
    crate::router::file_downloads::append_str(&mut s, " LIMIT 1;");
    s
}

/// The query for the names that may stand for the account.
pub open spec fn alias_sql_spec(account: Seq<char>) -> Seq<char> {
    let e = crate::contacts::sql_escape_spec(account);
    "SELECT user_name FROM Name2Id WHERE user_name='"@ + e
        + "' OR\n         substr('"@ + e + "',1,length(user_name)+1)=user_name||'_';"@
}

/// Builds the account-alias query.
pub fn alias_sql(account: &str) -> (r: String)
    ensures
        r@ == alias_sql_spec(account@),
{
    let e = crate::contacts::sql_escape(account);
    let mut s = String::from_str("SELECT user_name FROM Name2Id WHERE user_name='");
    crate::router::file_downloads::append_str(&mut s, e.as_str());
    crate::router::file_downloads::append_str(&mut s, "' OR\n         substr('");
    crate::router::file_downloads::append_str(&mut s, e.as_str());
    crate::router::file_downloads::append_str(&mut s, "',1,length(user_name)+1)=user_name||'_';");
    s
}

/// The query that reads one message's raw content.
pub open spec fn raw_message_sql_spec(table: Seq<char>, local_id: i64) -> Seq<char> {
    "SELECT local_type, create_time,\n                    hex(message_content) as hex_content,\n                    WCDB_CT_message_content as is_compressed\n             FROM \""@
        + table + "\"\n             WHERE local_id = "@ + crate::text::signed_decimal(local_id as int)
        + "\n             LIMIT 1;"@
}

/// Builds the raw message query.
pub fn raw_message_sql(table: &str, local_id: i64) -> (r: String)
    ensures
        r@ == raw_message_sql_spec(table@, local_id),
{
    let mut s = String::from_str(
        "SELECT local_type, create_time,\n                    hex(message_content) as hex_content,\n                    WCDB_CT_message_content as is_compressed\n             FROM \"",
    );
    crate::router::file_downloads::append_str(&mut s, table);
    crate::router::file_downloads::append_str(&mut s, "\"\n             WHERE local_id = ");
    crate::text::push_signed_decimal(local_id, &mut s);
    crate::router::file_downloads::append_str(&mut s, "\n             LIMIT 1;");
    s
}

} // verus!
