//! The chat routes' own rules: paging defaults, when keys are re-extracted,
//! and which chats may be opened.
use vstd::prelude::*;
use crate::text::{chars_of, starts_with, starts_with_spec, str_eq};

verus! {

/// Paging of the chat list.
pub struct ListParams {
    pub limit: i64,
    pub offset: i64,
}

/// A chat search by name.
pub struct FindParams {
    pub name: String,
}

/// Options of opening a chat.
pub struct OpenChatParams {
    pub clear_unreads: bool,
}

/// The page size when a request names none.
pub fn default_limit() -> (r: i64)
    ensures
        r == 50,
{
    50
}

/// A key is stored under the name.
pub open spec fn has_key_spec(keys: Seq<(String, String)>, name: Seq<char>) -> bool {
    exists|i: int| 0 <= i < keys.len() && (#[trigger] keys[i]).0@ == name
}

fn has_key(keys: &Vec<(String, String)>, name: &str) -> (r: bool)
    ensures
        r == has_key_spec(keys@, name@),
{
    let mut i: usize = 0;
    while i < keys.len()
        invariant
            i <= keys.len(),
            forall|j: int| 0 <= j < i ==> (#[trigger] keys@[j]).0@ != name@,
        decreases keys.len() - i,
    {
        if str_eq(keys[i].0.as_str(), name) {
            assert(keys@[i as int].0@ == name@);
            return true;
        }
        i += 1;
    }
    false
}

/// The chat databases: sessions and contacts.
pub open spec fn chat_db(name: Seq<char>) -> bool {
    name == "session.db"@ || name == "contact.db"@
}

/// Both chat databases have a stored key.
pub open spec fn chat_keys_present_spec(keys: Seq<(String, String)>) -> bool {
    has_key_spec(keys, "session.db"@) && has_key_spec(keys, "contact.db"@)
}

/// Whether the chat databases can be opened with the stored keys.
pub fn chat_keys_present(keys: &Vec<(String, String)>) -> (r: bool)
    ensures
        r == chat_keys_present_spec(keys@),
{
    has_key(keys, "session.db") && has_key(keys, "contact.db")
}

/// A chat database lies on disk without a stored key.
pub open spec fn chat_key_missing_spec(on_disk: Seq<String>, keys: Seq<(String, String)>) -> bool {
    exists|i: int| 0 <= i < on_disk.len() && chat_db((#[trigger] on_disk[i])@) && !has_key_spec(keys, on_disk[i]@)
}

/// Whether the keys must be extracted again before chats can be read.
pub fn chat_key_missing(on_disk: &Vec<String>, keys: &Vec<(String, String)>) -> (r: bool)
    ensures
        r == chat_key_missing_spec(on_disk@, keys@),
{
    let mut i: usize = 0;
    while i < on_disk.len()
        invariant
            i <= on_disk.len(),
            forall|j: int| 0 <= j < i ==> !(chat_db((#[trigger] on_disk@[j])@) && !has_key_spec(keys@, on_disk@[j]@)),
        decreases on_disk.len() - i,
    {
        let n = on_disk[i].as_str();
        if (str_eq(n, "session.db") || str_eq(n, "contact.db")) && !has_key(keys, n) {
            assert(chat_db(on_disk@[i as int]@));
            return true;
        }
        i += 1;
    }
    false
}

/// Why a chat cannot be opened, checked in this order: no session, no one
/// logged in, an official account.
pub open spec fn open_chat_refusal_spec(has_session: bool, logged_in: bool, chat_id: Seq<char>) -> Option<Seq<char>> {
    if !has_session {
        Some("No session available"@)
    } else if !logged_in {
        Some("NOT_LOGGED_IN"@)
    } else if starts_with_spec(chat_id, "gh_"@) {
        Some("Opening official accounts is not supported"@)
    } else {
        None
    }
}

/// The refusal of a request to open a chat, if any.
pub fn open_chat_refusal(has_session: bool, logged_in: bool, chat_id: &str) -> (r: Option<&'static str>)
    ensures
        match r {
            Some(m) => open_chat_refusal_spec(has_session, logged_in, chat_id@) == Some(m@),
            None => open_chat_refusal_spec(has_session, logged_in, chat_id@) is None,
        },
{
    if !has_session {
        Some("No session available")
    } else if !logged_in {
        Some("NOT_LOGGED_IN")
    } else if starts_with(chars_of(chat_id).as_slice(), chars_of("gh_").as_slice()) {
        Some("Opening official accounts is not supported")
    } else {
        None
    }
}

/// The error reported when opening failed: the plan's own, or a generic one.
pub fn open_chat_error(error: Option<String>) -> (r: String)
    ensures
        r@ == match error {
            Some(e) => e@,
            None => "Chat open failed"@,
        },
{
    match error {
        Some(e) => e,
        None => String::from_str("Chat open failed"),
    }
}

} // verus!
