//! Voice message jobs: which requests are accepted, how a request is
//! identified for idempotency, and how a job that stopped is recorded.
use vstd::prelude::*;
use vstd::string::StringSliceAdditionalSpecFns;
use crate::codec::{sha256_digest, sha256_of, uuid_accepts, uuid_parses};
use crate::hex::{hex_encode, hex_encode_spec};
use crate::router::file_downloads::bare_file_name;
use crate::router::MAX_UPLOAD_BYTES;
use crate::selectors::query_selector;
use crate::text::{
    any_control, chars_of, ends_with, ends_with_spec, has_control, starts_with, starts_with_spec,
    str_eq, utf8_len, utf8_len_of,
};
use crate::types::{A11yNode, Bounds};

verus! {

/// The directory all voice jobs live under.
pub open spec fn jobs_dir_spec() -> Seq<char> {
    "/data/voice-jobs"@
}

/// An idempotency key: present, at most 200 bytes, no control characters.
pub open spec fn valid_key_spec(key: Seq<char>) -> bool {
    key.len() > 0 && utf8_len(key) <= 200 && !any_control(key)
}

/// Whether the `Idempotency-Key` header value is acceptable.
pub fn valid_idempotency_key(key: &str) -> (r: bool)
    ensures
        r == valid_key_spec(key@),
{
    let k = chars_of(key);
    k.len() > 0 && utf8_len_of(k.as_slice()) <= 200 && !has_control(k.as_slice())
}

/// What to do with the next field of the upload form.
#[derive(Clone, Copy, Debug, PartialEq, Eq, Structural)]
pub enum FieldAction {
    /// Read it as the destination chat id.
    ReadChatId,
    /// Read it as the audio bytes.
    ReadAudio,
    /// Refuse the request: an unexpected or repeated field.
    Reject,
}

/// Only one `chatId` and one `audio` field are read; anything else is refused.
pub fn classify_field(name: &str, have_chat_id: bool, have_audio: bool) -> (r: FieldAction)
    ensures
        r == (if name@ == "chatId"@ && !have_chat_id {
            FieldAction::ReadChatId
        } else if name@ == "audio"@ && !have_audio {
            FieldAction::ReadAudio
        } else {
            FieldAction::Reject
        }),
{
    if str_eq(name, "chatId") && !have_chat_id {
        FieldAction::ReadChatId
    } else if str_eq(name, "audio") && !have_audio {
        FieldAction::ReadAudio
    } else {
        FieldAction::Reject
    }
}

/// Audio is accepted when it is not empty and within the upload limit.
pub fn audio_size_ok(len: usize) -> (r: bool)
    ensures
        r == (0 < len && len <= MAX_UPLOAD_BYTES),
{
    0 < len && len <= MAX_UPLOAD_BYTES
}

/// A destination: present, at most 255 bytes, and not an official account (`gh_`).
pub open spec fn valid_destination_spec(chat_id: Seq<char>) -> bool {
    chat_id.len() > 0 && utf8_len(chat_id) <= 255 && !starts_with_spec(chat_id, "gh_"@)
}

/// Whether a voice message may be sent to this chat.
pub fn valid_destination(chat_id: &str) -> (r: bool)
    ensures
        r == valid_destination_spec(chat_id@),
{
    let c = chars_of(chat_id);
    let p = chars_of("gh_");
    c.len() > 0 && utf8_len_of(c.as_slice()) <= 255 && !starts_with(c.as_slice(), p.as_slice())
}

/// The identity of a request: the lower-case hex SHA-256 of the chat id, a
/// zero byte and the audio.
pub fn request_hash(chat_id: &str, audio: &[u8]) -> (r: String)
    ensures
        r@ == request_hash_spec(chat_id@, audio@),
{
    let mut data: Vec<u8> = Vec::new();
    let b = chat_id.as_bytes();
    let mut i: usize = 0;
    while i < b.len()
        invariant
            i <= b.len(),
            b@ == chat_id.spec_bytes(),
            data@ == b@.take(i as int),
        decreases b.len() - i,
    {
        data.push(b[i]);
        i += 1;
        assert(data@ == b@.take(i as int));
    }
    assert(b@.take(b.len() as int) == b@);
    data.push(0u8);
    let mut j: usize = 0;
    while j < audio.len()
        invariant
            j <= audio.len(),
            data@ == chat_id.spec_bytes() + seq![0u8] + audio@.take(j as int),
        decreases audio.len() - j,
    {
        data.push(audio[j]);
        j += 1;
        assert(audio@.take(j as int) == audio@.take(j - 1).push(audio@[j - 1]));
    }
    assert(audio@.take(audio.len() as int) == audio@);
    let digest = sha256_digest(data.as_slice());
    hex_encode(digest.as_slice())
}

/// The lower-case hex SHA-256 of a request's bytes.
pub open spec fn request_hash_spec(chat_id: Seq<char>, audio: Seq<u8>) -> Seq<char> {
    hex_encode_spec(sha256_of(request_bytes(vstd::utf8::encode_utf8(chat_id), audio)))
}

/// The bytes a request is identified by: the chat id, a zero byte, the audio.
pub open spec fn request_bytes(chat: Seq<u8>, audio: Seq<u8>) -> Seq<u8> {
    chat + seq![0u8] + audio
}

/// Requests whose chat ids hold no zero byte are encoded alike only when their
/// chat ids and audio are alike: another chat or other audio gives other bytes
/// to hash.
pub proof fn lemma_request_bytes_injective(c1: Seq<u8>, a1: Seq<u8>, c2: Seq<u8>, a2: Seq<u8>)
    requires
        !c1.contains(0u8),
        !c2.contains(0u8),
        request_bytes(c1, a1) == request_bytes(c2, a2),
    ensures
        c1 == c2,
        a1 == a2,
{
    let e = request_bytes(c1, a1);
    if c1.len() < c2.len() {
        assert(e[c1.len() as int] == 0u8);
        assert(request_bytes(c2, a2)[c1.len() as int] == c2[c1.len() as int]);
        assert(c2.contains(0u8));
    } else if c2.len() < c1.len() {
        assert(request_bytes(c2, a2)[c2.len() as int] == 0u8);
        assert(e[c2.len() as int] == c1[c2.len() as int]);
        assert(c1.contains(0u8));
    } else {
        assert(c1 =~= e.take(c1.len() as int));
        assert(c2 =~= request_bytes(c2, a2).take(c2.len() as int));
        assert(a1 =~= e.skip(c1.len() as int + 1));
        assert(a2 =~= request_bytes(c2, a2).skip(c2.len() as int + 1));
    }
}

/// What an earlier job under the same key means for a new request.
#[derive(Debug, PartialEq, Eq)]
pub enum ExistingJob {
    /// No job was recorded under the key: create one.
    Fresh,
    /// The key was used for a different chat or audio.
    Conflict,
    /// The same request was made before: answer with that job.
    Same(String),
}

/// An earlier job under the key answers the request when its hash matches,
/// and conflicts with it otherwise.
pub fn existing_job(found: Option<(String, String)>, hash: &str) -> (r: ExistingJob)
    ensures
        match found {
            None => r == ExistingJob::Fresh,
            Some((id, h)) => if h@ == hash@ {
                r matches ExistingJob::Same(j) && j@ == id@
            } else {
                r == ExistingJob::Conflict
            },
        },
{
    match found {
        None => ExistingJob::Fresh,
        Some((id, h)) => {
            if str_eq(h.as_str(), hash) {
                ExistingJob::Same(id)
            } else {
                ExistingJob::Conflict
            }
        },
    }
}

/// The statuses a job stays in once reached.
pub open spec fn terminal_status_spec(s: Seq<char>) -> bool {
    s == "completed"@ || s == "failed"@ || s == "needs_review"@ || s == "cancelled"@
}

/// Whether a job status is final.
pub fn is_terminal_status(s: &str) -> (r: bool)
    ensures
        r == terminal_status_spec(s@),
{
    str_eq(s, "completed") || str_eq(s, "failed") || str_eq(s, "needs_review") || str_eq(
        s,
        "cancelled",
    )
}

/// A chunk whose send may already have happened.
pub open spec fn uncertain_chunk_spec(s: Option<Seq<char>>) -> bool {
    s == Some("send_clicked"@) || s == Some("unknown"@) || s == Some("verified"@)
}

fn uncertain_chunk(s: &Option<String>) -> (r: bool)
    ensures
        r == uncertain_chunk_spec(crate::types::opt_str_view(*s)),
{
    match s {
        Some(v) => str_eq(v.as_str(), "send_clicked") || str_eq(v.as_str(), "unknown") || str_eq(
            v.as_str(),
            "verified",
        ),
        None => false,
    }
}

/// Some chunk's send may already have happened.
pub open spec fn any_uncertain(chunks: Seq<Option<String>>) -> bool {
    exists|i: int| 0 <= i < chunks.len() && uncertain_chunk_spec(crate::types::opt_str_view(#[trigger] chunks[i]))
}

fn has_uncertain_chunk(chunks: &Vec<Option<String>>) -> (r: bool)
    ensures
        r == any_uncertain(chunks@),
{
    let mut i: usize = 0;
    while i < chunks.len()
        invariant
            i <= chunks.len(),
            forall|j: int| 0 <= j < i ==> !uncertain_chunk_spec(crate::types::opt_str_view(#[trigger] chunks@[j])),
        decreases chunks.len() - i,
    {
        if uncertain_chunk(&chunks[i]) {
            return true;
        }
        i += 1;
    }
    false
}

/// The status a job that stopped with an error is left in, given its current
/// status, the statuses of its chunks and whether a cancel was requested:
/// none when it already ended, else `needs_review` when some chunk may have
/// been sent, `cancelled` when asked, `failed` otherwise.
pub open spec fn stopped_status_spec(
    current: Seq<char>,
    chunks: Seq<Option<String>>,
    cancel_requested: bool,
) -> Option<Seq<char>> {
    if terminal_status_spec(current) {
        None
    } else if any_uncertain(chunks) {
        Some("needs_review"@)
    } else if cancel_requested {
        Some("cancelled"@)
    } else {
        Some("failed"@)
    }
}

/// How a job that stopped with an error is recorded.
pub fn stopped_status(current: &str, chunks: &Vec<Option<String>>, cancel_requested: bool) -> (r:
    Option<&'static str>)
    ensures
        match r {
            Some(s) => stopped_status_spec(current@, chunks@, cancel_requested) == Some(s@),
            None => stopped_status_spec(current@, chunks@, cancel_requested) is None,
        },
{
    if is_terminal_status(current) {
        None
    } else if has_uncertain_chunk(chunks) {
        Some("needs_review")
    } else if cancel_requested {
        Some("cancelled")
    } else {
        Some("failed")
    }
}

/// The status an unfinished job is given after a restart: none for a job that
/// ended, `needs_review` when a chunk may have been sent, `failed` otherwise.
pub open spec fn recovered_status_spec(current: Seq<char>, chunks: Seq<Option<String>>) -> Option<
    Seq<char>,
> {
    if terminal_status_spec(current) {
        None
    } else if any_uncertain(chunks) {
        Some("needs_review"@)
    } else {
        Some("failed"@)
    }
}

/// How a job found unfinished at start-up is recorded.
pub fn recovered_status(current: &str, chunks: &Vec<Option<String>>) -> (r: Option<&'static str>)
    ensures
        match r {
            Some(s) => recovered_status_spec(current@, chunks@) == Some(s@),
            None => recovered_status_spec(current@, chunks@) is None,
        },
{
    if is_terminal_status(current) {
        None
    } else if has_uncertain_chunk(chunks) {
        Some("needs_review")
    } else {
        Some("failed")
    }
}

/// A job never gets a recorded status that `stopped_status` would not give it
/// without a cancel: recovery and an uncancelled stop agree.
pub proof fn lemma_recovery_agrees_with_stop(current: Seq<char>, chunks: Seq<Option<String>>)
    ensures
        recovered_status_spec(current, chunks) == stopped_status_spec(current, chunks, false),
{
}

/// A chunk file that may be deleted once the job completed: `chunk-*.wav`,
/// a bare file name.
pub open spec fn removable_chunk_spec(name: Seq<char>) -> bool {
    starts_with_spec(name, "chunk-"@) && ends_with_spec(name, ".wav"@) && bare_file_name(name)
}

/// Whether a chunk path recorded in a job's status names a file of the job's own.
pub fn removable_chunk(name: &str) -> (r: bool)
    ensures
        r == removable_chunk_spec(name@),
{
    let n = chars_of(name);
    let p = chars_of("chunk-");
    let q = chars_of(".wav");
    if !starts_with(n.as_slice(), p.as_slice()) || !ends_with(n.as_slice(), q.as_slice()) {
        return false;
    }
    let mut i: usize = 0;
    while i < n.len()
        invariant
            i <= n.len(),
            n@ == name@,
            forall|j: int| 0 <= j < i ==> n@[j] != '/',
        decreases n.len() - i,
    {
        if n[i] == '/' {
            assert(n@.contains('/'));
            return false;
        }
        i += 1;
    }
    proof {
        reveal_strlit("chunk-");
        assert(p@ == "chunk-"@);
        assert(n@.subrange(0, 6) == p@);
        assert(n@.subrange(0, 6)[0] == 'c');
        assert(n@[0] == 'c');
        assert(n@ != seq!['.']);
        assert(n@ != seq!['.', '.']);
    }
    true
}

/// The directory of a job, refused unless the id parses as a UUID.
pub open spec fn job_dir_spec(job_id: Seq<char>) -> Result<Seq<char>, Seq<char>> {
    if uuid_accepts(vstd::utf8::encode_utf8(job_id)) {
        Ok(jobs_dir_spec() + "/"@ + job_id)
    } else {
        Err("Invalid voice job ID"@)
    }
}

/// The directory of a job; the id must be a UUID, so it cannot leave the jobs directory.
pub fn job_dir(job_id: &str) -> (r: Result<String, String>)
    ensures
        match r {
            Ok(d) => job_dir_spec(job_id@) == Ok::<Seq<char>, Seq<char>>(d@),
            Err(e) => job_dir_spec(job_id@) == Err::<Seq<char>, Seq<char>>(e@),
        },
{
    if !uuid_parses(job_id) {
        return Err(String::from_str("Invalid voice job ID"));
    }
    let mut d = String::from_str("/data/voice-jobs/");
    let id = chars_of(job_id);
    let mut i: usize = 0;
    proof {
        reveal_strlit("/data/voice-jobs/");
        reveal_strlit("/data/voice-jobs");
        reveal_strlit("/");
        assert("/data/voice-jobs/"@ == jobs_dir_spec() + "/"@);
    }
    while i < id.len()
        invariant
            i <= id.len(),
            id@ == job_id@,
            d@ == jobs_dir_spec() + "/"@ + id@.take(i as int),
        decreases id.len() - i,
    {
        d.push(id[i]);
        i += 1;
        assert(id@.take(i as int) == id@.take(i - 1).push(id@[i - 1]));
    }
    assert(id@.take(id.len() as int) == id@);
    Ok(d)
}

/// A job's status is visible only to the account that created it.
pub fn current_account_owns(logged_in: Option<&str>, account_id: Option<&str>) -> (r: bool)
    ensures
        r == (match (logged_in, account_id) {
            (Some(a), Some(b)) => a@ == b@,
            (None, None) => true,
            _ => false,
        }),
{
    match (logged_in, account_id) {
        (Some(a), Some(b)) => str_eq(a, b),
        (None, None) => true,
        _ => false,
    }
}

/// The first chat in the chat list: where the window is clicked before the
/// destination chat is opened.
pub open spec fn chat_list_item_selector() -> Seq<char> {
    "list[name=\"Chats\"] > list-item"@
}

/// The centre of the first chat list item, when it has bounds.
pub open spec fn chat_list_click_spec(tree: A11yNode) -> Option<(int, int)> {
    match crate::selectors::query_selector_spec(tree, chat_list_item_selector()) {
        Some(item) => match item.bounds {
            Some(b) => Some(crate::types::center_of(b)),
            None => None,
        },
        None => None,
    }
}

/// Where to click before opening the destination chat; an error when the chat
/// list has no item with bounds.
pub fn chat_list_click_target(tree: &A11yNode) -> (r: Result<(i64, i64), String>)
    ensures
        match r {
            Ok(p) => chat_list_click_spec(*tree) == Some((p.0 as int, p.1 as int)),
            Err(e) => chat_list_click_spec(*tree) is None && e@
                == "Chat list click target is unavailable"@,
        },
{
    let sel = "list[name=\"Chats\"] > list-item";
    proof {
        assert(sel@ == chat_list_item_selector());
    }
    match query_selector(tree, sel) {
        Some(item) => match &item.bounds {
            Some(b) => Ok(crate::actions::bounds_center(b)),
            None => Err(String::from_str("Chat list click target is unavailable")),
        },
        None => Err(String::from_str("Chat list click target is unavailable")),
    }
}

/// What opening the destination chat reported.
pub struct OpenedChat {
    pub ok: bool,
    pub error: Option<String>,
    pub username: Option<String>,
}

/// Recording starts only when the chat that opened is the destination: the
/// opener's own error (or a generic one) when it failed, another error when a
/// different chat opened.
pub open spec fn opened_check_spec(opened: OpenedChat, chat_id: Seq<char>) -> Result<(), Seq<char>> {
    if !opened.ok {
        match opened.error {
            Some(e) => Err(e@),
            None => Err("Chat selection failed"@),
        }
    } else if crate::types::opt_str_view(opened.username) != Some(chat_id) {
        Err("Chat selection returned a different destination"@)
    } else {
        Ok(())
    }
}

/// Checks that the opened chat is the destination before any audio is sent.
pub fn check_opened(opened: OpenedChat, chat_id: &str) -> (r: Result<(), String>)
    ensures
        match r {
            Ok(_) => opened_check_spec(opened, chat_id@) == Ok::<(), Seq<char>>(()),
            Err(e) => opened_check_spec(opened, chat_id@) == Err::<(), Seq<char>>(e@),
        },
{
    if !opened.ok {
        return match opened.error {
            Some(e) => Err(e),
            None => Err(String::from_str("Chat selection failed")),
        };
    }
    let same = match &opened.username {
        Some(u) => str_eq(u.as_str(), chat_id),
        None => false,
    };
    if !same {
        return Err(String::from_str("Chat selection returned a different destination"));
    }
    Ok(())
}

// ============================================
// The status document
// ============================================

/// What is read of a job's `status.json`.
#[derive(Debug)]
pub struct JobFields {
    /// `accountId`, when it is a string.
    pub account_id: Option<String>,
    /// `status`, when it is a string.
    pub status: Option<String>,
    /// The `status` of each element of the `chunks` array (empty when there is
    /// no such array).
    pub chunk_statuses: Vec<Option<String>>,
    /// The `path` of each element of the `chunks` array.
    pub chunk_paths: Vec<Option<String>>,
}

pub open spec fn opt_strings_view(v: Seq<Option<String>>) -> Seq<Option<Seq<char>>> {
    v.map_values(|o: Option<String>| crate::types::opt_str_view(o))
}

/// A string member of each element of an array that may be missing.
pub open spec fn chunk_field(
    items: Option<Seq<Option<Seq<(Seq<char>, Option<Seq<char>>)>>>>,
    name: Seq<char>,
) -> Seq<Option<Seq<char>>> {
    match items {
        Some(es) => es.map_values(
            |e: Option<Seq<(Seq<char>, Option<Seq<char>>)>>| crate::json::opt_str_member(e, name),
        ),
        None => Seq::empty(),
    }
}

/// The fields of a status document, or the message that it could not be read.
pub open spec fn job_fields_spec(bytes: Seq<u8>) -> Result<
    (Option<Seq<char>>, Option<Seq<char>>, Seq<Option<Seq<char>>>, Seq<Option<Seq<char>>>),
    Seq<char>,
> {
    match crate::json::json_bytes_shape(bytes, "chunks"@) {
        Err(e) => Err("Voice job status is unavailable: "@ + e),
        Ok(sh) => Ok(
            (
                crate::json::opt_str_member(sh.0, "accountId"@),
                crate::json::opt_str_member(sh.0, "status"@),
                chunk_field(sh.2, "status"@),
                chunk_field(sh.2, "path"@),
            ),
        ),
    }
}

fn chunk_field_exec(items: &Option<Vec<Option<Vec<(String, Option<String>)>>>>, name: &str) -> (r: Vec<
    Option<String>,
>)
    ensures
        opt_strings_view(r@) == chunk_field(crate::json::items_view(*items), name@),
{
    let mut out: Vec<Option<String>> = Vec::new();
    match items {
        None => {
            assert(opt_strings_view(out@) =~= Seq::<Option<Seq<char>>>::empty());
            out
        },
        Some(es) => {
            let ghost ev = es@.map_values(
                |e: Option<Vec<(String, Option<String>)>>| crate::json::opt_members_view(e),
            );
            let mut i: usize = 0;
            while i < es.len()
                invariant
                    i <= es.len(),
                    ev == es@.map_values(
                        |e: Option<Vec<(String, Option<String>)>>| crate::json::opt_members_view(e),
                    ),
                    opt_strings_view(out@) == ev.take(i as int).map_values(
                        |e: Option<Seq<(Seq<char>, Option<Seq<char>>)>>| crate::json::opt_str_member(e, name@),
                    ),
                decreases es.len() - i,
            {
                let v = crate::json::opt_str_member_of(&es[i], name);
                let ghost before = opt_strings_view(out@);
                out.push(v);
                assert(ev.take(i + 1) =~= ev.take(i as int).push(ev[i as int]));
                assert(opt_strings_view(out@) =~= before.push(crate::json::opt_str_member(ev[i as int], name@)));
                i += 1;
            }
            assert(ev.take(es.len() as int) =~= ev);
            out
        },
    }
}

/// Read a job's status document.
pub fn job_status_fields(bytes: &[u8]) -> (r: Result<JobFields, String>)
    ensures
        match r {
            Ok(f) => job_fields_spec(bytes@) == Ok::<
                (Option<Seq<char>>, Option<Seq<char>>, Seq<Option<Seq<char>>>, Seq<Option<Seq<char>>>),
                Seq<char>,
            >(
                (
                    crate::types::opt_str_view(f.account_id),
                    crate::types::opt_str_view(f.status),
                    opt_strings_view(f.chunk_statuses@),
                    opt_strings_view(f.chunk_paths@),
                ),
            ),
            Err(e) => job_fields_spec(bytes@) == Err::<
                (Option<Seq<char>>, Option<Seq<char>>, Seq<Option<Seq<char>>>, Seq<Option<Seq<char>>>),
                Seq<char>,
            >(e@),
        },
{
    proof {
        reveal_strlit("chunks");
    }
    match crate::json::parse_bytes(bytes, "chunks") {
        Err(e) => {
            let mut m = String::from_str("Voice job status is unavailable: ");
            crate::router::file_downloads::append_str(&mut m, e.as_str());
            Err(m)
        },
        Ok(sh) => Ok(
            JobFields {
                account_id: crate::json::opt_str_member_of(&sh.top, "accountId"),
                status: crate::json::opt_str_member_of(&sh.top, "status"),
                chunk_statuses: chunk_field_exec(&sh.items, "status"),
                chunk_paths: chunk_field_exec(&sh.items, "path"),
            },
        ),
    }
}

} // verus!
