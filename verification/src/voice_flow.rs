//! The two conversations a voice job goes through: the request that creates
//! it (form fields, idempotency lookup, job files, the insert that claims the
//! key) and the run that records and sends it. Each is a step function from
//! the current stage and what the caller learned to the next stage and what
//! the caller does next; the caller performs the I/O.
use vstd::prelude::*;
use crate::plans::strings_view;
use crate::router::MAX_UPLOAD_BYTES;
use crate::text::{chars_of, str_eq, string_of};
use crate::types::{opt_str_view, A11yNode};
use crate::voice::{
    terminal_status_spec, audio_size_ok, chat_list_click_spec, chat_list_click_target, check_opened, classify_field,
    job_dir, job_dir_spec, opened_check_spec, opt_strings_view, removable_chunk,
    removable_chunk_spec, request_hash, request_hash_spec, stopped_status, stopped_status_spec,
    valid_destination, valid_destination_spec, valid_idempotency_key, valid_key_spec, FieldAction,
    JobFields, OpenedChat,
};
use crate::wechat_db::{join_path, join_path_exec};

verus! {

// ============================================
// Creating a job
// ============================================

/// Why a request to create a voice job was refused.
#[derive(Debug)]
pub enum VoiceError {
    NotLoggedIn,
    InvalidKey,
    UnexpectedField,
    AudioSize,
    InvalidDestination,
    AudioRequired,
    /// The key was used before for another chat or other audio.
    KeyReused,
    /// The job that answers a repeated request has no readable status.
    StatusUnavailable,
    /// A message from reading the form, the store or the file system.
    Other(String),
}

/// The `error` text of a refusal.
pub open spec fn voice_error_text(e: VoiceError) -> Seq<char> {
    match e {
        VoiceError::NotLoggedIn => "NOT_LOGGED_IN"@,
        VoiceError::InvalidKey => "A valid Idempotency-Key is required"@,
        VoiceError::UnexpectedField => "Unexpected or duplicate form field"@,
        VoiceError::AudioSize => "Audio is empty or exceeds 128 MiB"@,
        VoiceError::InvalidDestination => "Invalid destination chat"@,
        VoiceError::AudioRequired => "Audio file is required"@,
        VoiceError::KeyReused => "Idempotency-Key was used with different audio or destination"@,
        VoiceError::StatusUnavailable => "Voice job status unavailable"@,
        VoiceError::Other(m) => m@,
    }
}

impl VoiceError {
    /// The `error` text of this refusal.
    pub fn message(&self) -> (r: String)
        ensures
            r@ == voice_error_text(*self),
    {
        match self {
            VoiceError::NotLoggedIn => String::from_str("NOT_LOGGED_IN"),
            VoiceError::InvalidKey => String::from_str("A valid Idempotency-Key is required"),
            VoiceError::UnexpectedField => String::from_str("Unexpected or duplicate form field"),
            VoiceError::AudioSize => String::from_str("Audio is empty or exceeds 128 MiB"),
            VoiceError::InvalidDestination => String::from_str("Invalid destination chat"),
            VoiceError::AudioRequired => String::from_str("Audio file is required"),
            VoiceError::KeyReused => String::from_str(
                "Idempotency-Key was used with different audio or destination",
            ),
            VoiceError::StatusUnavailable => String::from_str("Voice job status unavailable"),
            VoiceError::Other(m) => m.clone(),
        }
    }
}

/// The body of the answer.
#[derive(Debug)]
pub enum VoiceAnswer {
    /// `{"error": ...}`.
    Error(VoiceError),
    /// The status document that was just read.
    StoredStatus,
    /// The status document of the new job: queued, no chunks yet.
    Queued { job_id: String, chat_id: String, account: String },
}

/// Where the creation of a job stands.
#[derive(Debug)]
pub enum VoiceCreate {
    /// Nothing is known of the request yet.
    Start,
    /// Waiting for the next form field's name.
    Form { account: String, key: String, chat_id: Option<String>, audio: Option<Vec<u8>> },
    /// Waiting for the text of the `chatId` field.
    FormText { account: String, key: String, audio: Option<Vec<u8>> },
    /// Waiting for the bytes of the `audio` field.
    FormBytes { account: String, key: String, chat_id: Option<String> },
    /// Waiting for the job recorded under the account and key, if any.
    LookingUp { account: String, key: String, chat_id: String, audio: Vec<u8>, hash: String },
    /// Waiting for the stored job's status document; after an insert that lost
    /// a race, an unreadable document is answered with a fixed message.
    ReadingStored { after_insert: bool },
    /// Waiting for the job directory and its input file.
    Preparing { account: String, key: String, chat_id: String, hash: String, job_id: String, dir: String },
    /// Waiting for the queued status document to be written.
    Writing { account: String, key: String, chat_id: String, hash: String, job_id: String, dir: String },
    /// Waiting for the insert that claims the key.
    Inserting { account: String, key: String, chat_id: String, hash: String, job_id: String, dir: String },
    /// The insert claimed nothing: waiting for the job that holds the key.
    LookingAgain { hash: String },
    /// The request was answered.
    Done,
}

/// What the caller learned.
pub enum VoiceCreateEvent {
    /// The logged-in account, if any, and the `Idempotency-Key` header
    /// (empty when missing or not text).
    Begin { account: Option<String>, key: String },
    /// The next form field's name (empty when it has none); none when the form ended.
    Field(Result<Option<String>, String>),
    /// The text of the field.
    Text(Result<String, String>),
    /// The bytes of the field.
    Bytes(Result<Vec<u8>, String>),
    /// The job id and request hash recorded under the account and key, and a
    /// fresh job id for a new job.
    Looked { found: Result<Option<(String, String)>, String>, new_job_id: String },
    /// Whether the stored status document could be read.
    StatusRead(Result<(), String>),
    /// Whether the job directory and its input file were written.
    Prepared(Result<(), String>),
    /// Whether the queued status document was written.
    Written(Result<(), String>),
    /// How many rows the insert added.
    Inserted(Result<usize, String>),
    /// The job id and request hash now recorded under the account and key.
    LookedAgain(Result<(String, String), String>),
}

/// What the caller does next.
#[derive(Debug)]
pub enum VoiceCreateAction {
    /// Read the next form field.
    ReadField,
    /// Read the field as text.
    ReadText,
    /// Read the field as bytes.
    ReadBytes,
    /// Look up the job recorded under the account and key.
    LookUp { account: String, key: String },
    /// Read the status document of a job.
    ReadStored { job_id: String },
    /// Create the job directory and write the audio to its `input` file.
    Prepare { dir: String, audio: Vec<u8> },
    /// Write the queued status document of the job.
    WriteStatus { job_id: String, chat_id: String, account: String },
    /// Insert the job under the account and key, unless the key is taken.
    Insert { job_id: String, account: String, key: String, hash: String },
    /// Remove the job directory, then look up the job that holds the key.
    LookUpAgain { dir: String, account: String, key: String },
    /// Answer with a status code and body, after removing a directory when one
    /// is named; start the job's run when `spawn` is set.
    Respond { code: u16, answer: VoiceAnswer, remove_dir: Option<String>, spawn: bool },
}

/// A refusal with nothing to clean up.
pub open spec fn refuse(code: u16, e: VoiceError) -> VoiceCreateAction {
    VoiceCreateAction::Respond { code, answer: VoiceAnswer::Error(e), remove_dir: None, spawn: false }
}

/// Whether the event is the one the stage waits for.
pub open spec fn create_accepts(s: VoiceCreate, e: VoiceCreateEvent) -> bool {
    match (s, e) {
        (VoiceCreate::Start, VoiceCreateEvent::Begin { .. }) => true,
        (VoiceCreate::Form { .. }, VoiceCreateEvent::Field(_)) => true,
        (VoiceCreate::FormText { .. }, VoiceCreateEvent::Text(_)) => true,
        (VoiceCreate::FormBytes { .. }, VoiceCreateEvent::Bytes(_)) => true,
        (VoiceCreate::LookingUp { .. }, VoiceCreateEvent::Looked { .. }) => true,
        (VoiceCreate::ReadingStored { .. }, VoiceCreateEvent::StatusRead(_)) => true,
        (VoiceCreate::Preparing { .. }, VoiceCreateEvent::Prepared(_)) => true,
        (VoiceCreate::Writing { .. }, VoiceCreateEvent::Written(_)) => true,
        (VoiceCreate::Inserting { .. }, VoiceCreateEvent::Inserted(_)) => true,
        (VoiceCreate::LookingAgain { .. }, VoiceCreateEvent::LookedAgain(_)) => true,
        _ => false,
    }
}

/// The form ended: the destination must be valid, then audio present; then
/// the job under the key is looked up, the request identified by its hash.
pub open spec fn form_done(
    account: String,
    key: String,
    chat_id: Option<String>,
    audio: Option<Vec<u8>>,
    t: VoiceCreate,
    a: VoiceCreateAction,
) -> bool {
    match chat_id {
        Some(c) if valid_destination_spec(c@) => match audio {
            Some(au) => {
                &&& t matches VoiceCreate::LookingUp { account: a1, key: k1, chat_id: c1, audio: au1, hash }
                &&& a1 == account && k1 == key && c1 == c && au1 == au
                &&& hash@ == request_hash_spec(c@, au@)
                &&& a == VoiceCreateAction::LookUp { account, key }
            },
            None => t == VoiceCreate::Done && a == refuse(400, VoiceError::AudioRequired),
        },
        _ => t == VoiceCreate::Done && a == refuse(400, VoiceError::InvalidDestination),
    }
}

/// Nothing was recorded under the key: the new job gets its directory, which
/// is refused unless its id is a UUID.
pub open spec fn fresh_job(
    account: String,
    key: String,
    chat_id: String,
    audio: Vec<u8>,
    hash: String,
    job_id: String,
    t: VoiceCreate,
    a: VoiceCreateAction,
) -> bool {
    match job_dir_spec(job_id@) {
        Err(m) => {
            &&& t == VoiceCreate::Done
            &&& a matches VoiceCreateAction::Respond {
                code,
                answer: VoiceAnswer::Error(VoiceError::Other(e)),
                remove_dir: None,
                spawn: false,
            }
            &&& code == 500 && e@ == m
        },
        Ok(d) => {
            &&& t matches VoiceCreate::Preparing {
                account: a1,
                key: k1,
                chat_id: c1,
                hash: h1,
                job_id: j1,
                dir,
            }
            &&& a1 == account && k1 == key && c1 == chat_id && h1 == hash && j1 == job_id
            &&& dir@ == d
            &&& a matches VoiceCreateAction::Prepare { dir: d2, audio: au2 }
            &&& d2 == dir && au2 == audio
        },
    }
}

/// One step of creating a voice job: the next stage `t` and the caller's next
/// action `a` after event `e` in stage `s`.
pub open spec fn voice_create_next(
    s: VoiceCreate,
    e: VoiceCreateEvent,
    t: VoiceCreate,
    a: VoiceCreateAction,
) -> bool {
    match (s, e) {
        (VoiceCreate::Start, VoiceCreateEvent::Begin { account, key }) => match account {
            None => t == VoiceCreate::Done && a == refuse(409, VoiceError::NotLoggedIn),
            Some(acc) => if !valid_key_spec(key@) {
                t == VoiceCreate::Done && a == refuse(400, VoiceError::InvalidKey)
            } else {
                t == (VoiceCreate::Form { account: acc, key, chat_id: None, audio: None })
                    && a == VoiceCreateAction::ReadField
            },
        },
        (VoiceCreate::Form { account, key, chat_id, audio }, VoiceCreateEvent::Field(r)) => match r {
            Err(m) => t == VoiceCreate::Done && a == refuse(400, VoiceError::Other(m)),
            Ok(Some(name)) => if name@ == "chatId"@ && chat_id is None {
                t == (VoiceCreate::FormText { account, key, audio }) && a == VoiceCreateAction::ReadText
            } else if name@ == "audio"@ && audio is None {
                t == (VoiceCreate::FormBytes { account, key, chat_id })
                    && a == VoiceCreateAction::ReadBytes
            } else {
                t == VoiceCreate::Done && a == refuse(400, VoiceError::UnexpectedField)
            },
            Ok(None) => form_done(account, key, chat_id, audio, t, a),
        },
        (VoiceCreate::FormText { account, key, audio }, VoiceCreateEvent::Text(r)) => match r {
            Err(m) => t == VoiceCreate::Done && a == refuse(400, VoiceError::Other(m)),
            Ok(v) => t == (VoiceCreate::Form { account, key, chat_id: Some(v), audio })
                && a == VoiceCreateAction::ReadField,
        },
        (VoiceCreate::FormBytes { account, key, chat_id }, VoiceCreateEvent::Bytes(r)) => match r {
            Err(m) => t == VoiceCreate::Done && a == refuse(400, VoiceError::Other(m)),
            Ok(v) => if 0 < v.len() && v.len() <= MAX_UPLOAD_BYTES {
                t == (VoiceCreate::Form { account, key, chat_id, audio: Some(v) })
                    && a == VoiceCreateAction::ReadField
            } else {
                t == VoiceCreate::Done && a == refuse(413, VoiceError::AudioSize)
            },
        },
        (
            VoiceCreate::LookingUp { account, key, chat_id, audio, hash },
            VoiceCreateEvent::Looked { found, new_job_id },
        ) => match found {
            Err(m) => t == VoiceCreate::Done && a == refuse(500, VoiceError::Other(m)),
            Ok(Some((id, h))) => if h@ == hash@ {
                t == (VoiceCreate::ReadingStored { after_insert: false })
                    && a == VoiceCreateAction::ReadStored { job_id: id }
            } else {
                t == VoiceCreate::Done && a == refuse(409, VoiceError::KeyReused)
            },
            Ok(None) => fresh_job(account, key, chat_id, audio, hash, new_job_id, t, a),
        },
        (VoiceCreate::ReadingStored { after_insert }, VoiceCreateEvent::StatusRead(r)) => match r {
            Ok(_) => t == VoiceCreate::Done && a == (VoiceCreateAction::Respond {
                code: 200,
                answer: VoiceAnswer::StoredStatus,
                remove_dir: None,
                spawn: false,
            }),
            Err(m) => if after_insert {
                t == VoiceCreate::Done && a == refuse(200, VoiceError::StatusUnavailable)
            } else {
                t == VoiceCreate::Done && a == refuse(500, VoiceError::Other(m))
            },
        },
        (
            VoiceCreate::Preparing { account, key, chat_id, hash, job_id, dir },
            VoiceCreateEvent::Prepared(r),
        ) => match r {
            Err(m) => t == VoiceCreate::Done && a == refuse(500, VoiceError::Other(m)),
            Ok(_) => t == (VoiceCreate::Writing { account, key, chat_id, hash, job_id, dir })
                && a == (VoiceCreateAction::WriteStatus { job_id, chat_id, account }),
        },
        (
            VoiceCreate::Writing { account, key, chat_id, hash, job_id, dir },
            VoiceCreateEvent::Written(r),
        ) => match r {
            Err(m) => t == VoiceCreate::Done && a == (VoiceCreateAction::Respond {
                code: 500,
                answer: VoiceAnswer::Error(VoiceError::Other(m)),
                remove_dir: Some(dir),
                spawn: false,
            }),
            Ok(_) => t == (VoiceCreate::Inserting { account, key, chat_id, hash, job_id, dir })
                && a == (VoiceCreateAction::Insert { job_id, account, key, hash }),
        },
        (
            VoiceCreate::Inserting { account, key, chat_id, hash, job_id, dir },
            VoiceCreateEvent::Inserted(r),
        ) => match r {
            Ok(n) => if n == 1 {
                t == VoiceCreate::Done && a == (VoiceCreateAction::Respond {
                    code: 202,
                    answer: VoiceAnswer::Queued { job_id, chat_id, account },
                    remove_dir: None,
                    spawn: true,
                })
            } else {
                t == (VoiceCreate::LookingAgain { hash })
                    && a == (VoiceCreateAction::LookUpAgain { dir, account, key })
            },
            Err(m) => t == VoiceCreate::Done && a == (VoiceCreateAction::Respond {
                code: 500,
                answer: VoiceAnswer::Error(VoiceError::Other(m)),
                remove_dir: Some(dir),
                spawn: false,
            }),
        },
        (VoiceCreate::LookingAgain { hash }, VoiceCreateEvent::LookedAgain(r)) => match r {
            Ok((id, h)) => if h@ == hash@ {
                t == (VoiceCreate::ReadingStored { after_insert: true })
                    && a == VoiceCreateAction::ReadStored { job_id: id }
            } else {
                t == VoiceCreate::Done && a == refuse(409, VoiceError::KeyReused)
            },
            Err(m) => t == VoiceCreate::Done && a == refuse(500, VoiceError::Other(m)),
        },
        _ => false,
    }
}

fn refusal(code: u16, e: VoiceError) -> (r: VoiceCreateAction)
    ensures
        r == refuse(code, e),
{
    VoiceCreateAction::Respond { code, answer: VoiceAnswer::Error(e), remove_dir: None, spawn: false }
}

impl VoiceCreate {
    /// Whether `event` is the one this stage waits for.
    pub fn accepts(&self, event: &VoiceCreateEvent) -> (r: bool)
        ensures
            r == create_accepts(*self, *event),
    {
        match (self, event) {
            (VoiceCreate::Start, VoiceCreateEvent::Begin { .. }) => true,
            (VoiceCreate::Form { .. }, VoiceCreateEvent::Field(_)) => true,
            (VoiceCreate::FormText { .. }, VoiceCreateEvent::Text(_)) => true,
            (VoiceCreate::FormBytes { .. }, VoiceCreateEvent::Bytes(_)) => true,
            (VoiceCreate::LookingUp { .. }, VoiceCreateEvent::Looked { .. }) => true,
            (VoiceCreate::ReadingStored { .. }, VoiceCreateEvent::StatusRead(_)) => true,
            (VoiceCreate::Preparing { .. }, VoiceCreateEvent::Prepared(_)) => true,
            (VoiceCreate::Writing { .. }, VoiceCreateEvent::Written(_)) => true,
            (VoiceCreate::Inserting { .. }, VoiceCreateEvent::Inserted(_)) => true,
            (VoiceCreate::LookingAgain { .. }, VoiceCreateEvent::LookedAgain(_)) => true,
            _ => false,
        }
    }
}

fn finish_form(
    account: String,
    key: String,
    chat_id: Option<String>,
    audio: Option<Vec<u8>>,
) -> (r: (VoiceCreate, VoiceCreateAction))
    ensures
        form_done(account, key, chat_id, audio, r.0, r.1),
{
    match chat_id {
        Some(c) => {
            if !valid_destination(c.as_str()) {
                return (VoiceCreate::Done, refusal(400, VoiceError::InvalidDestination));
            }
            match audio {
                Some(au) => {
                    let hash = request_hash(c.as_str(), au.as_slice());
                    let act = VoiceCreateAction::LookUp { account: account.clone(), key: key.clone() };
                    (VoiceCreate::LookingUp { account, key, chat_id: c, audio: au, hash }, act)
                },
                None => (VoiceCreate::Done, refusal(400, VoiceError::AudioRequired)),
            }
        },
        None => (VoiceCreate::Done, refusal(400, VoiceError::InvalidDestination)),
    }
}

fn start_fresh_job(
    account: String,
    key: String,
    chat_id: String,
    audio: Vec<u8>,
    hash: String,
    job_id: String,
) -> (r: (VoiceCreate, VoiceCreateAction))
    ensures
        fresh_job(account, key, chat_id, audio, hash, job_id, r.0, r.1),
{
    match job_dir(job_id.as_str()) {
        Err(m) => (
            VoiceCreate::Done,
            VoiceCreateAction::Respond {
                code: 500,
                answer: VoiceAnswer::Error(VoiceError::Other(m)),
                remove_dir: None,
                spawn: false,
            },
        ),
        Ok(dir) => {
            let act = VoiceCreateAction::Prepare { dir: dir.clone(), audio };
            (VoiceCreate::Preparing { account, key, chat_id, hash, job_id, dir }, act)
        },
    }
}

/// One step of creating a voice job.
pub fn voice_create_step(s: VoiceCreate, e: VoiceCreateEvent) -> (r: (VoiceCreate, VoiceCreateAction))
    requires
        create_accepts(s, e),
    ensures
        voice_create_next(s, e, r.0, r.1),
{
    match (s, e) {
        (VoiceCreate::Start, VoiceCreateEvent::Begin { account, key }) => match account {
            None => (VoiceCreate::Done, refusal(409, VoiceError::NotLoggedIn)),
            Some(acc) => if !valid_idempotency_key(key.as_str()) {
                (VoiceCreate::Done, refusal(400, VoiceError::InvalidKey))
            } else {
                (
                    VoiceCreate::Form { account: acc, key, chat_id: None, audio: None },
                    VoiceCreateAction::ReadField,
                )
            },
        },
        (VoiceCreate::Form { account, key, chat_id, audio }, VoiceCreateEvent::Field(r)) => match r {
            Err(m) => (VoiceCreate::Done, refusal(400, VoiceError::Other(m))),
            Ok(Some(name)) => match classify_field(name.as_str(), chat_id.is_some(), audio.is_some()) {
                FieldAction::ReadChatId => (
                    VoiceCreate::FormText { account, key, audio },
                    VoiceCreateAction::ReadText,
                ),
                FieldAction::ReadAudio => (
                    VoiceCreate::FormBytes { account, key, chat_id },
                    VoiceCreateAction::ReadBytes,
                ),
                FieldAction::Reject => (VoiceCreate::Done, refusal(400, VoiceError::UnexpectedField)),
            },
            Ok(None) => finish_form(account, key, chat_id, audio),
        },
        (VoiceCreate::FormText { account, key, audio }, VoiceCreateEvent::Text(r)) => match r {
            Err(m) => (VoiceCreate::Done, refusal(400, VoiceError::Other(m))),
            Ok(v) => (
                VoiceCreate::Form { account, key, chat_id: Some(v), audio },
                VoiceCreateAction::ReadField,
            ),
        },
        (VoiceCreate::FormBytes { account, key, chat_id }, VoiceCreateEvent::Bytes(r)) => match r {
            Err(m) => (VoiceCreate::Done, refusal(400, VoiceError::Other(m))),
            Ok(v) => if audio_size_ok(v.len()) {
                (
                    VoiceCreate::Form { account, key, chat_id, audio: Some(v) },
                    VoiceCreateAction::ReadField,
                )
            } else {
                (VoiceCreate::Done, refusal(413, VoiceError::AudioSize))
            },
        },
        (
            VoiceCreate::LookingUp { account, key, chat_id, audio, hash },
            VoiceCreateEvent::Looked { found, new_job_id },
        ) => match found {
            Err(m) => (VoiceCreate::Done, refusal(500, VoiceError::Other(m))),
            Ok(Some((id, h))) => if str_eq(h.as_str(), hash.as_str()) {
                (
                    VoiceCreate::ReadingStored { after_insert: false },
                    VoiceCreateAction::ReadStored { job_id: id },
                )
            } else {
                (VoiceCreate::Done, refusal(409, VoiceError::KeyReused))
            },
            Ok(None) => start_fresh_job(account, key, chat_id, audio, hash, new_job_id),
        },
        (VoiceCreate::ReadingStored { after_insert }, VoiceCreateEvent::StatusRead(r)) => match r {
            Ok(_) => (
                VoiceCreate::Done,
                VoiceCreateAction::Respond {
                    code: 200,
                    answer: VoiceAnswer::StoredStatus,
                    remove_dir: None,
                    spawn: false,
                },
            ),
            Err(m) => if after_insert {
                (VoiceCreate::Done, refusal(200, VoiceError::StatusUnavailable))
            } else {
                (VoiceCreate::Done, refusal(500, VoiceError::Other(m)))
            },
        },
        (
            VoiceCreate::Preparing { account, key, chat_id, hash, job_id, dir },
            VoiceCreateEvent::Prepared(r),
        ) => match r {
            Err(m) => (VoiceCreate::Done, refusal(500, VoiceError::Other(m))),
            Ok(_) => {
                let act = VoiceCreateAction::WriteStatus {
                    job_id: job_id.clone(),
                    chat_id: chat_id.clone(),
                    account: account.clone(),
                };
                (VoiceCreate::Writing { account, key, chat_id, hash, job_id, dir }, act)
            },
        },
        (
            VoiceCreate::Writing { account, key, chat_id, hash, job_id, dir },
            VoiceCreateEvent::Written(r),
        ) => match r {
            Err(m) => (
                VoiceCreate::Done,
                VoiceCreateAction::Respond {
                    code: 500,
                    answer: VoiceAnswer::Error(VoiceError::Other(m)),
                    remove_dir: Some(dir),
                    spawn: false,
                },
            ),
            Ok(_) => {
                let act = VoiceCreateAction::Insert {
                    job_id: job_id.clone(),
                    account: account.clone(),
                    key: key.clone(),
                    hash: hash.clone(),
                };
                (VoiceCreate::Inserting { account, key, chat_id, hash, job_id, dir }, act)
            },
        },
        (
            VoiceCreate::Inserting { account, key, chat_id, hash, job_id, dir },
            VoiceCreateEvent::Inserted(r),
        ) => match r {
            Ok(n) => if n == 1 {
                (
                    VoiceCreate::Done,
                    VoiceCreateAction::Respond {
                        code: 202,
                        answer: VoiceAnswer::Queued { job_id, chat_id, account },
                        remove_dir: None,
                        spawn: true,
                    },
                )
            } else {
                (
                    VoiceCreate::LookingAgain { hash },
                    VoiceCreateAction::LookUpAgain { dir, account, key },
                )
            },
            Err(m) => (
                VoiceCreate::Done,
                VoiceCreateAction::Respond {
                    code: 500,
                    answer: VoiceAnswer::Error(VoiceError::Other(m)),
                    remove_dir: Some(dir),
                    spawn: false,
                },
            ),
        },
        (VoiceCreate::LookingAgain { hash }, VoiceCreateEvent::LookedAgain(r)) => match r {
            Ok((id, h)) => if str_eq(h.as_str(), hash.as_str()) {
                (
                    VoiceCreate::ReadingStored { after_insert: true },
                    VoiceCreateAction::ReadStored { job_id: id },
                )
            } else {
                (VoiceCreate::Done, refusal(409, VoiceError::KeyReused))
            },
            Err(m) => (VoiceCreate::Done, refusal(500, VoiceError::Other(m))),
        },
        _ => {
            proof {
                assert(false);
            }
            (VoiceCreate::Done, VoiceCreateAction::ReadField)
        },
    }
}

// ============================================
// Running a job
// ============================================

/// The files removed once a job completed: its input, the decoded source and
/// each chunk file its status names, joined onto the job directory; nothing
/// unless the status is `completed`.
pub open spec fn cleanup_files_spec(
    dir: Seq<char>,
    status: Option<Seq<char>>,
    paths: Seq<Option<Seq<char>>>,
) -> Seq<Seq<char>> {
    if status == Some("completed"@) {
        seq![join_path(dir, "input"@), join_path(dir, "source.wav"@)] + chunk_files(dir, paths)
    } else {
        Seq::empty()
    }
}

/// The chunk files among recorded paths, joined onto the job directory.
pub open spec fn chunk_files(dir: Seq<char>, paths: Seq<Option<Seq<char>>>) -> Seq<Seq<char>>
    decreases paths.len(),
{
    if paths.len() == 0 {
        Seq::empty()
    } else {
        chunk_files(dir, paths.drop_last()) + match paths.last() {
            Some(n) => if removable_chunk_spec(n) {
                seq![join_path(dir, n)]
            } else {
                Seq::empty()
            },
            None => Seq::empty(),
        }
    }
}

fn join_name(dir: &str, name: &str) -> (r: String)
    ensures
        r@ == join_path(dir@, name@),
{
    let d = chars_of(dir);
    let n = chars_of(name);
    let p = join_path_exec(d, n.as_slice());
    string_of(p.as_slice())
}

/// The files to remove from a job's directory once its status document says
/// it completed.
pub fn cleanup_files(dir: &str, fields: &JobFields) -> (r: Vec<String>)
    ensures
        strings_view(r@) == cleanup_files_spec(
            dir@,
            opt_str_view(fields.status),
            opt_strings_view(fields.chunk_paths@),
        ),
{
    let mut out: Vec<String> = Vec::new();
    let completed = match &fields.status {
        Some(st) => str_eq(st.as_str(), "completed"),
        None => false,
    };
    if !completed {
        assert(strings_view(out@) =~= Seq::<Seq<char>>::empty());
        return out;
    }
    out.push(join_name(dir, "input"));
    out.push(join_name(dir, "source.wav"));
    let ghost head = seq![join_path(dir@, "input"@), join_path(dir@, "source.wav"@)];
    assert(strings_view(out@) =~= head);
    let paths = &fields.chunk_paths;
    let ghost pv = opt_strings_view(paths@);
    let mut i: usize = 0;
    while i < paths.len()
        invariant
            i <= paths.len(),
            pv == opt_strings_view(paths@),
            strings_view(out@) == head + chunk_files(dir@, pv.take(i as int)),
        decreases paths.len() - i,
    {
        let ghost before = strings_view(out@);
        assert(pv.take(i + 1).drop_last() == pv.take(i as int));
        assert(pv.take(i + 1).last() == opt_str_view(paths@[i as int]));
        match &paths[i] {
            Some(name) => {
                if removable_chunk(name.as_str()) {
                    out.push(join_name(dir, name.as_str()));
                    assert(strings_view(out@) =~= before.push(join_path(dir@, name@)));
                } else {
                    assert(strings_view(out@) =~= before);
                }
            },
            None => {
                assert(strings_view(out@) =~= before);
            },
        }
        i += 1;
    }
    assert(pv.take(paths.len() as int) == pv);
    out
}

/// Which pass of the voice worker to run.
#[derive(Clone, Copy, Debug, PartialEq, Eq, Structural)]
pub enum WorkerMode {
    /// Convert the input and cut it into chunks.
    Prepare,
    /// Record and send the chunks in the open chat.
    Send,
}

/// The job a run works on.
#[derive(Debug)]
pub struct VoiceJobTarget {
    pub job_id: String,
    pub chat_id: String,
    pub account: String,
    pub dir: String,
}

/// Where the run of a job stands.
#[derive(Debug)]
pub enum VoiceJob {
    /// Waiting for the worker's prepare pass.
    Preparing(VoiceJobTarget),
    /// Waiting, with the desktop held, for the cancel marker and the session.
    Checking(VoiceJobTarget),
    /// Waiting for the desktop's accessibility tree.
    ReadingTree(VoiceJobTarget),
    /// Waiting for the destination chat to open.
    Opening(VoiceJobTarget),
    /// Waiting for the worker's send pass.
    Sending(VoiceJobTarget),
    /// Sent: waiting for the status document, to clean up after completion.
    Cleaning { dir: String },
    /// Stopped with an error: waiting for the status document to record it.
    Stopping { error: String },
    /// Nothing more to do.
    Done,
}

/// What the caller of a run learned.
pub enum VoiceJobEvent {
    /// How a worker pass ended; the error is its trimmed standard error.
    Worker(Result<(), String>),
    /// With the desktop held: whether a cancel was requested, and the
    /// logged-in account.
    Guarded { cancel_requested: bool, logged_in: Option<String> },
    /// The desktop's accessibility tree.
    Tree(Result<A11yNode, String>),
    /// What opening the destination chat reported.
    Opened(OpenedChat),
    /// The status document after sending.
    Status(Result<JobFields, String>),
    /// The status document after an error, and whether a cancel was requested.
    StoppedStatus { fields: Result<JobFields, String>, cancel_requested: bool },
}

/// What the caller of a run does next.
#[derive(Debug)]
pub enum VoiceJobAction {
    /// Run a pass of the voice worker on the job directory.
    RunWorker { mode: WorkerMode, dir: String },
    /// Hold the desktop, then report the job directory's cancel marker and
    /// the session.
    Guard { dir: String },
    /// Read the desktop's accessibility tree.
    ReadTree,
    /// Open the destination chat after clicking at `center` in the chat list.
    OpenChat { chat_id: String, center: (i64, i64) },
    /// Read the status document.
    ReadStatus,
    /// Read the status document and whether a cancel was requested.
    ReadStoppedStatus,
    /// Remove these files; the run is over.
    Cleanup { files: Vec<String> },
    /// Set the document's `status` and `error` and write it back; the run is over.
    Record { status: String, error: String },
    /// The run is over.
    Finish,
}

/// A run stops with an error: its status document is read to record it.
pub open spec fn stop_with(t: VoiceJob, a: VoiceJobAction, error: Seq<char>) -> bool {
    &&& t matches VoiceJob::Stopping { error: e }
    &&& e@ == error
    &&& a == VoiceJobAction::ReadStoppedStatus
}

/// How a run starts: with the prepare pass in the job's directory, or stopped
/// when the id gives no directory.
pub open spec fn voice_job_started(
    job_id: String,
    chat_id: String,
    account: String,
    t: VoiceJob,
    a: VoiceJobAction,
) -> bool {
    match job_dir_spec(job_id@) {
        Err(m) => stop_with(t, a, m),
        Ok(d) => {
            &&& t matches VoiceJob::Preparing(tg)
            &&& tg.job_id == job_id && tg.chat_id == chat_id && tg.account == account
            &&& tg.dir@ == d
            &&& a == (VoiceJobAction::RunWorker { mode: WorkerMode::Prepare, dir: tg.dir })
        },
    }
}

/// Whether the event is the one the stage waits for.
pub open spec fn job_accepts(s: VoiceJob, e: VoiceJobEvent) -> bool {
    match (s, e) {
        (VoiceJob::Preparing(_), VoiceJobEvent::Worker(_)) => true,
        (VoiceJob::Checking(_), VoiceJobEvent::Guarded { .. }) => true,
        (VoiceJob::ReadingTree(_), VoiceJobEvent::Tree(_)) => true,
        (VoiceJob::Opening(_), VoiceJobEvent::Opened(_)) => true,
        (VoiceJob::Sending(_), VoiceJobEvent::Worker(_)) => true,
        (VoiceJob::Cleaning { .. }, VoiceJobEvent::Status(_)) => true,
        (VoiceJob::Stopping { .. }, VoiceJobEvent::StoppedStatus { .. }) => true,
        _ => false,
    }
}

/// The status a stopped job is left in, read from its document: a missing
/// status counts as the empty one.
pub open spec fn stopped_record(f: JobFields, cancel_requested: bool) -> Option<Seq<char>> {
    let current = match opt_str_view(f.status) {
        Some(s) => s,
        None => Seq::empty(),
    };
    stopped_status_spec(current, f.chunk_statuses@, cancel_requested)
}

/// One step of a job's run: the next stage `t` and the caller's next action
/// `a` after event `e` in stage `s`. Any error stops the run, and a stopped
/// run records its error unless the job already ended.
pub open spec fn voice_job_next(s: VoiceJob, e: VoiceJobEvent, t: VoiceJob, a: VoiceJobAction) -> bool {
    match (s, e) {
        (VoiceJob::Preparing(tg), VoiceJobEvent::Worker(r)) => match r {
            Err(m) => stop_with(t, a, m@),
            Ok(_) => t == VoiceJob::Checking(tg) && a == (VoiceJobAction::Guard { dir: tg.dir }),
        },
        (VoiceJob::Checking(tg), VoiceJobEvent::Guarded { cancel_requested, logged_in }) => {
            if cancel_requested {
                stop_with(t, a, "Voice job cancelled before recording"@)
            } else if opt_str_view(logged_in) != Some(tg.account@) {
                stop_with(t, a, "The logged-in account changed before recording"@)
            } else {
                t == VoiceJob::ReadingTree(tg) && a == VoiceJobAction::ReadTree
            }
        },
        (VoiceJob::ReadingTree(tg), VoiceJobEvent::Tree(r)) => match r {
            Err(m) => stop_with(t, a, m@),
            Ok(tree) => match chat_list_click_spec(tree) {
                None => stop_with(t, a, "Chat list click target is unavailable"@),
                Some(c) => {
                    &&& t == VoiceJob::Opening(tg)
                    &&& a matches VoiceJobAction::OpenChat { chat_id, center }
                    &&& chat_id == tg.chat_id
                    &&& center.0 as int == c.0 && center.1 as int == c.1
                },
            },
        },
        (VoiceJob::Opening(tg), VoiceJobEvent::Opened(o)) => match opened_check_spec(o, tg.chat_id@) {
            Err(m) => stop_with(t, a, m),
            Ok(_) => t == VoiceJob::Sending(tg) && a == (VoiceJobAction::RunWorker {
                mode: WorkerMode::Send,
                dir: tg.dir,
            }),
        },
        (VoiceJob::Sending(tg), VoiceJobEvent::Worker(r)) => match r {
            Err(m) => stop_with(t, a, m@),
            Ok(_) => t == (VoiceJob::Cleaning { dir: tg.dir }) && a == VoiceJobAction::ReadStatus,
        },
        (VoiceJob::Cleaning { dir }, VoiceJobEvent::Status(r)) => match r {
            Err(_) => t == VoiceJob::Done && a == VoiceJobAction::Finish,
            Ok(f) => {
                &&& t == VoiceJob::Done
                &&& a matches VoiceJobAction::Cleanup { files }
                &&& strings_view(files@) == cleanup_files_spec(
                    dir@,
                    opt_str_view(f.status),
                    opt_strings_view(f.chunk_paths@),
                )
            },
        },
        (VoiceJob::Stopping { error }, VoiceJobEvent::StoppedStatus { fields, cancel_requested }) => {
            match fields {
                Err(_) => t == VoiceJob::Done && a == VoiceJobAction::Finish,
                Ok(f) => match stopped_record(f, cancel_requested) {
                    None => t == VoiceJob::Done && a == VoiceJobAction::Finish,
                    Some(st) => {
                        &&& t == VoiceJob::Done
                        &&& a matches VoiceJobAction::Record { status, error: e }
                        &&& status@ == st && e == error
                    },
                },
            }
        },
        _ => false,
    }
}

fn stop(error: String) -> (r: (VoiceJob, VoiceJobAction))
    ensures
        stop_with(r.0, r.1, error@),
{
    (VoiceJob::Stopping { error }, VoiceJobAction::ReadStoppedStatus)
}

/// Start the run of a job.
pub fn voice_job_start(job_id: String, chat_id: String, account: String) -> (r: (VoiceJob, VoiceJobAction))
    ensures
        voice_job_started(job_id, chat_id, account, r.0, r.1),
{
    match job_dir(job_id.as_str()) {
        Err(m) => stop(m),
        Ok(dir) => {
            let act = VoiceJobAction::RunWorker { mode: WorkerMode::Prepare, dir: dir.clone() };
            (VoiceJob::Preparing(VoiceJobTarget { job_id, chat_id, account, dir }), act)
        },
    }
}

impl VoiceJob {
    /// Whether `event` is the one this stage waits for.
    pub fn accepts(&self, event: &VoiceJobEvent) -> (r: bool)
        ensures
            r == job_accepts(*self, *event),
    {
        match (self, event) {
            (VoiceJob::Preparing(_), VoiceJobEvent::Worker(_)) => true,
            (VoiceJob::Checking(_), VoiceJobEvent::Guarded { .. }) => true,
            (VoiceJob::ReadingTree(_), VoiceJobEvent::Tree(_)) => true,
            (VoiceJob::Opening(_), VoiceJobEvent::Opened(_)) => true,
            (VoiceJob::Sending(_), VoiceJobEvent::Worker(_)) => true,
            (VoiceJob::Cleaning { .. }, VoiceJobEvent::Status(_)) => true,
            (VoiceJob::Stopping { .. }, VoiceJobEvent::StoppedStatus { .. }) => true,
            _ => false,
        }
    }
}

/// One step of a job's run.
pub fn voice_job_step(s: VoiceJob, e: VoiceJobEvent) -> (r: (VoiceJob, VoiceJobAction))
    requires
        job_accepts(s, e),
    ensures
        voice_job_next(s, e, r.0, r.1),
{
    match (s, e) {
        (VoiceJob::Preparing(tg), VoiceJobEvent::Worker(r)) => match r {
            Err(m) => stop(m),
            Ok(_) => {
                let act = VoiceJobAction::Guard { dir: tg.dir.clone() };
                (VoiceJob::Checking(tg), act)
            },
        },
        (VoiceJob::Checking(tg), VoiceJobEvent::Guarded { cancel_requested, logged_in }) => {
            if cancel_requested {
                return stop(String::from_str("Voice job cancelled before recording"));
            }
            let same = match &logged_in {
                Some(u) => str_eq(u.as_str(), tg.account.as_str()),
                None => false,
            };
            if !same {
                return stop(String::from_str("The logged-in account changed before recording"));
            }
            (VoiceJob::ReadingTree(tg), VoiceJobAction::ReadTree)
        },
        (VoiceJob::ReadingTree(tg), VoiceJobEvent::Tree(r)) => match r {
            Err(m) => stop(m),
            Ok(tree) => match chat_list_click_target(&tree) {
                Err(m) => stop(m),
                Ok(center) => {
                    let act = VoiceJobAction::OpenChat { chat_id: tg.chat_id.clone(), center };
                    (VoiceJob::Opening(tg), act)
                },
            },
        },
        (VoiceJob::Opening(tg), VoiceJobEvent::Opened(o)) => match check_opened(o, tg.chat_id.as_str()) {
            Err(m) => stop(m),
            Ok(_) => {
                let act = VoiceJobAction::RunWorker { mode: WorkerMode::Send, dir: tg.dir.clone() };
                (VoiceJob::Sending(tg), act)
            },
        },
        (VoiceJob::Sending(tg), VoiceJobEvent::Worker(r)) => match r {
            Err(m) => stop(m),
            Ok(_) => (VoiceJob::Cleaning { dir: tg.dir }, VoiceJobAction::ReadStatus),
        },
        (VoiceJob::Cleaning { dir }, VoiceJobEvent::Status(r)) => match r {
            Err(_) => (VoiceJob::Done, VoiceJobAction::Finish),
            Ok(f) => {
                let files = cleanup_files(dir.as_str(), &f);
                (VoiceJob::Done, VoiceJobAction::Cleanup { files })
            },
        },
        (VoiceJob::Stopping { error }, VoiceJobEvent::StoppedStatus { fields, cancel_requested }) => {
            match fields {
                Err(_) => (VoiceJob::Done, VoiceJobAction::Finish),
                Ok(f) => {
                    let current: &str = match &f.status {
                        Some(st) => st.as_str(),
                        None => "",
                    };
                    proof {
                        reveal_strlit("");
                        assert(current@ == (match opt_str_view(f.status) {
                            Some(s) => s,
                            None => Seq::<char>::empty(),
                        }));
                    }
                    match stopped_status(current, &f.chunk_statuses, cancel_requested) {
                        None => (VoiceJob::Done, VoiceJobAction::Finish),
                        Some(st) => (
                            VoiceJob::Done,
                            VoiceJobAction::Record { status: String::from_str(st), error },
                        ),
                    }
                },
            }
        },
        _ => {
            proof {
                assert(false);
            }
            (VoiceJob::Done, VoiceJobAction::Finish)
        },
    }
}

// ============================================
// What every run of the two machines keeps
// ============================================

/// A repeated request (the same account, key, destination and audio) is
/// answered with the job stored under the key, never with a new job; the key
/// used with another destination or other audio, whose stored hash differs,
/// is refused with 409.
pub proof fn lemma_repeat_answers_stored_job(
    account: String,
    key: String,
    chat_id: String,
    audio: Vec<u8>,
    looking: VoiceCreate,
    lookup: VoiceCreateAction,
    stored_id: String,
    stored_hash: String,
    new_job_id: String,
    t: VoiceCreate,
    a: VoiceCreateAction,
)
    requires
        valid_destination_spec(chat_id@),
        form_done(account, key, Some(chat_id), Some(audio), looking, lookup),
        voice_create_next(
            looking,
            VoiceCreateEvent::Looked { found: Ok(Some((stored_id, stored_hash))), new_job_id },
            t,
            a,
        ),
    ensures
        stored_hash@ == request_hash_spec(chat_id@, audio@) ==> (
            t == (VoiceCreate::ReadingStored { after_insert: false })
            && a == (VoiceCreateAction::ReadStored { job_id: stored_id })),
        stored_hash@ != request_hash_spec(chat_id@, audio@) ==> (
            t == VoiceCreate::Done && a == refuse(409, VoiceError::KeyReused)),
{
}

/// A job is started only by the insert that claimed its key: an answer that
/// starts a run is a 202 given right after an insert that added one row.
pub proof fn lemma_run_only_after_claim(
    s: VoiceCreate,
    e: VoiceCreateEvent,
    t: VoiceCreate,
    a: VoiceCreateAction,
)
    requires
        voice_create_next(s, e, t, a),
        a matches VoiceCreateAction::Respond { spawn: true, .. },
    ensures
        s is Inserting,
        e == VoiceCreateEvent::Inserted(Ok(1usize)),
        a matches VoiceCreateAction::Respond { code: 202, answer: VoiceAnswer::Queued { .. }, .. },
{
}

/// Audio is sent only to the chat the job was made for: the send pass runs
/// only right after the opener reported success with the destination's id.
pub proof fn lemma_send_only_to_destination(
    s: VoiceJob,
    e: VoiceJobEvent,
    t: VoiceJob,
    a: VoiceJobAction,
)
    requires
        voice_job_next(s, e, t, a),
        a matches VoiceJobAction::RunWorker { mode: WorkerMode::Send, .. },
    ensures
        s matches VoiceJob::Opening(tg) && e matches VoiceJobEvent::Opened(o) && o.ok
            && opt_str_view(o.username) == Some(tg.chat_id@),
{
}

/// A job that already ended keeps its status: a stopped run records nothing
/// over a final status.
pub proof fn lemma_stop_keeps_final_status(
    error: String,
    f: JobFields,
    cancel_requested: bool,
    t: VoiceJob,
    a: VoiceJobAction,
)
    requires
        voice_job_next(
            VoiceJob::Stopping { error },
            VoiceJobEvent::StoppedStatus { fields: Ok(f), cancel_requested },
            t,
            a,
        ),
        f.status matches Some(st) && terminal_status_spec(st@),
    ensures
        t == VoiceJob::Done,
        a == VoiceJobAction::Finish,
{
}

} // verus!
