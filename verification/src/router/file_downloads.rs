//! Requests to fetch a file attachment: validation, idempotency identity and
//! the steps a download run goes through.
use vstd::prelude::*;
use crate::text::{
    any_control, ascii_lower_spec, chars_of, has_control, str_eq, to_ascii_lower, trim,
    trim_spec, utf8_len, utf8_len_of,
};
use crate::types::{opt_str_view, opt_string_eq};

verus! {

/// A request to download the file attached to one message.
pub struct CreateRequest {
    pub idempotency_key: String,
    pub chat_id: String,
    pub chat_name: String,
    pub local_id: i64,
    pub server_id: Option<String>,
    pub expected_filename: String,
    pub sent_at: Option<String>,
}

/// A stored download operation.
pub struct Operation {
    pub id: String,
    pub idempotency_key: String,
    pub chat_id: String,
    pub chat_name: String,
    pub local_id: i64,
    pub server_id: Option<String>,
    pub expected_filename: String,
    pub sent_at: Option<String>,
    pub state: String,
    pub attempts: i64,
    pub error_code: Option<String>,
    pub size_bytes: Option<i64>,
    pub created_at: String,
    pub updated_at: String,
    pub completed_at: Option<String>,
}

/// A path that is its own file name: not empty, no separator, not `.` or `..`.
pub open spec fn bare_file_name(s: Seq<char>) -> bool {
    s.len() > 0 && !s.contains('/') && s != seq!['.'] && s != seq!['.', '.']
}

/// The position of the last occurrence of `c`.
pub open spec fn last_index_of(s: Seq<char>, c: char) -> Option<int>
    decreases s.len(),
{
    if s.len() == 0 {
        None
    } else if s.last() == c {
        Some(s.len() - 1)
    } else {
        last_index_of(s.drop_last(), c)
    }
}

/// The extension of a bare file name as `Path::extension` gives it: what follows
/// the last dot, and nothing when there is no dot or the only dot leads the name.
pub open spec fn extension_spec(name: Seq<char>) -> Seq<char> {
    match last_index_of(name, '.') {
        Some(k) => if k > 0 { name.skip(k + 1) } else { seq![] },
        None => seq![],
    }
}

/// The extensions accepted for download.
pub open spec fn supported_extension(e: Seq<char>) -> bool {
    e == "pdf"@ || e == "docx"@ || e == "xlsx"@ || e == "zip"@
}

/// The outcome of validating a request: the lower-case extension, or the error code.
pub open spec fn validate_spec(input: CreateRequest) -> Result<Seq<char>, Seq<char>> {
    let key = input.idempotency_key@;
    let chat_id = input.chat_id@;
    let chat_name = input.chat_name@;
    let f = input.expected_filename@;
    let ext = ascii_lower_spec(extension_spec(f));
    if key.len() == 0 || utf8_len(key) > 200 {
        Err("FILE_DOWNLOAD_IDEMPOTENCY_KEY_INVALID"@)
    } else if chat_id.len() == 0 || utf8_len(chat_id) > 200 || trim_spec(chat_name).len() == 0
        || utf8_len(chat_name) > 200 || any_control(chat_name) || input.local_id < 0 {
        Err("FILE_DOWNLOAD_MESSAGE_ID_INVALID"@)
    } else if !bare_file_name(f) || utf8_len(f) > 240 || any_control(f) {
        Err("FILE_DOWNLOAD_FILENAME_INVALID"@)
    } else if !supported_extension(ext) {
        Err("FILE_TYPE_UNSUPPORTED"@)
    } else {
        Ok(ext)
    }
}

proof fn lemma_last_index_in_range(s: Seq<char>, c: char)
    ensures
        match last_index_of(s, c) {
            Some(k) => 0 <= k < s.len(),
            None => true,
        },
    decreases s.len(),
{
    if s.len() > 0 && s.last() != c {
        lemma_last_index_in_range(s.drop_last(), c);
    }
}

pub(crate) fn last_dot(s: &[char]) -> (r: Option<usize>)
    ensures
        match r {
            Some(k) => last_index_of(s@, '.') == Some(k as int) && k < s.len(),
            None => last_index_of(s@, '.') is None,
        },
{
    let mut i: usize = s.len();
    assert(s@.take(s.len() as int) == s@);
    while i > 0
        invariant
            i <= s.len(),
            last_index_of(s@, '.') == last_index_of(s@.take(i as int), '.'),
        decreases i,
    {
        assert(s@.take(i as int).drop_last() == s@.take(i - 1));
        if s[i - 1] == '.' {
            return Some(i - 1);
        }
        i -= 1;
    }
    None
}

/// The extension of a bare file name, as `extension_spec` states it.
pub fn extension_of(name: &[char]) -> (r: Vec<char>)
    ensures
        r@ == extension_spec(name@),
{
    match last_dot(name) {
        Some(k) => {
            if k > 0 {
                crate::text::slice_chars(name, k + 1, name.len())
            } else {
                Vec::new()
            }
        },
        None => Vec::new(),
    }
}

fn is_bare_file_name(s: &[char]) -> (r: bool)
    ensures
        r == bare_file_name(s@),
{
    if s.len() == 0 {
        return false;
    }
    let mut i: usize = 0;
    while i < s.len()
        invariant
            i <= s.len(),
            forall|j: int| 0 <= j < i ==> s@[j] != '/',
        decreases s.len() - i,
    {
        if s[i] == '/' {
            assert(s@.contains('/'));
            return false;
        }
        i += 1;
    }
    let one_dot = s.len() == 1 && s[0] == '.';
    let two_dots = s.len() == 2 && s[0] == '.' && s[1] == '.';
    proof {
        if one_dot {
            assert(s@ == seq!['.']);
        }
        if two_dots {
            assert(s@ == seq!['.', '.']);
        }
        if s@ == seq!['.'] {
            assert(s@[0] == '.');
        }
        if s@ == seq!['.', '.'] {
            assert(s@[0] == '.' && s@[1] == '.');
        }
    }
    !one_dot && !two_dots
}

fn is_supported(e: &[char]) -> (r: bool)
    ensures
        r == supported_extension(e@),
{
    let s = crate::text::string_of(e);
    str_eq(s.as_str(), "pdf") || str_eq(s.as_str(), "docx") || str_eq(s.as_str(), "xlsx")
        || str_eq(s.as_str(), "zip")
}

/// Checks a download request and gives the lower-case extension of its file,
/// or the error code that the request is refused with.
pub fn validate(input: &CreateRequest) -> (r: Result<String, &'static str>)
    ensures
        match r {
            Ok(e) => validate_spec(*input) == Ok::<Seq<char>, Seq<char>>(e@),
            Err(m) => validate_spec(*input) == Err::<Seq<char>, Seq<char>>(m@),
        },
{
    let key = chars_of(input.idempotency_key.as_str());
    if key.len() == 0 || utf8_len_of(key.as_slice()) > 200 {
        return Err("FILE_DOWNLOAD_IDEMPOTENCY_KEY_INVALID");
    }
    let chat_id = chars_of(input.chat_id.as_str());
    let chat_name = chars_of(input.chat_name.as_str());
    let trimmed = trim(chat_name.as_slice());
    if chat_id.len() == 0 || utf8_len_of(chat_id.as_slice()) > 200 || trimmed.len() == 0
        || utf8_len_of(chat_name.as_slice()) > 200 || has_control(chat_name.as_slice())
        || input.local_id < 0 {
        return Err("FILE_DOWNLOAD_MESSAGE_ID_INVALID");
    }
    let f = chars_of(input.expected_filename.as_str());
    if !is_bare_file_name(f.as_slice()) || utf8_len_of(f.as_slice()) > 240 || has_control(
        f.as_slice(),
    ) {
        return Err("FILE_DOWNLOAD_FILENAME_INVALID");
    }
    let ext = to_ascii_lower(extension_of(f.as_slice()).as_slice());
    if !is_supported(ext.as_slice()) {
        return Err("FILE_TYPE_UNSUPPORTED");
    }
    Ok(crate::text::string_of(ext.as_slice()))
}

/// A request and a stored operation name the same message and file.
pub open spec fn same_identity_spec(input: CreateRequest, operation: Operation) -> bool {
    &&& input.chat_id@ == operation.chat_id@
    &&& input.chat_name@ == operation.chat_name@
    &&& input.local_id == operation.local_id
    &&& opt_str_view(input.server_id) == opt_str_view(operation.server_id)
    &&& input.expected_filename@ == operation.expected_filename@
}

/// Whether a repeated request with the same idempotency key asks for the same download.
pub fn same_identity(input: &CreateRequest, operation: &Operation) -> (r: bool)
    ensures
        r == same_identity_spec(*input, *operation),
{
    str_eq(input.chat_id.as_str(), operation.chat_id.as_str()) && str_eq(
        input.chat_name.as_str(),
        operation.chat_name.as_str(),
    ) && input.local_id == operation.local_id && opt_string_eq(
        &input.server_id,
        &operation.server_id,
    ) && str_eq(input.expected_filename.as_str(), operation.expected_filename.as_str())
}

} // verus!

verus! {

/// The bytes that a base64 text decodes to, counted; zero when it does not decode.
pub open spec fn decoded_len_spec(data: Option<Seq<char>>) -> nat {
    match data {
        Some(d) => match crate::codec::base64_decoded(d) {
            Ok(b) => b.len(),
            Err(_) => 0,
        },
        None => 0,
    }
}

/// How many bytes a media result's base64 data holds; zero when there is none
/// or it does not decode.
pub fn decoded_len(data: &Option<String>) -> (r: usize)
    ensures
        r == decoded_len_spec(opt_str_view(*data)),
{
    match data {
        Some(d) => match crate::codec::base64_decode(d.as_str()) {
            Ok(b) => b.len(),
            Err(_) => 0,
        },
        None => 0,
    }
}

/// What a run needs of the operation it works on.
pub struct RunTarget {
    pub id: String,
    pub extension: String,
    pub chat_id: String,
    pub chat_name: String,
    pub local_id: i64,
    pub expected_filename: String,
}

/// Where a file download run stands.
pub enum FileRun {
    /// Waiting to learn whether this run claimed the operation.
    Claiming { id: String, extension: String },
    /// Waiting for the operation to be loaded.
    Loading { id: String, extension: String },
    /// Waiting for what the message cache holds.
    Locating { target: RunTarget },
    /// Waiting for the source session.
    CheckingSession { target: RunTarget },
    /// Waiting for the download tool to finish.
    Triggering { target: RunTarget, linux_user: String },
    /// Waiting for the output file's metadata.
    Validating { target: RunTarget, linux_user: String },
    /// Nothing more to do.
    Done,
}

/// Why a file download failed.
#[derive(Debug)]
pub enum FileFailure {
    SessionUnavailable,
    LoginRequired,
    /// The tool failed, with the code it reported, if any.
    Tool(Option<String>),
    OutputInvalid,
}

/// The error code stored for a failure.
pub open spec fn failure_code_spec(f: FileFailure) -> Seq<char> {
    match f {
        FileFailure::SessionUnavailable => "SOURCE_SESSION_UNAVAILABLE"@,
        FileFailure::LoginRequired => "SOURCE_LOGIN_REQUIRED"@,
        FileFailure::Tool(Some(c)) => c@,
        FileFailure::Tool(None) => "FILE_DOWNLOAD_UI_FAILED"@,
        FileFailure::OutputInvalid => "FILE_DOWNLOAD_OUTPUT_INVALID"@,
    }
}

impl FileFailure {
    /// The error code stored for this failure.
    pub fn code(&self) -> (r: String)
        ensures
            r@ == failure_code_spec(*self),
    {
        match self {
            FileFailure::SessionUnavailable => String::from_str("SOURCE_SESSION_UNAVAILABLE"),
            FileFailure::LoginRequired => String::from_str("SOURCE_LOGIN_REQUIRED"),
            FileFailure::Tool(Some(c)) => c.clone(),
            FileFailure::Tool(None) => String::from_str("FILE_DOWNLOAD_UI_FAILED"),
            FileFailure::OutputInvalid => String::from_str("FILE_DOWNLOAD_OUTPUT_INVALID"),
        }
    }
}

/// What the caller of a run learned.
pub enum FileRunEvent {
    /// How many operations the claiming update changed.
    Claimed { rows: u64 },
    /// The operation as stored, if it still exists.
    Loaded { operation: Option<Operation> },
    /// What the message cache holds: its media type and decoded size.
    Located { media_type: String, decoded_len: usize },
    /// The source session, when there is one, and its login.
    SessionSeen { present: bool, logged_in: bool, linux_user: String },
    /// The download tool's exit code and the error code it printed, if any.
    ToolExited { exit_code: i32, error_code: Option<String> },
    /// The output path's metadata.
    OutputSeen { is_file: bool, len: u64 },
}

/// What the caller does next.
pub enum FileRunAction {
    /// Stop: the operation is someone else's, gone, or finished.
    Stop,
    /// Load the claimed operation.
    Load,
    /// Mark the operation `locating` and look the message up in the cache.
    Locate,
    /// Look up the source session.
    CheckSession,
    /// Mark it `triggering` and run the download tool.
    Trigger,
    /// Mark it `validating` and read the output path's metadata.
    Validate,
    /// Mark it ready with its size, and the output path if one was written.
    Ready { in_output: bool, size: u64 },
    /// Mark it failed.
    Fail(FileFailure),
}

/// The run's next stage and the caller's next action after an event; an event
/// that does not belong to the stage stops the run.
pub open spec fn file_run_next(s: FileRun, e: FileRunEvent) -> (FileRun, FileRunAction) {
    match (s, e) {
        (FileRun::Claiming { id, extension }, FileRunEvent::Claimed { rows }) => if rows == 1 {
            (FileRun::Loading { id, extension }, FileRunAction::Load)
        } else {
            (FileRun::Done, FileRunAction::Stop)
        },
        (FileRun::Loading { id, extension }, FileRunEvent::Loaded { operation }) => match operation {
            Some(op) => (
                FileRun::Locating {
                    target: RunTarget {
                        id,
                        extension,
                        chat_id: op.chat_id,
                        chat_name: op.chat_name,
                        local_id: op.local_id,
                        expected_filename: op.expected_filename,
                    },
                },
                FileRunAction::Locate,
            ),
            None => (FileRun::Done, FileRunAction::Stop),
        },
        (FileRun::Locating { target }, FileRunEvent::Located { media_type, decoded_len }) => if
        media_type@ == "file"@ && decoded_len > 0 {
            (FileRun::Done, FileRunAction::Ready { in_output: false, size: decoded_len as u64 })
        } else {
            (FileRun::CheckingSession { target }, FileRunAction::CheckSession)
        },
        (
            FileRun::CheckingSession { target },
            FileRunEvent::SessionSeen { present, logged_in, linux_user },
        ) => if !present {
            (FileRun::Done, FileRunAction::Fail(FileFailure::SessionUnavailable))
        } else if !logged_in {
            (FileRun::Done, FileRunAction::Fail(FileFailure::LoginRequired))
        } else {
            (FileRun::Triggering { target, linux_user }, FileRunAction::Trigger)
        },
        (
            FileRun::Triggering { target, linux_user },
            FileRunEvent::ToolExited { exit_code, error_code },
        ) => if exit_code != 0 {
            (FileRun::Done, FileRunAction::Fail(FileFailure::Tool(error_code)))
        } else {
            (FileRun::Validating { target, linux_user }, FileRunAction::Validate)
        },
        (FileRun::Validating { target, linux_user }, FileRunEvent::OutputSeen { is_file, len }) => if
        is_file && len > 0 {
            (FileRun::Done, FileRunAction::Ready { in_output: true, size: len })
        } else {
            (FileRun::Done, FileRunAction::Fail(FileFailure::OutputInvalid))
        },
        _ => (FileRun::Done, FileRunAction::Stop),
    }
}

/// A run starts by trying to claim the operation.
pub fn file_run_start(id: String, extension: String) -> (r: FileRun)
    ensures
        r == (FileRun::Claiming { id, extension }),
{
    FileRun::Claiming { id, extension }
}

/// One step of a file download run.
pub fn file_run_step(s: FileRun, e: FileRunEvent) -> (r: (FileRun, FileRunAction))
    ensures
        r == file_run_next(s, e),
{
    match (s, e) {
        (FileRun::Claiming { id, extension }, FileRunEvent::Claimed { rows }) => if rows == 1 {
            (FileRun::Loading { id, extension }, FileRunAction::Load)
        } else {
            (FileRun::Done, FileRunAction::Stop)
        },
        (FileRun::Loading { id, extension }, FileRunEvent::Loaded { operation }) => match operation {
            Some(op) => (
                FileRun::Locating {
                    target: RunTarget {
                        id,
                        extension,
                        chat_id: op.chat_id,
                        chat_name: op.chat_name,
                        local_id: op.local_id,
                        expected_filename: op.expected_filename,
                    },
                },
                FileRunAction::Locate,
            ),
            None => (FileRun::Done, FileRunAction::Stop),
        },
        (FileRun::Locating { target }, FileRunEvent::Located { media_type, decoded_len }) => {
            if str_eq(media_type.as_str(), "file") && decoded_len > 0 {
                (FileRun::Done, FileRunAction::Ready { in_output: false, size: decoded_len as u64 })
            } else {
                (FileRun::CheckingSession { target }, FileRunAction::CheckSession)
            }
        },
        (
            FileRun::CheckingSession { target },
            FileRunEvent::SessionSeen { present, logged_in, linux_user },
        ) => if !present {
            (FileRun::Done, FileRunAction::Fail(FileFailure::SessionUnavailable))
        } else if !logged_in {
            (FileRun::Done, FileRunAction::Fail(FileFailure::LoginRequired))
        } else {
            (FileRun::Triggering { target, linux_user }, FileRunAction::Trigger)
        },
        (
            FileRun::Triggering { target, linux_user },
            FileRunEvent::ToolExited { exit_code, error_code },
        ) => if exit_code != 0 {
            (FileRun::Done, FileRunAction::Fail(FileFailure::Tool(error_code)))
        } else {
            (FileRun::Validating { target, linux_user }, FileRunAction::Validate)
        },
        (FileRun::Validating { target, linux_user }, FileRunEvent::OutputSeen { is_file, len }) => {
            if is_file && len > 0 {
                (FileRun::Done, FileRunAction::Ready { in_output: true, size: len })
            } else {
                (FileRun::Done, FileRunAction::Fail(FileFailure::OutputInvalid))
            }
        },
        _ => (FileRun::Done, FileRunAction::Stop),
    }
}

/// A run ends after a failure or a finished download: it never goes on from either.
pub proof fn lemma_file_run_ends_on_outcome(s: FileRun, e: FileRunEvent)
    ensures
        (file_run_next(s, e).1 is Ready || file_run_next(s, e).1 is Fail || file_run_next(s, e).1 is Stop)
            ==> file_run_next(s, e).0 is Done,
        file_run_next(FileRun::Done, e).1 is Stop,
{
}

pub(crate) fn append_str(out: &mut String, s: &str)
    ensures
        final(out)@ == old(out)@ + s@,
{
    let v = chars_of(s);
    let mut i: usize = 0;
    while i < v.len()
        invariant
            i <= v.len(),
            v@ == s@,
            out@ == old(out)@ + v@.take(i as int),
        decreases v.len() - i,
    {
        out.push(v[i]);
        i += 1;
        assert(v@.take(i as int) == v@.take(i - 1).push(v@[i - 1]));
    }
    assert(v@.take(v.len() as int) == v@);
}

/// Where the download tool writes the file of an operation.
pub open spec fn output_path_spec(linux_user: Seq<char>, id: Seq<char>, extension: Seq<char>) -> Seq<char> {
    "/home/"@ + linux_user + "/Downloads/agent-file-"@ + id + "."@ + extension
}

/// The output path of an operation, in the session user's Downloads.
pub fn output_path(linux_user: &str, id: &str, extension: &str) -> (r: String)
    ensures
        r@ == output_path_spec(linux_user@, id@, extension@),
{
    let mut p = String::from_str("/home/");
    append_str(&mut p, linux_user);
    append_str(&mut p, "/Downloads/agent-file-");
    append_str(&mut p, id);
    append_str(&mut p, ".");
    append_str(&mut p, extension);
    p
}

/// The prefix every output path of the session's user starts with; a path is
/// deleted on completion only when it has it.
pub open spec fn output_prefix_spec(linux_user: Seq<char>) -> Seq<char> {
    "/home/"@ + linux_user + "/Downloads/agent-file-"@
}

/// Whether a stored output path may be deleted: it lies where the tool writes.
pub fn removable_output(path: &str, linux_user: &str) -> (r: bool)
    ensures
        r == crate::text::starts_with_spec(path@, output_prefix_spec(linux_user@)),
{
    let mut p = String::from_str("/home/");
    append_str(&mut p, linux_user);
    append_str(&mut p, "/Downloads/agent-file-");
    let a = chars_of(path);
    let b = chars_of(p.as_str());
    crate::text::starts_with(a.as_slice(), b.as_slice())
}

/// Every output path is one that completion may delete.
pub proof fn lemma_output_path_is_removable(linux_user: Seq<char>, id: Seq<char>, extension: Seq<char>)
    ensures
        crate::text::starts_with_spec(
            output_path_spec(linux_user, id, extension),
            output_prefix_spec(linux_user),
        ),
{
    let p = output_prefix_spec(linux_user);
    let full = output_path_spec(linux_user, id, extension);
    assert(full == p + (id + "."@ + extension));
    assert(full.take(p.len() as int) == p);
}

/// The download tool's arguments for a target and output path.
pub open spec fn tool_args_spec(t: RunTarget, output: Seq<char>) -> Seq<Seq<char>> {
    seq![
        "--chat-id"@, t.chat_id@,
        "--chat-name"@, t.chat_name@,
        "--local-id"@, crate::text::signed_decimal(t.local_id as int),
        "--filename"@, t.expected_filename@,
        "--output"@, output,
    ]
}

/// The arguments the download tool is run with.
pub fn tool_args(t: &RunTarget, output: &str) -> (r: Vec<String>)
    ensures
        r@.map_values(|s: String| s@) == tool_args_spec(*t, output@),
{
    let mut v: Vec<String> = Vec::new();
    v.push(String::from_str("--chat-id"));
    v.push(t.chat_id.clone());
    v.push(String::from_str("--chat-name"));
    v.push(t.chat_name.clone());
    v.push(String::from_str("--local-id"));
    let mut n = String::new();
    crate::text::push_signed_decimal(t.local_id, &mut n);
    v.push(n);
    v.push(String::from_str("--filename"));
    v.push(t.expected_filename.clone());
    v.push(String::from_str("--output"));
    v.push(String::from_str(output));
    assert(v@.map_values(|s: String| s@) =~= tool_args_spec(*t, output@));
    v
}

} // verus!
