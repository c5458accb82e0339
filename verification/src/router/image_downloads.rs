//! Requests to fetch a full-size image: validation, idempotency identity and
//! which failures may be retried.
use vstd::prelude::*;
use crate::text::{any_control, chars_of, has_control, str_eq, utf8_len, utf8_len_of};

verus! {

/// A request to download the image of one message.
pub struct CreateRequest {
    pub idempotency_key: String,
    pub chat_id: String,
    pub local_id: i64,
}

/// A stored image download operation.
pub struct Operation {
    pub id: String,
    pub idempotency_key: String,
    pub chat_id: String,
    pub local_id: i64,
    pub state: String,
    pub attempts: i64,
    pub error_code: Option<String>,
    pub size_bytes: Option<i64>,
    pub created_at: String,
    pub updated_at: String,
    pub completed_at: Option<String>,
}

/// How many times an operation may be claimed.
pub const MAX_ATTEMPTS: i64 = 2;

/// The outcome of validating a request: nothing, or the error code.
pub open spec fn validate_spec(input: CreateRequest) -> Result<(), Seq<char>> {
    let key = input.idempotency_key@;
    let chat_id = input.chat_id@;
    if key.len() == 0 || utf8_len(key) > 200 {
        Err("IMAGE_DOWNLOAD_IDEMPOTENCY_KEY_INVALID"@)
    } else if chat_id.len() == 0 || utf8_len(chat_id) > 200 || any_control(chat_id)
        || input.local_id < 0 {
        Err("IMAGE_DOWNLOAD_MESSAGE_ID_INVALID"@)
    } else {
        Ok(())
    }
}

/// Checks an image download request; the error is the code it is refused with.
pub fn validate(input: &CreateRequest) -> (r: Result<(), &'static str>)
    ensures
        match r {
            Ok(_) => validate_spec(*input) == Ok::<(), Seq<char>>(()),
            Err(m) => validate_spec(*input) == Err::<(), Seq<char>>(m@),
        },
{
    let key = chars_of(input.idempotency_key.as_str());
    if key.len() == 0 || utf8_len_of(key.as_slice()) > 200 {
        return Err("IMAGE_DOWNLOAD_IDEMPOTENCY_KEY_INVALID");
    }
    let chat_id = chars_of(input.chat_id.as_str());
    if chat_id.len() == 0 || utf8_len_of(chat_id.as_slice()) > 200 || has_control(
        chat_id.as_slice(),
    ) || input.local_id < 0 {
        return Err("IMAGE_DOWNLOAD_MESSAGE_ID_INVALID");
    }
    Ok(())
}

/// Whether a repeated request with the same idempotency key names the same message.
pub fn same_identity(input: &CreateRequest, operation: &Operation) -> (r: bool)
    ensures
        r == (input.chat_id@ == operation.chat_id@ && input.local_id == operation.local_id),
{
    str_eq(input.chat_id.as_str(), operation.chat_id.as_str()) && input.local_id
        == operation.local_id
}

/// Only the newest image of a chat can be fetched through the chat window.
pub fn is_latest_image(local_id: i64, latest_image_local_id: Option<i64>) -> (r: bool)
    ensures
        r == (latest_image_local_id == Some(local_id)),
{
    match latest_image_local_id {
        Some(latest) => latest == local_id,
        None => false,
    }
}

/// The failures after which an operation is queued again.
pub open spec fn resettable_error(code: Seq<char>) -> bool {
    code == "IMAGE_NOT_LATEST_MESSAGE"@ || code == "IMAGE_DOWNLOAD_UI_FAILED"@
}

/// Whether a failed operation with this error code may be retried.
pub fn is_resettable_error(error_code: &str) -> (r: bool)
    ensures
        r == resettable_error(error_code@),
{
    str_eq(error_code, "IMAGE_NOT_LATEST_MESSAGE") || str_eq(error_code, "IMAGE_DOWNLOAD_UI_FAILED")
}

} // verus!

verus! {

/// Whether a media result is a full image: an image whose file is not a thumbnail.
pub open spec fn full_image_spec(media_type: Seq<char>, filename: Seq<char>) -> bool {
    media_type == "image"@ && !crate::text::contains_spec(filename, "_thumb."@)
}

/// Whether a resolved media result is a full-size image.
pub fn is_full_image(media_type: &str, filename: &str) -> (r: bool)
    ensures
        r == full_image_spec(media_type@, filename@),
{
    let f = chars_of(filename);
    let t = chars_of("_thumb.");
    str_eq(media_type, "image") && !crate::text::contains(f.as_slice(), t.as_slice())
}

/// What an image run needs of the operation.
pub struct ImageTarget {
    pub id: String,
    pub chat_id: String,
    pub local_id: i64,
}

/// Where an image download run stands.
pub enum ImageRun {
    Claiming { id: String },
    Loading { id: String },
    /// Waiting for what the message cache holds.
    Locating { target: ImageTarget },
    /// Waiting for the source session; the cached thumbnail's base64 is kept.
    CheckingSession { target: ImageTarget, thumbnail: Option<String> },
    /// Waiting for the chat's display name.
    FindingChat { target: ImageTarget, thumbnail: Option<String>, account: String },
    /// Waiting for the chat's newest image message.
    CheckingLatest { target: ImageTarget, thumbnail: Option<String>, account: String, chat_name: String },
    /// Waiting for where the client caches the image.
    FindingCache { target: ImageTarget, thumbnail: Option<String>, chat_name: String },
    /// Waiting for the thumbnail file to be written.
    WritingThumbnail { target: ImageTarget, chat_name: String, image_dir: String, stem: String },
    /// Waiting for the download tool.
    Triggering { target: ImageTarget },
    /// Waiting for the media to be resolved again.
    Validating { target: ImageTarget },
    Done,
}

/// Why an image download failed.
#[derive(Debug)]
pub enum ImageFailure {
    SessionUnavailable,
    LoginRequired,
    ChatNotFound,
    NotLatestImage,
    CacheIdentityUnavailable,
    ThumbnailUnavailable,
    ThumbnailInvalid,
    ThumbnailWriteFailed,
    /// The tool failed, with the code it reported, if any.
    Tool(Option<String>),
    OutputInvalid,
}

/// The error code stored for a failure.
pub open spec fn image_failure_code(f: ImageFailure) -> Seq<char> {
    match f {
        ImageFailure::SessionUnavailable => "SOURCE_SESSION_UNAVAILABLE"@,
        ImageFailure::LoginRequired => "SOURCE_LOGIN_REQUIRED"@,
        ImageFailure::ChatNotFound => "IMAGE_CHAT_NOT_FOUND"@,
        ImageFailure::NotLatestImage => "IMAGE_NOT_LATEST_IMAGE"@,
        ImageFailure::CacheIdentityUnavailable => "IMAGE_CACHE_IDENTITY_UNAVAILABLE"@,
        ImageFailure::ThumbnailUnavailable => "IMAGE_THUMBNAIL_UNAVAILABLE"@,
        ImageFailure::ThumbnailInvalid => "IMAGE_THUMBNAIL_INVALID"@,
        ImageFailure::ThumbnailWriteFailed => "IMAGE_THUMBNAIL_WRITE_FAILED"@,
        ImageFailure::Tool(Some(c)) => c@,
        ImageFailure::Tool(None) => "IMAGE_DOWNLOAD_UI_FAILED"@,
        ImageFailure::OutputInvalid => "IMAGE_DOWNLOAD_OUTPUT_INVALID"@,
    }
}

impl ImageFailure {
    /// The error code stored for this failure.
    pub fn code(&self) -> (r: String)
        ensures
            r@ == image_failure_code(*self),
    {
        match self {
            ImageFailure::SessionUnavailable => String::from_str("SOURCE_SESSION_UNAVAILABLE"),
            ImageFailure::LoginRequired => String::from_str("SOURCE_LOGIN_REQUIRED"),
            ImageFailure::ChatNotFound => String::from_str("IMAGE_CHAT_NOT_FOUND"),
            ImageFailure::NotLatestImage => String::from_str("IMAGE_NOT_LATEST_IMAGE"),
            ImageFailure::CacheIdentityUnavailable => String::from_str(
                "IMAGE_CACHE_IDENTITY_UNAVAILABLE",
            ),
            ImageFailure::ThumbnailUnavailable => String::from_str("IMAGE_THUMBNAIL_UNAVAILABLE"),
            ImageFailure::ThumbnailInvalid => String::from_str("IMAGE_THUMBNAIL_INVALID"),
            ImageFailure::ThumbnailWriteFailed => String::from_str("IMAGE_THUMBNAIL_WRITE_FAILED"),
            ImageFailure::Tool(Some(c)) => c.clone(),
            ImageFailure::Tool(None) => String::from_str("IMAGE_DOWNLOAD_UI_FAILED"),
            ImageFailure::OutputInvalid => String::from_str("IMAGE_DOWNLOAD_OUTPUT_INVALID"),
        }
    }
}

/// What the caller of an image run learned.
pub enum ImageRunEvent {
    Claimed { rows: u64 },
    Loaded { operation: Option<Operation> },
    /// The cached media: whether it is a full image, its decoded size and its base64 data.
    Located { full_image: bool, decoded_len: usize, data: Option<String> },
    /// The source session and its logged-in account, if any.
    SessionSeen { present: bool, account: Option<String> },
    /// The chat's display name, when the chat was found.
    ChatFound { name: Option<String> },
    /// The local id of the chat's newest image message, if any.
    LatestSeen { latest: Option<i64> },
    /// The cache directory and file stem of the image, when known.
    CacheFound { target: Option<(String, String)> },
    ThumbnailWritten { ok: bool },
    ToolExited { exit_code: i32, error_code: Option<String> },
    /// The media resolved after the tool ran.
    Resolved { full_image: bool, decoded_len: usize },
}

/// What the caller does next.
pub enum ImageRunAction {
    Stop,
    Load,
    /// Mark it `locating` and resolve the message's media.
    Locate,
    CheckSession,
    /// Read the account's keys and look the chat up.
    FindChat,
    /// Find the chat's newest image message.
    CheckLatest,
    /// Find where the client caches the image.
    FindCache,
    /// Write the decoded thumbnail to the temporary thumbnail path.
    WriteThumbnail { bytes: Vec<u8> },
    /// Mark it `triggering` and run the tool with these values.
    Trigger { chat_name: String, image_dir: String, stem: String },
    /// Remove the thumbnail file, mark it `validating` and resolve the media again.
    Validate,
    Ready { size: u64 },
    /// Mark it failed (removing the thumbnail file first when the tool ran).
    Fail(ImageFailure),
}

/// The caller's next action, as plain values.
pub enum ImageRunActionSpec {
    Stop,
    Load,
    Locate,
    CheckSession,
    FindChat,
    CheckLatest,
    FindCache,
    WriteThumbnail(Seq<u8>),
    Trigger { chat_name: String, image_dir: String, stem: String },
    Validate,
    Ready(u64),
    Fail(ImageFailure),
}

pub open spec fn image_action_view(a: ImageRunAction) -> ImageRunActionSpec {
    match a {
        ImageRunAction::Stop => ImageRunActionSpec::Stop,
        ImageRunAction::Load => ImageRunActionSpec::Load,
        ImageRunAction::Locate => ImageRunActionSpec::Locate,
        ImageRunAction::CheckSession => ImageRunActionSpec::CheckSession,
        ImageRunAction::FindChat => ImageRunActionSpec::FindChat,
        ImageRunAction::CheckLatest => ImageRunActionSpec::CheckLatest,
        ImageRunAction::FindCache => ImageRunActionSpec::FindCache,
        ImageRunAction::WriteThumbnail { bytes } => ImageRunActionSpec::WriteThumbnail(bytes@),
        ImageRunAction::Trigger { chat_name, image_dir, stem } => ImageRunActionSpec::Trigger {
            chat_name,
            image_dir,
            stem,
        },
        ImageRunAction::Validate => ImageRunActionSpec::Validate,
        ImageRunAction::Ready { size } => ImageRunActionSpec::Ready(size),
        ImageRunAction::Fail(f) => ImageRunActionSpec::Fail(f),
    }
}

pub open spec fn decoded_thumbnail(data: String) -> Result<Seq<u8>, Seq<char>> {
    crate::codec::base64_decoded(data@)
}

/// The run's next stage and the caller's next action after an event.
pub open spec fn image_run_next(s: ImageRun, e: ImageRunEvent) -> (ImageRun, ImageRunActionSpec) {
    match (s, e) {
        (ImageRun::Claiming { id }, ImageRunEvent::Claimed { rows }) => if rows == 1 {
            (ImageRun::Loading { id }, ImageRunActionSpec::Load)
        } else {
            (ImageRun::Done, ImageRunActionSpec::Stop)
        },
        (ImageRun::Loading { id }, ImageRunEvent::Loaded { operation }) => match operation {
            Some(op) => (
                ImageRun::Locating {
                    target: ImageTarget { id, chat_id: op.chat_id, local_id: op.local_id },
                },
                ImageRunActionSpec::Locate,
            ),
            None => (ImageRun::Done, ImageRunActionSpec::Stop),
        },
        (ImageRun::Locating { target }, ImageRunEvent::Located { full_image, decoded_len, data }) =>
            if full_image && decoded_len > 0 {
            (ImageRun::Done, ImageRunActionSpec::Ready(decoded_len as u64))
        } else {
            (ImageRun::CheckingSession { target, thumbnail: data }, ImageRunActionSpec::CheckSession)
        },
        (ImageRun::CheckingSession { target, thumbnail }, ImageRunEvent::SessionSeen { present, account }) =>
            if !present {
            (ImageRun::Done, ImageRunActionSpec::Fail(ImageFailure::SessionUnavailable))
        } else {
            match account {
                None => (ImageRun::Done, ImageRunActionSpec::Fail(ImageFailure::LoginRequired)),
                Some(a) => (
                    ImageRun::FindingChat { target, thumbnail, account: a },
                    ImageRunActionSpec::FindChat,
                ),
            }
        },
        (ImageRun::FindingChat { target, thumbnail, account }, ImageRunEvent::ChatFound { name }) =>
            match name {
            None => (ImageRun::Done, ImageRunActionSpec::Fail(ImageFailure::ChatNotFound)),
            Some(n) => (
                ImageRun::CheckingLatest { target, thumbnail, account, chat_name: n },
                ImageRunActionSpec::CheckLatest,
            ),
        },
        (
            ImageRun::CheckingLatest { target, thumbnail, account, chat_name },
            ImageRunEvent::LatestSeen { latest },
        ) => if latest != Some(target.local_id) {
            (ImageRun::Done, ImageRunActionSpec::Fail(ImageFailure::NotLatestImage))
        } else {
            (ImageRun::FindingCache { target, thumbnail, chat_name }, ImageRunActionSpec::FindCache)
        },
        (
            ImageRun::FindingCache { target, thumbnail, chat_name },
            ImageRunEvent::CacheFound { target: found },
        ) => match found {
            None => (ImageRun::Done, ImageRunActionSpec::Fail(ImageFailure::CacheIdentityUnavailable)),
            Some((image_dir, stem)) => match thumbnail {
                None => (ImageRun::Done, ImageRunActionSpec::Fail(ImageFailure::ThumbnailUnavailable)),
                Some(d) => match decoded_thumbnail(d) {
                    Err(_) => (ImageRun::Done, ImageRunActionSpec::Fail(ImageFailure::ThumbnailInvalid)),
                    Ok(bytes) => (
                        ImageRun::WritingThumbnail { target, chat_name, image_dir, stem },
                        ImageRunActionSpec::WriteThumbnail(bytes),
                    ),
                },
            },
        },
        (
            ImageRun::WritingThumbnail { target, chat_name, image_dir, stem },
            ImageRunEvent::ThumbnailWritten { ok },
        ) => if !ok {
            (ImageRun::Done, ImageRunActionSpec::Fail(ImageFailure::ThumbnailWriteFailed))
        } else {
            (ImageRun::Triggering { target }, ImageRunActionSpec::Trigger { chat_name, image_dir, stem })
        },
        (ImageRun::Triggering { target }, ImageRunEvent::ToolExited { exit_code, error_code }) => if
        exit_code != 0 {
            (ImageRun::Done, ImageRunActionSpec::Fail(ImageFailure::Tool(error_code)))
        } else {
            (ImageRun::Validating { target }, ImageRunActionSpec::Validate)
        },
        (ImageRun::Validating { target }, ImageRunEvent::Resolved { full_image, decoded_len }) => if
        full_image && decoded_len > 0 {
            (ImageRun::Done, ImageRunActionSpec::Ready(decoded_len as u64))
        } else {
            (ImageRun::Done, ImageRunActionSpec::Fail(ImageFailure::OutputInvalid))
        },
        _ => (ImageRun::Done, ImageRunActionSpec::Stop),
    }
}

/// A run starts by trying to claim the operation.
pub fn image_run_start(id: String) -> (r: ImageRun)
    ensures
        r == (ImageRun::Claiming { id }),
{
    ImageRun::Claiming { id }
}

/// One step of an image download run.
pub fn image_run_step(s: ImageRun, e: ImageRunEvent) -> (r: (ImageRun, ImageRunAction))
    ensures
        (r.0, image_action_view(r.1)) == image_run_next(s, e),
{
    match (s, e) {
        (ImageRun::Claiming { id }, ImageRunEvent::Claimed { rows }) => if rows == 1 {
            (ImageRun::Loading { id }, ImageRunAction::Load)
        } else {
            (ImageRun::Done, ImageRunAction::Stop)
        },
        (ImageRun::Loading { id }, ImageRunEvent::Loaded { operation }) => match operation {
            Some(op) => (
                ImageRun::Locating {
                    target: ImageTarget { id, chat_id: op.chat_id, local_id: op.local_id },
                },
                ImageRunAction::Locate,
            ),
            None => (ImageRun::Done, ImageRunAction::Stop),
        },
        (ImageRun::Locating { target }, ImageRunEvent::Located { full_image, decoded_len, data }) => {
            if full_image && decoded_len > 0 {
                (ImageRun::Done, ImageRunAction::Ready { size: decoded_len as u64 })
            } else {
                (ImageRun::CheckingSession { target, thumbnail: data }, ImageRunAction::CheckSession)
            }
        },
        (ImageRun::CheckingSession { target, thumbnail }, ImageRunEvent::SessionSeen { present, account }) => {
            if !present {
                (ImageRun::Done, ImageRunAction::Fail(ImageFailure::SessionUnavailable))
            } else {
                match account {
                    None => (ImageRun::Done, ImageRunAction::Fail(ImageFailure::LoginRequired)),
                    Some(a) => (
                        ImageRun::FindingChat { target, thumbnail, account: a },
                        ImageRunAction::FindChat,
                    ),
                }
            }
        },
        (ImageRun::FindingChat { target, thumbnail, account }, ImageRunEvent::ChatFound { name }) => {
            match name {
                None => (ImageRun::Done, ImageRunAction::Fail(ImageFailure::ChatNotFound)),
                Some(n) => (
                    ImageRun::CheckingLatest { target, thumbnail, account, chat_name: n },
                    ImageRunAction::CheckLatest,
                ),
            }
        },
        (
            ImageRun::CheckingLatest { target, thumbnail, account, chat_name },
            ImageRunEvent::LatestSeen { latest },
        ) => if !is_latest_image(target.local_id, latest) {
            (ImageRun::Done, ImageRunAction::Fail(ImageFailure::NotLatestImage))
        } else {
            (ImageRun::FindingCache { target, thumbnail, chat_name }, ImageRunAction::FindCache)
        },
        (
            ImageRun::FindingCache { target, thumbnail, chat_name },
            ImageRunEvent::CacheFound { target: found },
        ) => match found {
            None => (ImageRun::Done, ImageRunAction::Fail(ImageFailure::CacheIdentityUnavailable)),
            Some((image_dir, stem)) => match thumbnail {
                None => (ImageRun::Done, ImageRunAction::Fail(ImageFailure::ThumbnailUnavailable)),
                Some(d) => match crate::codec::base64_decode(d.as_str()) {
                    Err(_) => (ImageRun::Done, ImageRunAction::Fail(ImageFailure::ThumbnailInvalid)),
                    Ok(bytes) => (
                        ImageRun::WritingThumbnail { target, chat_name, image_dir, stem },
                        ImageRunAction::WriteThumbnail { bytes },
                    ),
                },
            },
        },
        (
            ImageRun::WritingThumbnail { target, chat_name, image_dir, stem },
            ImageRunEvent::ThumbnailWritten { ok },
        ) => if !ok {
            (ImageRun::Done, ImageRunAction::Fail(ImageFailure::ThumbnailWriteFailed))
        } else {
            (ImageRun::Triggering { target }, ImageRunAction::Trigger { chat_name, image_dir, stem })
        },
        (ImageRun::Triggering { target }, ImageRunEvent::ToolExited { exit_code, error_code }) => {
            if exit_code != 0 {
                (ImageRun::Done, ImageRunAction::Fail(ImageFailure::Tool(error_code)))
            } else {
                (ImageRun::Validating { target }, ImageRunAction::Validate)
            }
        },
        (ImageRun::Validating { target }, ImageRunEvent::Resolved { full_image, decoded_len }) => {
            if full_image && decoded_len > 0 {
                (ImageRun::Done, ImageRunAction::Ready { size: decoded_len as u64 })
            } else {
                (ImageRun::Done, ImageRunAction::Fail(ImageFailure::OutputInvalid))
            }
        },
        _ => (ImageRun::Done, ImageRunAction::Stop),
    }
}

/// The tool is only ever run for the chat's newest image: a run reaches the
/// trigger step only through a newest-image check that passed.
pub proof fn lemma_only_latest_image_proceeds(
    target: ImageTarget,
    thumbnail: Option<String>,
    account: String,
    chat_name: String,
    latest: Option<i64>,
)
    ensures
        (image_run_next(
            ImageRun::CheckingLatest { target, thumbnail, account, chat_name },
            ImageRunEvent::LatestSeen { latest },
        ).1 is FindCache) ==> latest == Some(target.local_id),
{
}

/// Where the thumbnail of an operation is written for the tool.
pub open spec fn thumbnail_path_spec(id: Seq<char>) -> Seq<char> {
    "/tmp/agent-image-"@ + id + ".jpg"@
}

/// The temporary thumbnail path of an operation.
pub fn thumbnail_path(id: &str) -> (r: String)
    ensures
        r@ == thumbnail_path_spec(id@),
{
    let mut p = String::from_str("/tmp/agent-image-");
    crate::router::file_downloads::append_str(&mut p, id);
    crate::router::file_downloads::append_str(&mut p, ".jpg");
    p
}

/// The image tool's arguments.
pub open spec fn image_tool_args_spec(
    chat_id: Seq<char>,
    chat_name: Seq<char>,
    local_id: i64,
    thumbnail: Seq<char>,
    image_dir: Seq<char>,
    stem: Seq<char>,
) -> Seq<Seq<char>> {
    seq![
        "--chat-id"@, chat_id,
        "--chat-name"@, chat_name,
        "--local-id"@, crate::text::signed_decimal(local_id as int),
        "--thumbnail"@, thumbnail,
        "--image-dir"@, image_dir,
        "--stem"@, stem,
    ]
}

/// The arguments the image tool is run with.
pub fn image_tool_args(
    chat_id: &str,
    chat_name: &str,
    local_id: i64,
    thumbnail: &str,
    image_dir: &str,
    stem: &str,
) -> (r: Vec<String>)
    ensures
        r@.map_values(|s: String| s@) == image_tool_args_spec(
            chat_id@,
            chat_name@,
            local_id,
            thumbnail@,
            image_dir@,
            stem@,
        ),
{
    let mut v: Vec<String> = Vec::new();
    v.push(String::from_str("--chat-id"));
    v.push(String::from_str(chat_id));
    v.push(String::from_str("--chat-name"));
    v.push(String::from_str(chat_name));
    v.push(String::from_str("--local-id"));
    let mut n = String::new();
    crate::text::push_signed_decimal(local_id, &mut n);
    v.push(n);
    v.push(String::from_str("--thumbnail"));
    v.push(String::from_str(thumbnail));
    v.push(String::from_str("--image-dir"));
    v.push(String::from_str(image_dir));
    v.push(String::from_str("--stem"));
    v.push(String::from_str(stem));
    assert(v@.map_values(|s: String| s@) =~= image_tool_args_spec(
        chat_id@,
        chat_name@,
        local_id,
        thumbnail@,
        image_dir@,
        stem@,
    ));
    v
}

} // verus!
