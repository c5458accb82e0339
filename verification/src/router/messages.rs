//! The message routes' own decisions: when keys must be extracted again,
//! when a media answer is final, and how an upload is checked and named.
use vstd::prelude::*;
use vstd::string::StringSliceAdditionalSpecFns;
use crate::router::{MAX_UPLOAD_BASE64_BYTES, MAX_UPLOAD_BYTES};
use crate::text::{
    chars_of, contains, contains_spec, ends_with, ends_with_spec, starts_with, starts_with_spec,
    str_eq,
};
use crate::types::MediaResult;
use crate::wechat_db::is_message_db;

verus! {

/// Paging of a chat's messages.
pub struct ListParams {
    pub limit: i64,
    pub offset: i64,
}

/// The image variant a media request asks for.
pub struct MediaParams {
    pub quality: crate::media::ImageQuality,
}

/// A message to send: text, an image, a file, or several of them.
pub struct SendParams {
    pub chat_id: String,
    pub text: Option<String>,
    pub image: Option<ImageInput>,
    pub file: Option<FileInput>,
}

/// An image to send, as base64 with its MIME type.
pub struct ImageInput {
    pub data: String,
    pub mime_type: String,
}

/// A file to send, as base64 with its name.
pub struct FileInput {
    pub data: String,
    pub filename: String,
}

/// The page size when a request names none.
pub fn default_limit() -> (r: i64)
    ensures
        r == 50,
{
    50
}

/// Whether a database file name is a message database.
pub fn is_message_db_name(name: &str) -> (r: bool)
    ensures
        r == is_message_db(name@),
{
    let n = chars_of(name);
    starts_with(n.as_slice(), chars_of("message_").as_slice()) && ends_with(
        n.as_slice(),
        chars_of(".db").as_slice(),
    ) && !contains(n.as_slice(), chars_of("fts").as_slice()) && !contains(
        n.as_slice(),
        chars_of("resource").as_slice(),
    )
}

/// Whether a database file name is a media database.
pub fn is_media_db_name(name: &str) -> (r: bool)
    ensures
        r == crate::media::is_media_db(name@),
{
    let n = chars_of(name);
    starts_with(n.as_slice(), chars_of("media_").as_slice()) && ends_with(
        n.as_slice(),
        chars_of(".db").as_slice(),
    )
}

/// A key is stored under this database name.
pub open spec fn has_key_spec(keys: Seq<(String, String)>, name: Seq<char>) -> bool {
    exists|i: int| 0 <= i < keys.len() && (#[trigger] keys[i]).0@ == name
}

fn has_key(keys: &Vec<(String, String)>, name: &str) -> (r: bool)
    ensures
        r == has_key_spec(keys@, name@),
{
    let mut i: usize = 0;
    while i < keys.len()
        invariant
            i <= keys.len(),
            forall|j: int| 0 <= j < i ==> (#[trigger] keys@[j]).0@ != name@,
        decreases keys.len() - i,
    {
        if str_eq(keys[i].0.as_str(), name) {
            assert(keys@[i as int].0@ == name@);
            return true;
        }
        i += 1;
    }
    false
}

/// Which database files need a key: message or media databases.
#[derive(Clone, Copy, Debug, PartialEq, Eq, Structural)]
pub enum DbKind {
    Message,
    Media,
}

pub open spec fn kind_matches(kind: DbKind, name: Seq<char>) -> bool {
    match kind {
        DbKind::Message => is_message_db(name),
        DbKind::Media => crate::media::is_media_db(name),
    }
}

/// Some database of the kind lies on disk without a stored key: the keys
/// must be extracted again.
pub open spec fn missing_key_spec(kind: DbKind, on_disk: Seq<String>, keys: Seq<(String, String)>) -> bool {
    exists|i: int| 0 <= i < on_disk.len() && kind_matches(kind, (#[trigger] on_disk[i])@) && !has_key_spec(
        keys,
        on_disk[i]@,
    )
}

/// Whether a database of the kind on disk has no stored key.
pub fn key_missing(kind: DbKind, on_disk: &Vec<String>, keys: &Vec<(String, String)>) -> (r: bool)
    ensures
        r == missing_key_spec(kind, on_disk@, keys@),
{
    let mut i: usize = 0;
    while i < on_disk.len()
        invariant
            i <= on_disk.len(),
            forall|j: int| 0 <= j < i ==> !(kind_matches(kind, (#[trigger] on_disk@[j])@) && !has_key_spec(
                keys@,
                on_disk@[j]@,
            )),
        decreases on_disk.len() - i,
    {
        let name = on_disk[i].as_str();
        let fits = match kind {
            DbKind::Message => is_message_db_name(name),
            DbKind::Media => is_media_db_name(name),
        };
        if fits && !has_key(keys, name) {
            assert(kind_matches(kind, on_disk@[i as int]@));
            return true;
        }
        i += 1;
    }
    false
}

/// Some stored key opens a message database.
pub open spec fn has_message_key_spec(keys: Seq<(String, String)>) -> bool {
    exists|i: int| 0 <= i < keys.len() && is_message_db((#[trigger] keys[i]).0@)
}

/// Whether messages can be read at all: a key for a message database is stored.
pub fn has_message_key(keys: &Vec<(String, String)>) -> (r: bool)
    ensures
        r == has_message_key_spec(keys@),
{
    let mut i: usize = 0;
    while i < keys.len()
        invariant
            i <= keys.len(),
            forall|j: int| 0 <= j < i ==> !is_message_db((#[trigger] keys@[j]).0@),
        decreases keys.len() - i,
    {
        if is_message_db_name(keys[i].0.as_str()) {
            return true;
        }
        i += 1;
    }
    false
}

/// A media answer is final when it carries data or says the media is unsupported.
pub open spec fn media_final_spec(m: MediaResult) -> bool {
    m.data is Some || m.media_type@ == "unsupported"@
}

/// Whether a media lookup's answer can be returned without waiting for a download.
pub fn media_final(m: &MediaResult) -> (r: bool)
    ensures
        r == media_final_spec(*m),
{
    m.data.is_some() || str_eq(m.media_type.as_str(), "unsupported")
}

/// The seconds a media request waits for a queued download.
pub const MEDIA_WAIT_SECONDS: u64 = 20;

/// What a send request carries.
pub open spec fn send_request_error(has_text: bool, has_image: bool, has_file: bool) -> bool {
    !has_text && !has_image && !has_file
}

/// The refusal of a request that carries nothing to send.
pub fn check_send_content(has_text: bool, has_image: bool, has_file: bool) -> (r: Option<&'static str>)
    ensures
        match r {
            Some(m) => send_request_error(has_text, has_image, has_file) && m@
                == "No text, image, or file provided"@,
            None => !send_request_error(has_text, has_image, has_file),
        },
{
    if !has_text && !has_image && !has_file {
        Some("No text, image, or file provided")
    } else {
        None
    }
}

/// The refusal when there is no session, or no one is logged in.
pub fn check_send_session(has_session: bool, logged_in: bool) -> (r: Option<&'static str>)
    ensures
        match r {
            Some(m) => (!has_session && m@ == "No session available"@) || (has_session && !logged_in
                && m@ == "NOT_LOGGED_IN"@),
            None => has_session && logged_in,
        },
{
    if !has_session {
        Some("No session available")
    } else if !logged_in {
        Some("NOT_LOGGED_IN")
    } else {
        None
    }
}

/// The temporary file's extension for an image's MIME type.
pub open spec fn image_extension_spec(mime: Seq<char>) -> Seq<char> {
    if mime == "image/jpeg"@ {
        ".jpg"@
    } else if mime == "image/gif"@ {
        ".gif"@
    } else {
        ".png"@
    }
}

/// The extension an uploaded image is stored under: JPEG and GIF keep theirs,
/// anything else is PNG.
pub fn image_extension(mime: &str) -> (r: &'static str)
    ensures
        r@ == image_extension_spec(mime@),
{
    if str_eq(mime, "image/jpeg") {
        ".jpg"
    } else if str_eq(mime, "image/gif") {
        ".gif"
    } else {
        ".png"
    }
}

/// The characters kept in a temporary file name: ASCII letters and digits,
/// `.`, `-` and `_`; everything else becomes `_`.
pub open spec fn safe_char(c: char) -> char {
    if ('a' <= c && c <= 'z') || ('A' <= c && c <= 'Z') || ('0' <= c && c <= '9') || c == '.'
        || c == '-' || c == '_' {
        c
    } else {
        '_'
    }
}

/// A file name made safe for a temporary path, character for character.
pub fn safe_upload_name(name: &str) -> (r: String)
    ensures
        r@ == name@.map_values(|c: char| safe_char(c)),
{
    let cs = chars_of(name);
    let mut out = String::new();
    let mut i: usize = 0;
    while i < cs.len()
        invariant
            i <= cs.len(),
            cs@ == name@,
            out@ == cs@.take(i as int).map_values(|c: char| safe_char(c)),
        decreases cs.len() - i,
    {
        let c = cs[i];
        let k = if ('a' <= c && c <= 'z') || ('A' <= c && c <= 'Z') || ('0' <= c && c <= '9') || c
            == '.' || c == '-' || c == '_' {
            c
        } else {
            '_'
        };
        out.push(k);
        i += 1;
        assert(cs@.take(i as int).map_values(|c: char| safe_char(c)) =~= cs@.take(i - 1).map_values(
            |c: char| safe_char(c),
        ).push(k));
    }
    assert(cs@.take(cs.len() as int) == cs@);
    out
}

/// What an uploaded image's base64 data gives: refused when the text or the
/// bytes exceed the limit, nothing when it does not decode, else the bytes.
pub open spec fn image_upload_spec(data: Seq<u8>, text: Seq<char>) -> Result<Option<Seq<u8>>, Seq<char>> {
    if data.len() > MAX_UPLOAD_BASE64_BYTES {
        Err("Image exceeds the 128 MiB upload limit"@)
    } else {
        match crate::codec::base64_decoded(text) {
            Err(_) => Ok(None),
            Ok(b) => if b.len() > MAX_UPLOAD_BYTES {
                Err("Image exceeds the 128 MiB upload limit"@)
            } else {
                Ok(Some(b))
            },
        }
    }
}

/// Checks and decodes an uploaded image; an image that does not decode is left out.
pub fn decode_image_upload(data: &str) -> (r: Result<Option<Vec<u8>>, &'static str>)
    ensures
        match r {
            Ok(Some(b)) => image_upload_spec(data.spec_bytes(), data@) == Ok::<
                Option<Seq<u8>>,
                Seq<char>,
            >(Some(b@)),
            Ok(None) => image_upload_spec(data.spec_bytes(), data@) == Ok::<
                Option<Seq<u8>>,
                Seq<char>,
            >(None),
            Err(m) => image_upload_spec(data.spec_bytes(), data@) == Err::<
                Option<Seq<u8>>,
                Seq<char>,
            >(m@),
        },
{
    if data.as_bytes().len() > MAX_UPLOAD_BASE64_BYTES {
        return Err("Image exceeds the 128 MiB upload limit");
    }
    match crate::codec::base64_decode(data) {
        Err(_) => Ok(None),
        Ok(b) => {
            if b.len() > MAX_UPLOAD_BYTES {
                Err("Image exceeds the 128 MiB upload limit")
            } else {
                Ok(Some(b))
            }
        },
    }
}

/// What an uploaded file's base64 data gives: refused when the text exceeds
/// the limit or does not decode (with the decoder's message), else the bytes.
pub open spec fn file_upload_spec(data: Seq<u8>, text: Seq<char>) -> Result<Seq<u8>, Seq<char>> {
    if data.len() > MAX_UPLOAD_BASE64_BYTES {
        Err("File exceeds the 128 MiB upload limit"@)
    } else {
        match crate::codec::base64_decoded(text) {
            Err(e) => Err("Failed to decode base64 file data: "@ + e),
            Ok(b) => Ok(b),
        }
    }
}

/// Checks and decodes an uploaded file. Its decoded size is checked after it
/// is written, with `file_upload_fits`.
pub fn decode_file_upload(data: &str) -> (r: Result<Vec<u8>, String>)
    ensures
        match r {
            Ok(b) => file_upload_spec(data.spec_bytes(), data@) == Ok::<Seq<u8>, Seq<char>>(b@),
            Err(m) => file_upload_spec(data.spec_bytes(), data@) == Err::<Seq<u8>, Seq<char>>(m@),
        },
{
    if data.as_bytes().len() > MAX_UPLOAD_BASE64_BYTES {
        return Err(String::from_str("File exceeds the 128 MiB upload limit"));
    }
    match crate::codec::base64_decode(data) {
        Err(e) => {
            let mut m = String::from_str("Failed to decode base64 file data: ");
            crate::router::file_downloads::append_str(&mut m, e.as_str());
            Err(m)
        },
        Ok(b) => Ok(b),
    }
}

/// Whether a decoded upload is within the limit.
pub fn file_upload_fits(len: usize) -> (r: bool)
    ensures
        r == (len <= MAX_UPLOAD_BYTES),
{
    len <= MAX_UPLOAD_BYTES
}

/// The temporary path of an uploaded image.
pub open spec fn image_upload_path_spec(millis: u64, ext: Seq<char>) -> Seq<char> {
    "/tmp/send_image_"@ + crate::text::decimal(millis as nat) + ext
}

/// Where an uploaded image is written, named by the time in milliseconds.
pub fn image_upload_path(millis: u64, ext: &str) -> (r: String)
    ensures
        r@ == image_upload_path_spec(millis, ext@),
{
    let mut p = String::from_str("/tmp/send_image_");
    crate::text::push_decimal(millis, &mut p);
    crate::router::file_downloads::append_str(&mut p, ext);
    p
}

/// The temporary path of an uploaded file.
pub open spec fn file_upload_path_spec(millis: u64, safe_name: Seq<char>) -> Seq<char> {
    "/tmp/send_file_"@ + crate::text::decimal(millis as nat) + "_"@ + safe_name
}

/// Where an uploaded file is written: the time in milliseconds and its safe name.
pub fn file_upload_path(millis: u64, safe_name: &str) -> (r: String)
    ensures
        r@ == file_upload_path_spec(millis, safe_name@),
{
    let mut p = String::from_str("/tmp/send_file_");
    crate::text::push_decimal(millis, &mut p);
    crate::router::file_downloads::append_str(&mut p, "_");
    crate::router::file_downloads::append_str(&mut p, safe_name);
    p
}

/// What a send request carries once it passed its checks: the decoded image,
/// if one was sent and it decoded, and the decoded file, if one was sent.
pub struct SendUploads {
    pub image: Option<Vec<u8>>,
    pub file: Option<Vec<u8>>,
}

/// The checks of a send request in order: something to send, a session, a
/// logged-in account, the image, then the file. The first that fails gives
/// the refusal.
pub open spec fn send_checks_spec(
    has_text: bool,
    image: Option<Seq<char>>,
    file: Option<Seq<char>>,
    has_session: bool,
    logged_in: bool,
) -> Result<(Option<Seq<u8>>, Option<Seq<u8>>), Seq<char>> {
    if send_request_error(has_text, image is Some, file is Some) {
        Err("No text, image, or file provided"@)
    } else if !has_session {
        Err("No session available"@)
    } else if !logged_in {
        Err("NOT_LOGGED_IN"@)
    } else {
        let img = match image {
            None => Ok(None),
            Some(d) => image_upload_spec(vstd::utf8::encode_utf8(d), d),
        };
        match img {
            Err(m) => Err(m),
            Ok(ib) => match file {
                None => Ok((ib, None)),
                Some(d) => match file_upload_spec(vstd::utf8::encode_utf8(d), d) {
                    Err(m) => Err(m),
                    Ok(fb) => Ok((ib, Some(fb))),
                },
            },
        }
    }
}

/// Runs the checks of a send request in order and decodes its uploads.
pub fn check_send(
    has_text: bool,
    image: Option<&str>,
    file: Option<&str>,
    has_session: bool,
    logged_in: bool,
) -> (r: Result<SendUploads, String>)
    ensures
        match r {
            Ok(u) => send_checks_spec(
                has_text,
                match image { Some(d) => Some(d@), None => None },
                match file { Some(d) => Some(d@), None => None },
                has_session,
                logged_in,
            ) == Ok::<(Option<Seq<u8>>, Option<Seq<u8>>), Seq<char>>(
                (
                    match u.image { Some(b) => Some(b@), None => None },
                    match u.file { Some(b) => Some(b@), None => None },
                ),
            ),
            Err(m) => send_checks_spec(
                has_text,
                match image { Some(d) => Some(d@), None => None },
                match file { Some(d) => Some(d@), None => None },
                has_session,
                logged_in,
            ) == Err::<(Option<Seq<u8>>, Option<Seq<u8>>), Seq<char>>(m@),
        },
{
    if let Some(m) = check_send_content(has_text, image.is_some(), file.is_some()) {
        return Err(String::from_str(m));
    }
    if let Some(m) = check_send_session(has_session, logged_in) {
        return Err(String::from_str(m));
    }
    let decoded_image = match image {
        None => None,
        Some(d) => match decode_image_upload(d) {
            Err(m) => {
                return Err(String::from_str(m));
            },
            Ok(b) => b,
        },
    };
    let decoded_file = match file {
        None => None,
        Some(d) => match decode_file_upload(d) {
            Err(m) => {
                return Err(m);
            },
            Ok(b) => Some(b),
        },
    };
    Ok(SendUploads { image: decoded_image, file: decoded_file })
}

} // verus!
