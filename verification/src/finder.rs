//! Short links for Channels (视频号) objects: which identities are accepted,
//! which links are trusted, and how the browser bridge's answers map to errors.
use vstd::prelude::*;
use crate::text::{
    chars_of, starts_with, starts_with_spec, str_eq, string_of, trim, trim_spec,
};

verus! {

/// Why a short link could not be had.
#[derive(Debug, PartialEq, Eq, Structural, Clone, Copy)]
pub enum FinderShortLinkError {
    InvalidObjectId,
    InvalidNonceId,
    SessionUnavailable,
    RequestFailed,
    ResponseInvalid,
    RemoteRejected,
    LinkMissing,
}

/// The stable error code reported for each error.
pub open spec fn error_code_spec(e: FinderShortLinkError) -> Seq<char> {
    match e {
        FinderShortLinkError::InvalidObjectId => "FINDER_OBJECT_ID_INVALID"@,
        FinderShortLinkError::InvalidNonceId => "FINDER_NONCE_ID_INVALID"@,
        FinderShortLinkError::SessionUnavailable => "FINDER_SESSION_UNAVAILABLE"@,
        FinderShortLinkError::RequestFailed => "FINDER_SHORT_LINK_REQUEST_FAILED"@,
        FinderShortLinkError::ResponseInvalid => "FINDER_SHORT_LINK_RESPONSE_INVALID"@,
        FinderShortLinkError::RemoteRejected => "FINDER_SHORT_LINK_REMOTE_REJECTED"@,
        FinderShortLinkError::LinkMissing => "FINDER_SHORT_LINK_MISSING"@,
    }
}

impl FinderShortLinkError {
    /// The error code reported to clients.
    pub fn code(&self) -> (r: &'static str)
        ensures
            r@ == error_code_spec(*self),
    {
        match self {
            FinderShortLinkError::InvalidObjectId => "FINDER_OBJECT_ID_INVALID",
            FinderShortLinkError::InvalidNonceId => "FINDER_NONCE_ID_INVALID",
            FinderShortLinkError::SessionUnavailable => "FINDER_SESSION_UNAVAILABLE",
            FinderShortLinkError::RequestFailed => "FINDER_SHORT_LINK_REQUEST_FAILED",
            FinderShortLinkError::ResponseInvalid => "FINDER_SHORT_LINK_RESPONSE_INVALID",
            FinderShortLinkError::RemoteRejected => "FINDER_SHORT_LINK_REMOTE_REJECTED",
            FinderShortLinkError::LinkMissing => "FINDER_SHORT_LINK_MISSING",
        }
    }
}

/// A request for an object's short link.
pub struct ShortLinkInput {
    pub object_id: String,
    pub object_nonce_id: String,
}

/// What the browser bridge reports about its session.
pub struct FinderBrowserStatus {
    pub status: String,
}

/// The largest response body read from the bridge.
pub const MAX_RESPONSE_BYTES: u64 = 65536;

/// The scene number sent with each resolve request.
pub const SHORT_LINK_SCENE: u8 = 40;

/// An object id: 6 to 32 decimal digits, no leading zero.
pub open spec fn valid_object_id_spec(v: Seq<char>) -> bool {
    6 <= v.len() <= 32 && v[0] != '0' && forall|i: int| 0 <= i < v.len() ==> ('0' <= #[trigger] v[i]
        && v[i] <= '9')
}

/// The characters a nonce id may hold.
pub open spec fn nonce_char(c: char) -> bool {
    ('0' <= c && c <= '9') || ('a' <= c && c <= 'z') || ('A' <= c && c <= 'Z') || c == '_' || c
        == '.' || c == '~' || c == '+' || c == '/' || c == '=' || c == '-'
}

/// A nonce id: 6 to 512 characters, each a letter, digit or one of `_.~+/=-`.
pub open spec fn valid_nonce_id_spec(v: Seq<char>) -> bool {
    6 <= v.len() <= 512 && forall|i: int| 0 <= i < v.len() ==> nonce_char(#[trigger] v[i])
}

/// Whether an object id has the accepted form. Every accepted character is one
/// byte wide, so the byte and character lengths agree on accepted ids.
pub fn valid_object_id(value: &str) -> (r: bool)
    ensures
        r == valid_object_id_spec(value@),
{
    let v = chars_of(value);
    if v.len() < 6 || v.len() > 32 || v[0] == '0' {
        return false;
    }
    let mut i: usize = 0;
    while i < v.len()
        invariant
            i <= v.len(),
            v@ == value@,
            forall|j: int| 0 <= j < i ==> ('0' <= #[trigger] v@[j] && v@[j] <= '9'),
        decreases v.len() - i,
    {
        if !('0' <= v[i] && v[i] <= '9') {
            return false;
        }
        i += 1;
    }
    true
}

/// Whether a nonce id has the accepted form.
pub fn valid_nonce_id(value: &str) -> (r: bool)
    ensures
        r == valid_nonce_id_spec(value@),
{
    let v = chars_of(value);
    if v.len() < 6 || v.len() > 512 {
        return false;
    }
    let mut i: usize = 0;
    while i < v.len()
        invariant
            i <= v.len(),
            v@ == value@,
            forall|j: int| 0 <= j < i ==> nonce_char(#[trigger] v@[j]),
        decreases v.len() - i,
    {
        let c = v[i];
        let ok = ('0' <= c && c <= '9') || ('a' <= c && c <= 'z') || ('A' <= c && c <= 'Z') || c
            == '_' || c == '.' || c == '~' || c == '+' || c == '/' || c == '=' || c == '-';
        if !ok {
            return false;
        }
        i += 1;
    }
    true
}

/// The identity check made before any request goes out.
pub open spec fn check_identity_spec(object_id: Seq<char>, nonce_id: Seq<char>) -> Result<
    (),
    FinderShortLinkError,
> {
    if !valid_object_id_spec(object_id) {
        Err(FinderShortLinkError::InvalidObjectId)
    } else if !valid_nonce_id_spec(nonce_id) {
        Err(FinderShortLinkError::InvalidNonceId)
    } else {
        Ok(())
    }
}

/// Refuses a malformed object or nonce id, the object id first.
pub fn check_identity(object_id: &str, nonce_id: &str) -> (r: Result<(), FinderShortLinkError>)
    ensures
        r == check_identity_spec(object_id@, nonce_id@),
{
    if !valid_object_id(object_id) {
        Err(FinderShortLinkError::InvalidObjectId)
    } else if !valid_nonce_id(nonce_id) {
        Err(FinderShortLinkError::InvalidNonceId)
    } else {
        Ok(())
    }
}

/// The parts of a parsed URL that the checks read.
pub struct UrlParts {
    pub scheme: String,
    pub username: String,
    pub password: Option<String>,
    pub port: Option<u16>,
    pub host: Option<String>,
    pub path: String,
}

pub open spec fn opt_text(s: Option<String>) -> Option<Seq<char>> {
    match s {
        Some(v) => Some(v@),
        None => None,
    }
}

/// A parsed URL as plain values: scheme, user name, password, explicit
/// non-default port, host and path.
pub open spec fn url_parts_view(p: UrlParts) -> (
    Seq<char>,
    Seq<char>,
    Option<Seq<char>>,
    Option<u16>,
    Option<Seq<char>>,
    Seq<char>,
) {
    (p.scheme@, p.username@, opt_text(p.password), p.port, opt_text(p.host), p.path@)
}

pub open spec fn opt_url_parts_view(p: Option<UrlParts>) -> Option<
    (Seq<char>, Seq<char>, Option<Seq<char>>, Option<u16>, Option<Seq<char>>, Seq<char>),
> {
    match p {
        Some(v) => Some(url_parts_view(v)),
        None => None,
    }
}

/// What `url::Url::parse` makes of a text, or nothing when it refuses it.
pub uninterp spec fn url_parts_of(text: Seq<char>) -> Option<
    (Seq<char>, Seq<char>, Option<Seq<char>>, Option<u16>, Option<Seq<char>>, Seq<char>),
>;

/// What `url::Url::join` gives for a base URL text and a relative reference,
/// serialised; nothing when either is refused.
pub uninterp spec fn url_joined(base: Seq<char>, reference: Seq<char>) -> Option<Seq<char>>;

/// `url::Url::parse`, read back through `scheme`, `username`, `password`,
/// `port`, `host_str` and `path`. The parts are named, not stated: the WHATWG
/// URL parser is not restated here.
#[verifier::external_body]
fn parse_url(text: &str) -> (r: Option<UrlParts>)
    ensures
        opt_url_parts_view(r) == url_parts_of(text@),
{
    match reqwest::Url::parse(text) {
        Ok(u) => Some(UrlParts {
            scheme: u.scheme().to_string(),
            username: u.username().to_string(),
            password: u.password().map(str::to_string),
            port: u.port(),
            host: u.host_str().map(str::to_string),
            path: u.path().to_string(),
        }),
        Err(_) => None,
    }
}

/// `url::Url::join` on the parsed base, serialised back to text; named, not stated.
#[verifier::external_body]
fn join_url(base: &str, reference: &str) -> (r: Option<String>)
    ensures
        opt_text(r) == url_joined(base@, reference@),
{
    match reqwest::Url::parse(base) {
        Ok(u) => u.join(reference).ok().map(String::from),
        Err(_) => None,
    }
}

/// Whether a parsed link is an official short link: https, no credentials,
/// the default port, and a `/sph/` page of weixin.qq.com or a
/// `/finder-preview/pages/sph` page of channels.weixin.qq.com.
pub open spec fn official_link(
    p: (Seq<char>, Seq<char>, Option<Seq<char>>, Option<u16>, Option<Seq<char>>, Seq<char>),
) -> bool {
    let (scheme, user, password, port, host, path) = p;
    &&& scheme == "https"@
    &&& user.len() == 0
    &&& password is None
    &&& (port is None || port == Some(443u16))
    &&& ((host == Some("weixin.qq.com"@) && starts_with_spec(path, "/sph/"@)) || (host == Some(
        "channels.weixin.qq.com"@,
    ) && starts_with_spec(path, "/finder-preview/pages/sph"@)))
}

/// The trimmed link when it is an official short link.
pub open spec fn trusted_link_spec(value: Seq<char>) -> Option<Seq<char>> {
    let t = trim_spec(value);
    match url_parts_of(t) {
        Some(p) => if official_link(p) { Some(t) } else { None },
        None => None,
    }
}

fn opt_is(a: &Option<String>, b: &str) -> (r: bool)
    ensures
        r == (opt_text(*a) == Some(b@)),
{
    match a {
        Some(x) => str_eq(x.as_str(), b),
        None => false,
    }
}

fn path_starts_with(path: &String, prefix: &str) -> (r: bool)
    ensures
        r == starts_with_spec(path@, prefix@),
{
    let p = chars_of(path.as_str());
    let q = chars_of(prefix);
    starts_with(p.as_slice(), q.as_slice())
}

/// Keeps a link only when it is an official short link, trimmed.
pub fn trusted_link(value: &str) -> (r: Option<String>)
    ensures
        opt_text(r) == trusted_link_spec(value@),
{
    let t = string_of(trim(chars_of(value).as_slice()).as_slice());
    match parse_url(t.as_str()) {
        None => None,
        Some(p) => {
            let ok_port = match p.port {
                None => true,
                Some(n) => n == 443,
            };
            let plain = str_eq(p.scheme.as_str(), "https") && p.username.as_str().is_empty()
                && p.password.is_none() && ok_port;
            let weixin = opt_is(&p.host, "weixin.qq.com") && path_starts_with(&p.path, "/sph/");
            let channels = opt_is(&p.host, "channels.weixin.qq.com") && path_starts_with(
                &p.path,
                "/finder-preview/pages/sph",
            );
            if plain && (weixin || channels) {
                Some(t)
            } else {
                None
            }
        },
    }
}

/// A bridge base URL is accepted only on loopback: http, host 127.0.0.1, an
/// explicit port, no credentials.
pub open spec fn loopback_bridge(
    p: (Seq<char>, Seq<char>, Option<Seq<char>>, Option<u16>, Option<Seq<char>>, Seq<char>),
) -> bool {
    let (scheme, user, password, port, host, path) = p;
    scheme == "http"@ && host == Some("127.0.0.1"@) && port is Some && user.len() == 0
        && password is None
}

/// The browser bridge's base address: the configured one (`FINDER_BROWSER_URL`)
/// when set, else `http://127.0.0.1:9223`.
pub open spec fn bridge_base_spec(configured: Option<Seq<char>>) -> Seq<char> {
    match configured {
        Some(b) => b,
        None => "http://127.0.0.1:9223"@,
    }
}

/// The bridge base to use, given the configured address if there is one.
pub fn bridge_base(configured: Option<String>) -> (r: String)
    ensures
        r@ == bridge_base_spec(opt_text(configured)),
{
    match configured {
        Some(b) => b,
        None => "http://127.0.0.1:9223".to_owned(),
    }
}

/// The address of a bridge endpoint, or `RequestFailed` for a base that is not
/// a loopback address or a path that does not join.
pub open spec fn bridge_url_spec(base: Seq<char>, path: Seq<char>) -> Result<
    Seq<char>,
    FinderShortLinkError,
> {
    match url_parts_of(base) {
        None => Err(FinderShortLinkError::RequestFailed),
        Some(p) => if !loopback_bridge(p) {
            Err(FinderShortLinkError::RequestFailed)
        } else {
            match url_joined(base, path) {
                Some(u) => Ok(u),
                None => Err(FinderShortLinkError::RequestFailed),
            }
        },
    }
}

/// The bridge endpoint `path` under `base`, refused unless `base` is a loopback address.
pub fn bridge_url(base: &str, path: &str) -> (r: Result<String, FinderShortLinkError>)
    ensures
        match r {
            Ok(u) => bridge_url_spec(base@, path@) == Ok::<Seq<char>, FinderShortLinkError>(u@),
            Err(e) => bridge_url_spec(base@, path@) == Err::<Seq<char>, FinderShortLinkError>(e),
        },
{
    match parse_url(base) {
        None => Err(FinderShortLinkError::RequestFailed),
        Some(p) => {
            let ok = str_eq(p.scheme.as_str(), "http") && opt_is(&p.host, "127.0.0.1")
                && p.port.is_some() && p.username.as_str().is_empty() && p.password.is_none();
            if !ok {
                Err(FinderShortLinkError::RequestFailed)
            } else {
                match join_url(base, path) {
                    Some(u) => Ok(u),
                    None => Err(FinderShortLinkError::RequestFailed),
                }
            }
        },
    }
}

/// The error for a refused bridge answer: the bridge's own code where it names
/// one, else by the HTTP status (503 means no session).
pub open spec fn map_bridge_error_spec(status: u16, code: Option<Seq<char>>) -> FinderShortLinkError {
    if code == Some("FINDER_BROWSER_LOGIN_REQUIRED"@) {
        FinderShortLinkError::SessionUnavailable
    } else if code == Some("FINDER_SHORT_LINK_REMOTE_REJECTED"@) {
        FinderShortLinkError::RemoteRejected
    } else if code == Some("FINDER_SHORT_LINK_MISSING"@) {
        FinderShortLinkError::LinkMissing
    } else if status == 503 {
        FinderShortLinkError::SessionUnavailable
    } else {
        FinderShortLinkError::RequestFailed
    }
}

/// Maps a refused bridge answer to an error without passing on its details.
pub fn map_bridge_error(status: u16, code: Option<&str>) -> (r: FinderShortLinkError)
    ensures
        r == map_bridge_error_spec(
            status,
            match code {
                Some(c) => Some(c@),
                None => None,
            },
        ),
{
    let named = |c: &str, n: &str| -> (b: bool)
        ensures
            b == (c@ == n@),
        { str_eq(c, n) };
    match code {
        Some(c) => {
            if named(c, "FINDER_BROWSER_LOGIN_REQUIRED") {
                return FinderShortLinkError::SessionUnavailable;
            }
            if named(c, "FINDER_SHORT_LINK_REMOTE_REJECTED") {
                return FinderShortLinkError::RemoteRejected;
            }
            if named(c, "FINDER_SHORT_LINK_MISSING") {
                return FinderShortLinkError::LinkMissing;
            }
        },
        None => {},
    }
    if status == 503 {
        FinderShortLinkError::SessionUnavailable
    } else {
        FinderShortLinkError::RequestFailed
    }
}

/// A response that declares more than the limit is refused before it is read.
pub fn check_declared_length(declared: Option<u64>) -> (r: Result<(), FinderShortLinkError>)
    ensures
        r == (if (match declared {
            Some(n) => n,
            None => 0,
        }) > MAX_RESPONSE_BYTES {
            Err(FinderShortLinkError::ResponseInvalid)
        } else {
            Ok(())
        }),
{
    let n = match declared {
        Some(n) => n,
        None => 0,
    };
    if n > MAX_RESPONSE_BYTES {
        Err(FinderShortLinkError::ResponseInvalid)
    } else {
        Ok(())
    }
}

/// A body longer than the limit is refused.
pub fn check_body_length(len: usize) -> (r: Result<(), FinderShortLinkError>)
    ensures
        r == (if len > MAX_RESPONSE_BYTES {
            Err(FinderShortLinkError::ResponseInvalid)
        } else {
            Ok(())
        }),
{
    if len as u64 > MAX_RESPONSE_BYTES {
        Err(FinderShortLinkError::ResponseInvalid)
    } else {
        Ok(())
    }
}

/// The result of a resolve request from the bridge's answer: the mapped error
/// when it was refused, else the short link when it is official.
pub open spec fn short_link_result_spec(
    success: bool,
    status: u16,
    error: Option<Seq<char>>,
    short_url: Option<Seq<char>>,
) -> Result<Seq<char>, FinderShortLinkError> {
    if !success {
        Err(map_bridge_error_spec(status, error))
    } else {
        match short_url {
            Some(u) => match trusted_link_spec(u) {
                Some(t) => Ok(t),
                None => Err(FinderShortLinkError::LinkMissing),
            },
            None => Err(FinderShortLinkError::LinkMissing),
        }
    }
}

/// Reads the bridge's answer to a resolve request.
pub fn short_link_result(
    success: bool,
    status: u16,
    error: Option<String>,
    short_url: Option<String>,
) -> (r: Result<String, FinderShortLinkError>)
    ensures
        match r {
            Ok(u) => short_link_result_spec(success, status, opt_text(error), opt_text(short_url))
                == Ok::<Seq<char>, FinderShortLinkError>(u@),
            Err(e) => short_link_result_spec(success, status, opt_text(error), opt_text(short_url))
                == Err::<Seq<char>, FinderShortLinkError>(e),
        },
{
    if !success {
        let code = match &error {
            Some(c) => Some(c.as_str()),
            None => None,
        };
        return Err(map_bridge_error(status, code));
    }
    match &short_url {
        Some(u) => match trusted_link(u.as_str()) {
            Some(t) => Ok(t),
            None => Err(FinderShortLinkError::LinkMissing),
        },
        None => Err(FinderShortLinkError::LinkMissing),
    }
}

/// The HTTP status a short-link error is answered with: 422 for a malformed
/// identity, 503 without a session, 502 for anything the bridge got wrong.
pub fn short_link_status(e: FinderShortLinkError) -> (r: u16)
    ensures
        r == match e {
            FinderShortLinkError::InvalidObjectId | FinderShortLinkError::InvalidNonceId => 422u16,
            FinderShortLinkError::SessionUnavailable => 503u16,
            _ => 502u16,
        },
{
    match e {
        FinderShortLinkError::InvalidObjectId | FinderShortLinkError::InvalidNonceId => 422,
        FinderShortLinkError::SessionUnavailable => 503,
        _ => 502,
    }
}

/// A Channels share as it was seen in a chat: the message that carried it
/// (session, account, chat, local and server ids), the object it names and
/// the message's raw XML. One is kept per message; a later sighting of the
/// same message replaces the object and XML.
pub struct FinderMessageSource<'a> {
    pub session_id: &'a str,
    pub account_dir: &'a str,
    pub chat_id: &'a str,
    pub local_id: i64,
    pub server_id: i64,
    pub object_id: &'a str,
    pub object_nonce_id: &'a str,
    pub raw_xml: &'a str,
}

} // verus!
