//! Message media: which stored variant serves a request, how WeChat's `.dat`
//! image files are laid out and unscrambled, and which files belong to a
//! message. The files themselves are read by the caller.
use vstd::prelude::*;
use vstd::string::StringSliceAdditionalSpecFns;
use crate::messages::{video_attr, video_attr_spec, xml_tag_spec};
use crate::text::{chars_of, str_eq, ends_with_spec, starts_with_spec, contains_spec};
use crate::types::MediaResult;

verus! {

// ============================================
// Qualities
// ============================================

/// Which image variant a request wants.
#[derive(Clone, Copy, Debug, PartialEq, Eq, Structural)]
pub enum ImageQuality {
    Legacy,
    Full,
    Standard,
    Thumbnail,
    Best,
}

impl Default for ImageQuality {
    /// A request without a quality gets the best available.
    fn default() -> (q: ImageQuality)
        ensures
            q == ImageQuality::Best,
    {
        ImageQuality::Best
    }
}

impl ImageQuality {
    /// The quality a request without one gets: the best available.
    pub fn default_quality() -> (q: ImageQuality)
        ensures
            q == ImageQuality::Best,
    {
        ImageQuality::Best
    }

    /// The quality named by a lower-case word; none for any other word.
    pub fn from_name(name: &str) -> (q: Option<ImageQuality>)
        ensures
            q == (if name@ == "legacy"@ {
                Some(ImageQuality::Legacy)
            } else if name@ == "full"@ {
                Some(ImageQuality::Full)
            } else if name@ == "standard"@ {
                Some(ImageQuality::Standard)
            } else if name@ == "thumbnail"@ {
                Some(ImageQuality::Thumbnail)
            } else if name@ == "best"@ {
                Some(ImageQuality::Best)
            } else {
                None
            }),
    {
        if str_eq(name, "legacy") {
            Some(ImageQuality::Legacy)
        } else if str_eq(name, "full") {
            Some(ImageQuality::Full)
        } else if str_eq(name, "standard") {
            Some(ImageQuality::Standard)
        } else if str_eq(name, "thumbnail") {
            Some(ImageQuality::Thumbnail)
        } else if str_eq(name, "best") {
            Some(ImageQuality::Best)
        } else {
            None
        }
    }
}

/// The `.dat` file suffixes to try for a quality, in order: `_h` is the full
/// image, no suffix the standard one, `_t` the thumbnail.
pub open spec fn suffixes_spec(q: ImageQuality) -> Seq<Seq<char>> {
    match q {
        ImageQuality::Legacy => seq![""@, "_t"@, "_h"@],
        ImageQuality::Full => seq!["_h"@],
        ImageQuality::Standard => seq![""@],
        ImageQuality::Thumbnail => seq!["_t"@],
        ImageQuality::Best => seq!["_h"@, ""@, "_t"@],
    }
}

/// The file suffixes of a quality; a full-resolution request never falls
/// back to a smaller variant.
pub fn image_suffixes(quality: ImageQuality) -> (r: Vec<&'static str>)
    ensures
        r@.map_values(|s: &str| s@) == suffixes_spec(quality),
{
    let mut v: Vec<&'static str> = Vec::new();
    match quality {
        ImageQuality::Legacy => {
            v.push("");
            v.push("_t");
            v.push("_h");
        },
        ImageQuality::Full => {
            v.push("_h");
        },
        ImageQuality::Standard => {
            v.push("");
        },
        ImageQuality::Thumbnail => {
            v.push("_t");
        },
        ImageQuality::Best => {
            v.push("_h");
            v.push("");
            v.push("_t");
        },
    }
    assert(v@.map_values(|s: &str| s@) =~= suffixes_spec(quality));
    v
}

/// The quality non-image media are served at: best and standard mean full.
pub fn non_image_quality(quality: ImageQuality) -> (q: ImageQuality)
    ensures
        q == (if quality == ImageQuality::Best || quality == ImageQuality::Standard {
            ImageQuality::Full
        } else {
            quality
        }),
{
    if quality == ImageQuality::Best || quality == ImageQuality::Standard {
        ImageQuality::Full
    } else {
        quality
    }
}

/// The variants a best-quality image request tries, in order, with the label
/// it reports for each.
pub fn best_variants() -> (r: Vec<(ImageQuality, &'static str)>)
    ensures
        r@.len() == 3,
        r@[0].0 == ImageQuality::Full && r@[0].1@ == "full"@,
        r@[1].0 == ImageQuality::Standard && r@[1].1@ == "standard"@,
        r@[2].0 == ImageQuality::Thumbnail && r@[2].1@ == "thumbnail"@,
{
    let mut v: Vec<(ImageQuality, &'static str)> = Vec::new();
    v.push((ImageQuality::Full, "full"));
    v.push((ImageQuality::Standard, "standard"));
    v.push((ImageQuality::Thumbnail, "thumbnail"));
    v
}

// ============================================
// Results
// ============================================

pub struct MediaSpec {
    pub media_type: Seq<char>,
    pub data: Option<Seq<char>>,
    pub url: Option<Seq<char>>,
    pub format: Seq<char>,
    pub filename: Seq<char>,
    pub quality: Option<Seq<char>>,
}

pub open spec fn media_view(m: MediaResult) -> MediaSpec {
    MediaSpec {
        media_type: m.media_type@,
        data: crate::types::opt_str_view(m.data),
        url: crate::types::opt_str_view(m.url),
        format: m.format@,
        filename: m.filename@,
        quality: crate::types::opt_str_view(m.quality),
    }
}

pub open spec fn bare(kind: Seq<char>) -> MediaSpec {
    MediaSpec { media_type: kind, data: None, url: None, format: Seq::empty(), filename: Seq::empty(), quality: None }
}

fn bare_exec(kind: &str) -> (m: MediaResult)
    ensures
        media_view(m) == bare(kind@),
{
    MediaResult {
        media_type: kind.to_owned(),
        data: None,
        url: None,
        format: String::new(),
        filename: String::new(),
        quality: None,
    }
}

/// The answer for media that cannot be served.
pub fn unsupported() -> (m: MediaResult)
    ensures
        media_view(m) == bare("unsupported"@),
{
    bare_exec("unsupported")
}

/// The answer for media not (completely) on disk yet.
pub fn pending() -> (m: MediaResult)
    ensures
        media_view(m) == bare("pending"@),
{
    bare_exec("pending")
}

/// `msg_<id>` followed by an extension.
pub open spec fn msg_file(local_id: i64, ext: Seq<char>) -> Seq<char> {
    "msg_"@ + crate::text::signed_decimal(local_id as int) + ext
}

pub fn msg_file_exec(local_id: i64, ext: &str) -> (s: String)
    ensures
        s@ == msg_file(local_id, ext@),
{
    let mut s = "msg_".to_owned();
    crate::text::push_signed_decimal(local_id, &mut s);
    let e = chars_of(ext);
    let mut i: usize = 0;
    let ghost mid = s@;
    while i < e.len()
        invariant
            i <= e.len(),
            e@ == ext@,
            s@ == mid + e@.take(i as int),
        decreases e.len() - i,
    {
        s.push(e[i]);
        i += 1;
        assert(e@.take(i as int) == e@.take(i - 1).push(e@[i - 1]));
    }
    assert(e@.take(e.len() as int) == e@);
    s
}

/// An image that could not be produced: no data, named as a JPEG.
pub open spec fn missing_image(local_id: i64) -> MediaSpec {
    MediaSpec {
        media_type: "image"@,
        data: None,
        url: None,
        format: "jpeg"@,
        filename: msg_file(local_id, ".jpg"@),
        quality: None,
    }
}

pub fn missing_image_exec(local_id: i64) -> (m: MediaResult)
    ensures
        media_view(m) == missing_image(local_id),
{
    MediaResult {
        media_type: "image".to_owned(),
        data: None,
        url: None,
        format: "jpeg".to_owned(),
        filename: msg_file_exec(local_id, ".jpg"),
        quality: None,
    }
}

/// The two places an account's files may live.
pub fn account_base_paths(account_dir: &str) -> (r: (String, String))
    ensures
        r.0@ == crate::wechat_db::base_path(account_dir@, false),
        r.1@ == crate::wechat_db::base_path(account_dir@, true),
{
    let a = chars_of(account_dir);
    let mut p = chars_of("/home/wechat/xwechat_files/");
    crate::text::append_chars(&mut p, a.as_slice());
    let mut q = chars_of("/home/wechat/Documents/xwechat_files/");
    crate::text::append_chars(&mut q, a.as_slice());
    (crate::text::string_of(p.as_slice()), crate::text::string_of(q.as_slice()))
}

// ============================================
// Native identities
// ============================================

pub open spec fn is_id_char(c: char) -> bool {
    ('a' <= c && c <= 'z') || ('A' <= c && c <= 'Z') || ('0' <= c && c <= '9') || c == '_' || c == '-'
}

/// A WeChat user id as the native client writes it: 1 to 128 ASCII
/// letters, digits, `_` or `-`.
pub open spec fn native_user_spec(v: Seq<char>) -> bool {
    0 < v.len() <= 128 && forall|i: int| 0 <= i < v.len() ==> is_id_char(#[trigger] v[i])
}

/// A group id: 1 to 64 ASCII digits followed by `@chatroom`.
pub open spec fn native_group_spec(v: Seq<char>) -> bool {
    ends_with_spec(v, "@chatroom"@) && {
        let id = v.take(v.len() - 9);
        0 < id.len() <= 64 && forall|i: int| 0 <= i < id.len() ==> crate::text::is_ascii_digit(#[trigger] id[i])
    }
}

pub fn native_user_id(value: &str) -> (r: bool)
    ensures
        r == native_user_spec(value@),
{
    let v = chars_of(value);
    if v.len() == 0 || v.len() > 128 {
        return false;
    }
    let mut i: usize = 0;
    while i < v.len()
        invariant
            i <= v.len(),
            v@ == value@,
            forall|j: int| 0 <= j < i ==> is_id_char(#[trigger] v@[j]),
        decreases v.len() - i,
    {
        let c = v[i];
        if !(('a' <= c && c <= 'z') || ('A' <= c && c <= 'Z') || ('0' <= c && c <= '9') || c == '_'
            || c == '-') {
            assert(!is_id_char(v@[i as int]));
            return false;
        }
        i += 1;
    }
    true
}

pub fn native_group_id(value: &str) -> (r: bool)
    ensures
        r == native_group_spec(value@),
{
    let v = chars_of(value);
    let suffix = chars_of("@chatroom");
    proof {
        reveal_strlit("@chatroom");
    }
    if !crate::text::ends_with(v.as_slice(), suffix.as_slice()) {
        return false;
    }
    let n = v.len() - 9;
    if n == 0 || n > 64 {
        return false;
    }
    let mut i: usize = 0;
    while i < n
        invariant
            i <= n,
            n == v.len() - 9,
            v@ == value@,
            forall|j: int| 0 <= j < i ==> crate::text::is_ascii_digit(#[trigger] v@[j]),
        decreases n - i,
    {
        let c = v[i];
        if !('0' <= c && c <= '9') {
            assert(v@.take(n as int)[i as int] == c);
            assert(!crate::text::is_ascii_digit(v@.take(n as int)[i as int]));
            return false;
        }
        i += 1;
    }
    assert forall|j: int| 0 <= j < n implies crate::text::is_ascii_digit(#[trigger] v@.take(n as int)[j]) by {
        assert(v@.take(n as int)[j] == v@[j]);
    }
    true
}

/// The body a native request serves: the sender must be a native user id; a
/// group message's `sender:\n` prefix (when not XML) must name that sender
/// and is removed; a direct message must come from the chat or the account;
/// the file helper only carries the account's own messages.
pub open spec fn native_body_spec(chat: Seq<char>, sender: Seq<char>, account: Seq<char>, content: Seq<char>) -> Option<Seq<char>> {
    if !native_user_spec(sender) {
        None
    } else if native_group_spec(chat) && find_spec_sep(content) is Some && !starts_with_spec(
        content.take(find_spec_sep(content)->0),
        "<"@,
    ) {
        let k = find_spec_sep(content)->0;
        if content.take(k) == sender {
            Some(content.skip(k + 2))
        } else {
            None
        }
    } else if !native_group_spec(chat) && sender != chat && sender != account {
        None
    } else if chat == "filehelper"@ && sender != account {
        None
    } else {
        Some(content)
    }
}

pub open spec fn find_spec_sep(content: Seq<char>) -> Option<int> {
    crate::text::find_spec(content, ":\n"@)
}

/// The body of a natively stored message, checked against who sent it.
pub fn native_message_body(chat: &str, sender: &str, account: &str, content: String) -> (r: Option<String>)
    ensures
        crate::types::opt_str_view(r) == native_body_spec(chat@, sender@, account@, content@),
{
    if !native_user_id(sender) {
        return None;
    }
    let is_group = native_group_id(chat);
    if is_group {
        let c = chars_of(content.as_str());
        let sep = chars_of(":\n");
        proof {
            reveal_strlit(":\n");
            reveal_strlit("<");
        }
        if let Some(k) = crate::text::find(c.as_slice(), sep.as_slice()) {
            let prefix = crate::text::slice_chars(c.as_slice(), 0, k);
            assert(prefix@ =~= c@.take(k as int));
            let lt = chars_of("<");
            if !crate::text::starts_with(prefix.as_slice(), lt.as_slice()) {
                let sv = chars_of(sender);
                if crate::text::seq_eq(prefix.as_slice(), sv.as_slice()) {
                    let body = crate::text::slice_chars(c.as_slice(), k + 2, c.len());
                    assert(body@ =~= c@.skip(k + 2));
                    return Some(crate::text::string_of(body.as_slice()));
                }
                return None;
            }
        }
    } else if !str_eq(sender, chat) && !str_eq(sender, account) {
        return None;
    }
    if str_eq(chat, "filehelper") && !str_eq(sender, account) {
        return None;
    }
    Some(content)
}

// ============================================
// Image variants and attachments
// ============================================

/// The best variant an image message advertises: full when it offers a big
/// image or a positive HD length, standard when it offers a mid-size one,
/// else the thumbnail.
pub open spec fn best_target_spec(content: Seq<char>) -> Seq<char> {
    let hd = match video_attr_spec(content, "hdlength"@) {
        Some(v) => match crate::text::parse_int_spec(v, 0, 0xffff_ffff_ffff_ffff) {
            Some(n) => n,
            None => 0,
        },
        None => 0,
    };
    if video_attr_spec(content, "cdnbigimgurl"@) is Some || hd > 0 {
        "full"@
    } else if video_attr_spec(content, "cdnmidimgurl"@) is Some {
        "standard"@
    } else {
        "thumbnail"@
    }
}

/// The highest image variant the sender advertised.
pub fn best_image_target(content: &str) -> (r: &'static str)
    ensures
        r@ == best_target_spec(content@),
{
    if video_attr(content, "cdnbigimgurl").is_some() {
        return "full";
    }
    let hd: i128 = match video_attr(content, "hdlength") {
        Some(v) => {
            let vc = chars_of(v.as_str());
            match crate::text::parse_int(vc.as_slice(), 0, 0xffff_ffff_ffff_ffff) {
                Some(n) => n,
                None => 0,
            }
        },
        None => 0,
    };
    if hd > 0 {
        "full"
    } else if video_attr(content, "cdnmidimgurl").is_some() {
        "standard"
    } else {
        "thumbnail"
    }
}

/// An attachment title names a single file: not empty, not `.` or `..`, and
/// without `/`, `\` or NUL.
pub open spec fn safe_name_spec(f: Seq<char>) -> bool {
    f.len() > 0 && f != "."@ && f != ".."@ && !f.contains('/') && !f.contains('\\') && !f.contains('\0')
}

/// Whether an attachment title is a single, safe file name.
pub fn safe_attachment_name(filename: &str) -> (r: bool)
    ensures
        r == safe_name_spec(filename@),
{
    let f = chars_of(filename);
    if f.len() == 0 || str_eq(filename, ".") || str_eq(filename, "..") {
        return false;
    }
    let mut i: usize = 0;
    while i < f.len()
        invariant
            i <= f.len(),
            f@ == filename@,
            forall|j: int| 0 <= j < i ==> f@[j] != '/' && f@[j] != '\\' && f@[j] != '\0',
        decreases f.len() - i,
    {
        if f[i] == '/' || f[i] == '\\' || f[i] == '\0' {
            return false;
        }
        i += 1;
    }
    true
}

} // verus!

verus! {

// ============================================
// .dat image files
// ============================================

/// The size of the AES-encrypted head: the chunk size rounded up to the next
/// multiple of 16 (a whole extra block when already aligned).
pub open spec fn aligned_spec(n: u32) -> int {
    n + 16 - n % 16
}

/// The AES ciphertext size of a `.dat` head for its stored chunk size.
pub fn aligned_aes_size(enc_chunk_size: u32) -> (r: u32)
    requires
        aligned_spec(enc_chunk_size) <= u32::MAX,
    ensures
        r == aligned_spec(enc_chunk_size),
{
    let rem = enc_chunk_size % 16;
    if rem == 0 {
        enc_chunk_size + 16
    } else {
        enc_chunk_size + (16 - rem)
    }
}

/// WeChat's `.dat` magic bytes.
pub open spec fn dat_magic() -> Seq<u8> {
    seq![0x07u8, 0x08, 0x56, 0x32, 0x08, 0x07]
}

/// A little-endian `u32` at `i`.
pub open spec fn le_u32(b: Seq<u8>, i: int) -> int {
    b[i] + 256 * b[i + 1] + 65536 * b[i + 2] + 16777216 * b[i + 3]
}

/// A `.dat` file: the magic, then the encrypted chunk size and the XOR tail
/// size as little-endian `u32`s, then a pad byte.
pub open spec fn is_dat(dat: Seq<u8>) -> bool {
    dat.len() >= 15 && dat.take(6) == dat_magic()
}

/// The range of the AES ciphertext of a `.dat` file and its chunk size; none
/// when the file is not a `.dat` or is too short.
pub open spec fn dat_head_spec(dat: Seq<u8>) -> Option<(int, int, int)> {
    if !is_dat(dat) {
        None
    } else {
        let enc = le_u32(dat, 6);
        let end = 15 + enc + 16 - enc % 16;
        if dat.len() < end {
            None
        } else {
            Some((15, end, enc))
        }
    }
}

fn le_u32_exec(b: &[u8], i: usize) -> (r: u32)
    requires
        i + 4 <= b.len(),
    ensures
        r == le_u32(b@, i as int),
{
    let v: u64 = b[i] as u64 + 256 * (b[i + 1] as u64) + 65536 * (b[i + 2] as u64) + 16777216 * (
    b[i + 3] as u64);
    v as u32
}

/// Where the AES ciphertext of a `.dat` file lies, and its chunk size.
/// A chunk size whose aligned size would not fit a `u32` is left out (the
/// size computation would overflow).
pub fn dat_ciphertext_range(dat: &[u8]) -> (r: Option<(usize, usize, u32)>)
    requires
        is_dat(dat@) ==> aligned_spec(le_u32(dat@, 6) as u32) <= u32::MAX,
    ensures
        match r {
            Some((a, b, n)) => dat_head_spec(dat@) == Some((a as int, b as int, n as int)),
            None => dat_head_spec(dat@) is None,
        },
{
    if dat.len() < 15 {
        return None;
    }
    let magic: [u8; 6] = [0x07, 0x08, 0x56, 0x32, 0x08, 0x07];
    let mut i: usize = 0;
    while i < 6
        invariant
            i <= 6,
            dat.len() >= 15,
            magic@ == dat_magic(),
            forall|j: int| 0 <= j < i ==> dat@[j] == dat_magic()[j],
        decreases 6 - i,
    {
        if dat[i] != magic[i] {
            assert(dat@.take(6)[i as int] != dat_magic()[i as int]);
            return None;
        }
        i += 1;
    }
    assert(dat@.take(6) =~= dat_magic());
    let enc = le_u32_exec(dat, 6);
    let aligned = aligned_aes_size(enc) as usize;
    if dat.len() - 15 < aligned {
        return None;
    }
    Some((15, 15 + aligned, enc))
}

pub open spec fn jpeg_head(h: Seq<u8>) -> bool {
    h.len() >= 2 && h[0] == 0xff && h[1] == 0xd8
}

pub open spec fn png_head(h: Seq<u8>) -> bool {
    h.len() >= 4 && h[0] == 0x89 && h[1] == 0x50 && h[2] == 0x4e && h[3] == 0x47
}

pub open spec fn gif_head(h: Seq<u8>) -> bool {
    h.len() >= 4 && h[0] == 0x47 && h[1] == 0x49 && h[2] == 0x46 && h[3] == 0x38
}

/// The PNG `IEND` trailer.
pub open spec fn png_end() -> Seq<u8> {
    seq![0x49u8, 0x45, 0x4E, 0x44, 0xAE, 0x42, 0x60, 0x82]
}

/// The XOR key of a `.dat` file's tail, found from the image's known last
/// bytes once its decrypted head shows the format: JPEG ends in `FF D9`, PNG
/// in the `IEND` trailer, GIF in `00 3B`.
pub open spec fn xor_byte_spec(dat: Seq<u8>, head: Seq<u8>) -> Option<u8> {
    let n = dat.len();
    if jpeg_head(head) && (dat[n - 2] ^ 0xFFu8) == (dat[n - 1] ^ 0xD9u8) {
        Some(dat[n - 2] ^ 0xFFu8)
    } else if png_head(head) && n >= 8 && forall|i: int|
        0 <= i < 8 ==> (dat[n - 8 + i] ^ (dat[n - 8] ^ 0x49u8)) == #[trigger] png_end()[i] {
        Some(dat[n - 8] ^ 0x49u8)
    } else if gif_head(head) && (dat[n - 2] ^ 0x00u8) == (dat[n - 1] ^ 0x3Bu8) {
        Some(dat[n - 2] ^ 0x00u8)
    } else {
        None
    }
}

/// Derive the XOR key of a `.dat` file from its decrypted head. A JPEG or
/// GIF head with fewer than two file bytes is left out (the lookup of the
/// last two bytes would fail).
pub fn derive_xor_byte(dat: &[u8], dec_head: &[u8]) -> (r: Option<u8>)
    requires
        (jpeg_head(dec_head@) || gif_head(dec_head@)) ==> dat.len() >= 2,
    ensures
        r == xor_byte_spec(dat@, dec_head@),
{
    let n = dat.len();
    if dec_head.len() >= 2 && dec_head[0] == 0xff && dec_head[1] == 0xd8 {
        let c1 = dat[n - 2] ^ 0xFF;
        let c2 = dat[n - 1] ^ 0xD9;
        if c1 == c2 {
            return Some(c1);
        }
    }
    if dec_head.len() >= 4 && dec_head[0] == 0x89 && dec_head[1] == 0x50 && dec_head[2] == 0x4e
        && dec_head[3] == 0x47 {
        if n >= 8 {
            let expected: [u8; 8] = [0x49, 0x45, 0x4E, 0x44, 0xAE, 0x42, 0x60, 0x82];
            assert(expected@ =~= png_end());
            let ts = n - 8;
            let xb = dat[ts] ^ 0x49;
            let mut i: usize = 0;
            let mut all = true;
            while i < 8
                invariant
                    i <= 8,
                    n == dat.len(),
                    n >= 8,
                    ts == n - 8,
                    xb == dat@[ts as int] ^ 0x49u8,
                    expected@ == png_end(),
                    all == forall|j: int| 0 <= j < i ==> (dat@[n - 8 + j] ^ xb) == #[trigger] png_end()[j],
                decreases 8 - i,
            {
                if (dat[ts + i] ^ xb) != expected[i] {
                    all = false;
                }
                i += 1;
            }
            if all {
                return Some(xb);
            }
        }
    }
    if dec_head.len() >= 4 && dec_head[0] == 0x47 && dec_head[1] == 0x49 && dec_head[2] == 0x46
        && dec_head[3] == 0x38 {
        let c1 = dat[n - 2] ^ 0x00;
        let c2 = dat[n - 1] ^ 0x3B;
        if c1 == c2 {
            return Some(c1);
        }
    }
    None
}

/// A decrypted `.dat` image: the decrypted head, then the plain middle, then
/// the last `xor_size` bytes (all of the rest, if fewer) XORed with the key.
pub open spec fn assembled_spec(dat: Seq<u8>, head: Seq<u8>, ct_end: int, xor_byte: u8) -> Seq<u8> {
    let xor_size = le_u32(dat, 10);
    let rest = dat.skip(ct_end);
    let raw_len = if rest.len() >= xor_size {
        rest.len() - xor_size
    } else {
        0
    };
    head + rest.take(raw_len) + rest.skip(raw_len).map_values(|b: u8| b ^ xor_byte)
}

/// Put a decrypted `.dat` image together from its decrypted head: the plain
/// middle follows, and the tail is unscrambled with the XOR key.
pub fn decrypt_dat(dat: &[u8], dec_head: &[u8], ct_end: usize, xor_byte: u8) -> (r: Vec<u8>)
    requires
        15 <= ct_end <= dat.len(),
    ensures
        r@ == assembled_spec(dat@, dec_head@, ct_end as int, xor_byte),
{
    let xor_size = le_u32_exec(dat, 10) as usize;
    let rest_len = dat.len() - ct_end;
    let raw_len = if rest_len >= xor_size {
        rest_len - xor_size
    } else {
        0
    };
    let mut out: Vec<u8> = Vec::new();
    let mut i: usize = 0;
    while i < dec_head.len()
        invariant
            i <= dec_head.len(),
            out@ == dec_head@.take(i as int),
        decreases dec_head.len() - i,
    {
        out.push(dec_head[i]);
        i += 1;
    }
    let mut j: usize = 0;
    while j < rest_len
        invariant
            j <= rest_len,
            rest_len == dat.len() - ct_end,
            raw_len <= rest_len,
            15 <= ct_end <= dat.len(),
            out@ == dec_head@ + dat@.skip(ct_end as int).take(if j < raw_len { j as int } else { raw_len as int })
                + dat@.skip(ct_end as int).skip(raw_len as int).take(if j < raw_len { 0 } else { j - raw_len }).map_values(|b: u8| b ^ xor_byte),
        decreases rest_len - j,
    {
        let b = dat[ct_end + j];
        let ghost before = out@;
        if j < raw_len {
            out.push(b);
            assert(dat@.skip(ct_end as int).take(j + 1) =~= dat@.skip(ct_end as int).take(j as int).push(b));
            assert(dat@.skip(ct_end as int).skip(raw_len as int).take(0).map_values(|b: u8| b ^ xor_byte) =~= Seq::<u8>::empty());
            assert(out@ =~= dec_head@ + dat@.skip(ct_end as int).take(if j + 1 < raw_len { (j + 1) as int } else { raw_len as int })
                + dat@.skip(ct_end as int).skip(raw_len as int).take(if j + 1 < raw_len { 0 } else { j + 1 - raw_len }).map_values(|b: u8| b ^ xor_byte));
        } else {
            out.push(b ^ xor_byte);
            assert(dat@.skip(ct_end as int).skip(raw_len as int).take(j + 1 - raw_len) =~= dat@.skip(ct_end as int).skip(raw_len as int).take(j - raw_len).push(b));
            assert(out@ =~= dec_head@ + dat@.skip(ct_end as int).take(raw_len as int)
                + dat@.skip(ct_end as int).skip(raw_len as int).take(j + 1 - raw_len).map_values(|b: u8| b ^ xor_byte));
        }
        j += 1;
    }
    assert(dat@.skip(ct_end as int).skip(raw_len as int).take(rest_len - raw_len) =~= dat@.skip(ct_end as int).skip(raw_len as int));
    assert(out@ =~= assembled_spec(dat@, dec_head@, ct_end as int, xor_byte));
    out
}

/// What a decrypted `.dat` image is made of: the decrypted head, then the
/// bytes after the ciphertext, all kept as they are except the last N, which
/// are XORed with the key; N is the little-endian `u32` at bytes 10..14 of
/// the header (all of the rest when it is shorter than N).
#[verifier::rlimit(30)]
pub proof fn lemma_decrypted_image_layout(dat: Seq<u8>, head: Seq<u8>, ct_end: int, xor_byte: u8)
    requires
        15 <= ct_end <= dat.len(),
    ensures
        ({
            let r = assembled_spec(dat, head, ct_end, xor_byte);
            let n = dat[10] as int + 256 * dat[11] as int + 65536 * dat[12] as int + 16777216
                * dat[13] as int;
            let rest = dat.len() - ct_end;
            let plain = if rest >= n { rest - n } else { 0 };
            &&& r.len() == head.len() + rest
            &&& forall|i: int| 0 <= i < head.len() ==> #[trigger] r[i] == head[i]
            &&& forall|i: int|
                head.len() <= i < head.len() + plain ==> #[trigger] r[i] == dat[ct_end + i
                    - head.len()]
            &&& forall|i: int|
                head.len() + plain <= i < head.len() + rest ==> #[trigger] r[i] == dat[ct_end + i
                    - head.len()] ^ xor_byte
        }),
{
    let r = assembled_spec(dat, head, ct_end, xor_byte);
    let rest = dat.skip(ct_end);
    let n = dat[10] as int + 256 * dat[11] as int + 65536 * dat[12] as int + 16777216
        * dat[13] as int;
    assert(le_u32(dat, 10) == n);
    let plain = if rest.len() >= n { rest.len() - n } else { 0 };
    assert(r == head + rest.take(plain) + rest.skip(plain).map_values(|b: u8| b ^ xor_byte));
    assert forall|i: int|
        head.len() <= i < head.len() + plain implies #[trigger] r[i] == dat[ct_end + i
            - head.len()] by {
        assert(rest.take(plain)[i - head.len()] == rest[i - head.len()]);
    }
    assert forall|i: int|
        head.len() + plain <= i < head.len() + rest.len() implies #[trigger] r[i] == dat[ct_end
            + i - head.len()] ^ xor_byte by {
        assert(rest.skip(plain)[i - head.len() - plain] == rest[i - head.len()]);
    }
}

/// An image format and its file extension, by the data's signature.
pub open spec fn format_spec(d: Seq<u8>) -> (Seq<char>, Seq<char>) {
    if jpeg_head(d) {
        ("jpeg"@, "jpg"@)
    } else if png_head(d) {
        ("png"@, "png"@)
    } else if gif_head(d) {
        ("gif"@, "gif"@)
    } else if d.len() >= 12 && d[0] == 0x52 && d[1] == 0x49 && d[2] == 0x46 && d[3] == 0x46 && d[8]
        == 0x57 && d[9] == 0x45 && d[10] == 0x42 && d[11] == 0x50 {
        ("webp"@, "webp"@)
    } else if d.len() >= 4 && d[0] == 0x77 && d[1] == 0x78 && d[2] == 0x67 && d[3] == 0x66 {
        ("wxgf"@, "wxgf"@)
    } else {
        ("unknown"@, "bin"@)
    }
}

/// Detect an image's format from its first bytes.
pub fn detect_image_format(data: &[u8]) -> (r: (&'static str, &'static str))
    ensures
        (r.0@, r.1@) == format_spec(data@),
{
    let n = data.len();
    if n >= 2 && data[0] == 0xff && data[1] == 0xd8 {
        return ("jpeg", "jpg");
    }
    if n >= 4 && data[0] == 0x89 && data[1] == 0x50 && data[2] == 0x4e && data[3] == 0x47 {
        return ("png", "png");
    }
    if n >= 4 && data[0] == 0x47 && data[1] == 0x49 && data[2] == 0x46 && data[3] == 0x38 {
        return ("gif", "gif");
    }
    if n >= 12 && data[0] == 0x52 && data[1] == 0x49 && data[2] == 0x46 && data[3] == 0x46 && data[8]
        == 0x57 && data[9] == 0x45 && data[10] == 0x42 && data[11] == 0x50 {
        return ("webp", "webp");
    }
    if n >= 4 && data[0] == 0x77 && data[1] == 0x78 && data[2] == 0x67 && data[3] == 0x66 {
        return ("wxgf", "wxgf");
    }
    ("unknown", "bin")
}

} // verus!

verus! {

// ============================================
// Message files
// ============================================

pub open spec fn is_lower_hex_byte(b: u8) -> bool {
    (0x30 <= b <= 0x39) || (0x61 <= b <= 0x66)
}

/// The first run of 32 lower-case hex digits in the bytes, from `i` on.
pub open spec fn hash_window(b: Seq<u8>, i: int) -> Option<int>
    decreases b.len() - i,
{
    if i < 0 || i + 32 > b.len() {
        None
    } else if forall|j: int| i <= j < i + 32 ==> is_lower_hex_byte(#[trigger] b[j]) {
        Some(i)
    } else {
        hash_window(b, i + 1)
    }
}

pub open spec fn chars_of_bytes(b: Seq<u8>) -> Seq<char> {
    b.map_values(|x: u8| x as char)
}

/// The file hash in a `MessageResourceInfo.packed_info` blob given as hex:
/// the first 32 lower-case hex digits in a row.
pub open spec fn packed_hash_spec(hex: Seq<u8>) -> Option<Seq<char>> {
    match crate::hex::hex_decode_spec(hex) {
        None => None,
        Some(b) => match hash_window(b, 0) {
            Some(i) => Some(chars_of_bytes(b.subrange(i, i + 32))),
            None => None,
        },
    }
}

/// Extract the 32-digit hex file hash from a hex-encoded `packed_info` blob.
pub fn extract_file_hash_from_packed_info(hex_info: &str) -> (r: Option<String>)
    requires
        !crate::hex::hex_decode_panics(hex_info.spec_bytes()),
    ensures
        crate::types::opt_str_view(r) == packed_hash_spec(hex_info.spec_bytes()),
{
    let bytes = match crate::hex::hex_decode(hex_info) {
        Some(b) => b,
        None => return None,
    };
    if bytes.len() < 32 {
        return None;
    }
    let mut i: usize = 0;
    while i <= bytes.len() - 32
        invariant
            bytes.len() >= 32,
            i <= bytes.len() - 31,
            crate::hex::hex_decode_spec(hex_info.spec_bytes()) == Some(bytes@),
            hash_window(bytes@, 0) == hash_window(bytes@, i as int),
        decreases bytes.len() - 31 - i,
    {
        let mut k: usize = 0;
        let mut ok = true;
        while k < 32
            invariant
                k <= 32,
                i + 32 <= bytes.len(),
                ok == forall|j: int| i <= j < i + k ==> is_lower_hex_byte(#[trigger] bytes@[j]),
            decreases 32 - k,
        {
            let b = bytes[i + k];
            if !((0x30 <= b && b <= 0x39) || (0x61 <= b && b <= 0x66)) {
                ok = false;
            }
            k += 1;
        }
        if ok {
            let mut s = String::new();
            let mut m: usize = 0;
            while m < 32
                invariant
                    m <= 32,
                    i + 32 <= bytes.len(),
                    s@ == chars_of_bytes(bytes@.subrange(i as int, i + m)),
                decreases 32 - m,
            {
                s.push(bytes[i + m] as char);
                m += 1;
                assert(chars_of_bytes(bytes@.subrange(i as int, i + m)) =~= chars_of_bytes(bytes@.subrange(i as int, i + m - 1)).push(bytes@[i + m - 1] as char));
            }
            return Some(s);
        }
        i += 1;
    }
    None
}

/// Case-insensitive equality of ASCII text.
pub open spec fn eq_ignore_case(a: Seq<char>, b: Seq<char>) -> bool {
    a.len() == b.len() && forall|i: int| 0 <= i < a.len() ==> lower_char(#[trigger] a[i]) == lower_char(b[i])
}

pub open spec fn lower_char(c: char) -> char {
    if 'A' <= c && c <= 'Z' {
        ((c as u32) + 32) as char
    } else {
        c
    }
}

pub open spec fn is_hex_char(c: char) -> bool {
    ('0' <= c && c <= '9') || ('a' <= c && c <= 'f') || ('A' <= c && c <= 'F')
}

/// Data matches a message's stated size and MD5 (32 hex digits, any case).
pub open spec fn matches_spec(data: Seq<u8>, size: Option<Seq<char>>, md5: Option<Seq<char>>) -> bool {
    match size {
        None => false,
        Some(s) => match crate::text::parse_int_spec(s, 0, 0xffff_ffff_ffff_ffff) {
            None => false,
            Some(n) => data.len() == n && match md5 {
                None => false,
                Some(m) => m.len() == 32 && (forall|i: int| 0 <= i < m.len() ==> is_hex_char(#[trigger] m[i]))
                    && eq_ignore_case(crate::hex::hex_encode_spec(crate::codec::md5_of(data)), m),
            },
        },
    }
}

fn eq_ignore_case_exec(a: &[char], b: &[char]) -> (r: bool)
    ensures
        r == eq_ignore_case(a@, b@),
{
    if a.len() != b.len() {
        return false;
    }
    let mut i: usize = 0;
    while i < a.len()
        invariant
            i <= a.len(),
            a.len() == b.len(),
            forall|j: int| 0 <= j < i ==> lower_char(#[trigger] a@[j]) == lower_char(b@[j]),
        decreases a.len() - i,
    {
        let x = a[i];
        let y = b[i];
        let lx = if 'A' <= x && x <= 'Z' { ((x as u32) + 32) as u8 as char } else { x };
        let ly = if 'A' <= y && y <= 'Z' { ((y as u32) + 32) as u8 as char } else { y };
        assert(lx == lower_char(x));
        assert(ly == lower_char(y));
        if lx != ly {
            return false;
        }
        i += 1;
    }
    true
}

fn all_hex(c: &[char]) -> (r: bool)
    ensures
        r == forall|i: int| 0 <= i < c@.len() ==> is_hex_char(#[trigger] c@[i]),
{
    let mut i: usize = 0;
    while i < c.len()
        invariant
            i <= c.len(),
            forall|j: int| 0 <= j < i ==> is_hex_char(#[trigger] c@[j]),
        decreases c.len() - i,
    {
        let x = c[i];
        if !(('0' <= x && x <= '9') || ('a' <= x && x <= 'f') || ('A' <= x && x <= 'F')) {
            assert(!is_hex_char(c@[i as int]));
            return false;
        }
        i += 1;
    }
    true
}

fn matches_exec(data: &[u8], size: Option<String>, md5: Option<String>) -> (r: bool)
    ensures
        r == matches_spec(data@, crate::types::opt_str_view(size), crate::types::opt_str_view(md5)),
{
    let s = match size {
        Some(s) => s,
        None => return false,
    };
    let sc = chars_of(s.as_str());
    let n = match crate::text::parse_int(sc.as_slice(), 0, 0xffff_ffff_ffff_ffff) {
        Some(n) => n,
        None => return false,
    };
    if data.len() as i128 != n {
        return false;
    }
    let m = match md5 {
        Some(m) => m,
        None => return false,
    };
    let mc = chars_of(m.as_str());
    if mc.len() != 32 || !all_hex(mc.as_slice()) {
        return false;
    }
    let digest = crate::codec::md5_digest(data);
    let h = crate::hex::hex_encode(digest.as_slice());
    let hc = chars_of(h.as_str());
    eq_ignore_case_exec(hc.as_slice(), mc.as_slice())
}

/// A file is the message's attachment: its size and MD5 match `<totallen>`
/// and `<md5>`.
pub fn file_matches_message(data: &[u8], content: &str) -> (r: bool)
    ensures
        r == matches_spec(data@, xml_tag_spec(content@, "totallen"@), xml_tag_spec(content@, "md5"@)),
{
    let size = crate::messages::extract_xml_tag(content, "totallen");
    let md5 = crate::messages::extract_xml_tag(content, "md5");
    matches_exec(data, size, md5)
}

/// A video is the message's video: its size and MD5 match the `length` and
/// `md5` attributes (not `rawlength`/`rawmd5`).
pub fn video_matches_message(data: &[u8], content: &str) -> (r: bool)
    ensures
        r == matches_spec(data@, video_attr_spec(content@, "length"@), video_attr_spec(content@, "md5"@)),
{
    let size = video_attr(content, "length");
    let md5 = video_attr(content, "md5");
    matches_exec(data, size, md5)
}

/// The size a video message states in its `length` attribute, when that is
/// a number that fits 64 bits.
pub open spec fn video_size_spec(content: Seq<char>) -> Option<int> {
    match video_attr_spec(content, "length"@) {
        Some(s) => crate::text::parse_int_spec(s, 0, 0xffff_ffff_ffff_ffff),
        None => None,
    }
}

/// The stated size of a video, which a matching file must have.
pub fn video_size(content: &str) -> (r: Option<u64>)
    ensures
        match r {
            Some(n) => video_size_spec(content@) == Some(n as int),
            None => video_size_spec(content@) is None,
        },
{
    let s = match video_attr(content, "length") {
        Some(s) => s,
        None => return None,
    };
    let sc = chars_of(s.as_str());
    match crate::text::parse_int(sc.as_slice(), 0, 0xffff_ffff_ffff_ffff) {
        Some(n) => Some(n as u64),
        None => None,
    }
}

// ============================================
// Routing a media request
// ============================================

/// What kind of media a message type holds.
#[derive(Clone, Copy, Debug, PartialEq, Eq, Structural)]
pub enum MediaRoute {
    /// An app message of subtype 6: a file attachment.
    FileAttachment,
    Image,
    Video,
    Voice,
    /// An emoji: its address is in the message itself.
    Emoji,
    /// Anything else: a cached thumbnail if there is one.
    Other,
}

/// The route for a stored message type: its low 32 bits are the base type,
/// its high 32 bits the app-message subtype.
pub open spec fn route_spec(local_type: i64) -> MediaRoute {
    let base = (local_type & 0xFFFF_FFFFi64) as i32;
    let sub = (local_type >> 32u64) as i32;
    if base == 49 && sub == 6 {
        MediaRoute::FileAttachment
    } else if base == 3 {
        MediaRoute::Image
    } else if base == 43 {
        MediaRoute::Video
    } else if base == 34 {
        MediaRoute::Voice
    } else if base == 47 {
        MediaRoute::Emoji
    } else {
        MediaRoute::Other
    }
}

/// How a media request for a message of the given stored type is served.
pub fn media_route(local_type: i64) -> (r: MediaRoute)
    ensures
        r == route_spec(local_type),
{
    let base = (local_type & 0xFFFF_FFFF) as i32;
    let sub = (local_type >> 32u64) as i32;
    if base == 49 && sub == 6 {
        MediaRoute::FileAttachment
    } else if base == 3 {
        MediaRoute::Image
    } else if base == 43 {
        MediaRoute::Video
    } else if base == 34 {
        MediaRoute::Voice
    } else if base == 47 {
        MediaRoute::Emoji
    } else {
        MediaRoute::Other
    }
}

/// A stored body with a group sender prefix (shorter than 80 bytes) removed.
pub open spec fn strip_sender_spec(content: Seq<char>) -> Seq<char> {
    crate::messages::group_sender_spec(content).1
}

/// Remove the group sender prefix from a looked-up message body.
pub fn strip_sender(content: &str) -> (r: String)
    ensures
        r@ == strip_sender_spec(content@),
{
    crate::messages::extract_group_sender(content).1
}

/// An emoji's answer: the address from the emoticon database when it has
/// one, else the message's own `cdnurl` when it is a web address, else an
/// unknown emoji; named after the emoji's `md5`. Without an `md5` the emoji
/// is unsupported.
pub open spec fn emoji_spec(content: Seq<char>, db_url: Option<Seq<char>>) -> MediaSpec {
    match crate::messages::xml_attr_spec(content, "md5"@) {
        None => bare("unsupported"@),
        Some(md5) => {
            let name = "emoji_"@ + md5;
            let from_db = match db_url {
                Some(u) => u.len() > 0,
                None => false,
            };
            if from_db {
                MediaSpec {
                    media_type: "emoji"@,
                    data: None,
                    url: db_url,
                    format: "gif"@,
                    filename: name + ".gif"@,
                    quality: None,
                }
            } else if crate::messages::xml_attr_spec(content, "cdnurl"@) matches Some(u)
                && starts_with_spec(u, "http"@) {
                MediaSpec {
                    media_type: "emoji"@,
                    data: None,
                    url: crate::messages::xml_attr_spec(content, "cdnurl"@),
                    format: "gif"@,
                    filename: name + ".gif"@,
                    quality: None,
                }
            } else {
                MediaSpec {
                    media_type: "emoji"@,
                    data: None,
                    url: None,
                    format: "unknown"@,
                    filename: name,
                    quality: None,
                }
            }
        },
    }
}

fn concat(a: &str, b: &[char], c: &str) -> (r: String)
    ensures
        r@ == a@ + b@ + c@,
{
    let mut v = chars_of(a);
    crate::text::append_chars(&mut v, b);
    let cc = chars_of(c);
    crate::text::append_chars(&mut v, cc.as_slice());
    crate::text::string_of(v.as_slice())
}

/// The emoji answer for a message, given the emoticon database's address for
/// its `md5` (none when there is no such row or key).
pub fn get_emoji_media(content: &str, db_url: Option<String>) -> (r: MediaResult)
    ensures
        media_view(r) == emoji_spec(content@, crate::types::opt_str_view(db_url)),
{
    proof {
        reveal_strlit("");
    }
    let md5 = match crate::messages::extract_xml_attr(content, "md5") {
        Some(m) => m,
        None => return unsupported(),
    };
    let mc = chars_of(md5.as_str());
    let from_db = match &db_url {
        Some(u) => !u.as_str().is_empty(),
        None => false,
    };
    if from_db {
        return MediaResult {
            media_type: "emoji".to_owned(),
            data: None,
            url: db_url,
            format: "gif".to_owned(),
            filename: concat("emoji_", mc.as_slice(), ".gif"),
            quality: None,
        };
    }
    if let Some(u) = crate::messages::extract_xml_attr(content, "cdnurl") {
        let uc = chars_of(u.as_str());
        let http = chars_of("http");
        if crate::text::starts_with(uc.as_slice(), http.as_slice()) {
            return MediaResult {
                media_type: "emoji".to_owned(),
                data: None,
                url: Some(u),
                format: "gif".to_owned(),
                filename: concat("emoji_", mc.as_slice(), ".gif"),
                quality: None,
            };
        }
    }
    MediaResult {
        media_type: "emoji".to_owned(),
        data: None,
        url: None,
        format: "unknown".to_owned(),
        filename: concat("emoji_", mc.as_slice(), ""),
        quality: None,
    }
}

/// The name and extension of a message's file attachment: `<title>` (else
/// `file_<id>`) and `<fileext>` (else empty); none when the title is not a
/// safe single file name.
pub open spec fn attachment_spec(content: Seq<char>, local_id: i64) -> Option<(Seq<char>, Seq<char>)> {
    let name = match xml_tag_spec(content, "title"@) {
        Some(t) => t,
        None => "file_"@ + crate::text::signed_decimal(local_id as int),
    };
    let ext = match xml_tag_spec(content, "fileext"@) {
        Some(e) => e,
        None => Seq::empty(),
    };
    if safe_name_spec(name) {
        Some((name, ext))
    } else {
        None
    }
}

/// The file name and extension to look for an attachment under.
pub fn attachment_name(content: &str, local_id: i64) -> (r: Option<(String, String)>)
    ensures
        match r {
            Some(p) => attachment_spec(content@, local_id) == Some((p.0@, p.1@)),
            None => attachment_spec(content@, local_id) is None,
        },
{
    let name = match crate::messages::extract_xml_tag(content, "title") {
        Some(t) => t,
        None => {
            let mut s = "file_".to_owned();
            crate::text::push_signed_decimal(local_id, &mut s);
            s
        },
    };
    let ext = match crate::messages::extract_xml_tag(content, "fileext") {
        Some(e) => e,
        None => String::new(),
    };
    if !safe_attachment_name(name.as_str()) {
        return None;
    }
    Some((name, ext))
}

/// A voice database: `media_*.db`.
pub open spec fn is_media_db(name: Seq<char>) -> bool {
    starts_with_spec(name, "media_"@) && ends_with_spec(name, ".db"@)
}

// ============================================
// Converter output
// ============================================

/// A line of text as `str::lines` yields it: a `\r` before the line break
/// is dropped; the last line, which has no break after it, is kept whole.
pub open spec fn line_at(parts: Seq<Seq<char>>, k: int) -> Seq<char> {
    let l = parts[k];
    if k + 1 < parts.len() && l.len() > 0 && l.last() == '\r' {
        l.drop_last()
    } else {
        l
    }
}

/// The text after `FORMAT:` on the first line (from `k` on) that starts with it.
pub open spec fn format_from(parts: Seq<Seq<char>>, k: int) -> Option<Seq<char>>
    decreases parts.len() - k,
{
    if k < 0 || k >= parts.len() {
        None
    } else if starts_with_spec(line_at(parts, k), "FORMAT:"@) {
        Some(line_at(parts, k).skip(7))
    } else {
        format_from(parts, k + 1)
    }
}

/// The format the media converter reported on its error output, else the
/// default of its mode: `mp3` for `silk2mp3`, `jpeg` otherwise.
pub open spec fn converted_format_spec(mode: Seq<char>, stderr: Seq<char>) -> Seq<char> {
    match format_from(crate::text::split_spec(stderr, '\n'), 0) {
        Some(f) => f,
        None => if mode == "silk2mp3"@ {
            "mp3"@
        } else {
            "jpeg"@
        },
    }
}

/// The format of converted media, read from the converter's error output.
pub fn converted_format(mode: &str, stderr: &str) -> (r: String)
    ensures
        r@ == converted_format_spec(mode@, stderr@),
{
    let cs = chars_of(stderr);
    let parts = crate::text::split_char(cs.as_slice(), '\n');
    let ghost pv = crate::text::vecs_view(parts@);
    let prefix = chars_of("FORMAT:");
    proof {
        reveal_strlit("FORMAT:");
    }
    let mut k: usize = 0;
    while k < parts.len()
        invariant
            k <= parts.len(),
            pv == crate::text::vecs_view(parts@),
            pv == crate::text::split_spec(stderr@, '\n'),
            prefix@ == "FORMAT:"@,
            prefix@.len() == 7,
            format_from(pv, 0) == format_from(pv, k as int),
        decreases parts.len() - k,
    {
        let part = &parts[k];
        let n = part.len();
        let line: &[char] = if k + 1 < parts.len() && n > 0 && part[n - 1] == '\r' {
            vstd::slice::slice_subrange(part.as_slice(), 0, n - 1)
        } else {
            part.as_slice()
        };
        assert(line@ == line_at(pv, k as int));
        if crate::text::starts_with(line, prefix.as_slice()) {
            let rest = crate::text::slice_chars(line, 7, line.len());
            assert(rest@ == line_at(pv, k as int).skip(7));
            return crate::text::string_of(rest.as_slice());
        }
        k += 1;
    }
    if str_eq(mode, "silk2mp3") {
        proof {
            reveal_strlit("silk2mp3");
        }
        "mp3".to_string()
    } else {
        proof {
            reveal_strlit("silk2mp3");
        }
        "jpeg".to_string()
    }
}

// ============================================
// Answers with data
// ============================================

/// An answer carrying data as base64, with its format and file name.
pub open spec fn data_answer(kind: Seq<char>, data: Seq<u8>, format: Seq<char>, filename: Seq<char>) -> MediaSpec {
    MediaSpec {
        media_type: kind,
        data: Some(crate::codec::base64_of(data)),
        url: None,
        format,
        filename,
        quality: None,
    }
}

fn data_answer_exec(kind: &str, data: &[u8], format: String, filename: String) -> (m: MediaResult)
    ensures
        media_view(m) == data_answer(kind@, data@, format@, filename@),
{
    MediaResult {
        media_type: kind.to_owned(),
        data: Some(crate::codec::base64_encode(data)),
        url: None,
        format,
        filename,
        quality: None,
    }
}

fn dotted(ext: &str) -> (r: String)
    ensures
        r@ == "."@ + ext@,
{
    let mut s = ".".to_owned();
    proof {
        reveal_strlit(".");
    }
    crate::router::file_downloads::append_str(&mut s, ext);
    s
}

/// An image's answer, named `msg_<id>.<ext>`.
pub fn image_answer(local_id: i64, data: &[u8], format: &str, ext: &str) -> (m: MediaResult)
    ensures
        media_view(m) == data_answer("image"@, data@, format@, msg_file(local_id, "."@ + ext@)),
{
    let e = dotted(ext);
    data_answer_exec("image", data, format.to_owned(), msg_file_exec(local_id, e.as_str()))
}

/// The extension of a converted image: `jpg` for JPEG, else the format itself.
pub open spec fn converted_ext_spec(format: Seq<char>) -> Seq<char> {
    if format == "jpeg"@ {
        "jpg"@
    } else {
        format
    }
}

/// The answer for an image the converter produced in the format it reported.
pub fn converted_image_answer(local_id: i64, data: &[u8], format: &str) -> (m: MediaResult)
    ensures
        media_view(m) == data_answer("image"@, data@, format@, msg_file(local_id, "."@ + converted_ext_spec(format@))),
{
    let ext: &str = if str_eq(format, "jpeg") {
        "jpg"
    } else {
        format
    };
    proof {
        reveal_strlit("jpg");
    }
    image_answer(local_id, data, format, ext)
}

/// Which file of a video is served.
#[derive(Clone, Copy, Debug, PartialEq, Eq, Structural)]
pub enum VideoPart {
    /// The movie itself.
    Movie,
    /// Its full-size cover picture.
    Cover,
    /// Its small cover picture.
    Thumb,
}

/// The format and the file-name ending of a video part.
pub open spec fn video_part_spec(p: VideoPart) -> (Seq<char>, Seq<char>) {
    match p {
        VideoPart::Movie => ("mp4"@, ".mp4"@),
        VideoPart::Cover => ("jpeg"@, "_cover.jpg"@),
        VideoPart::Thumb => ("jpeg"@, "_thumb.jpg"@),
    }
}

/// A video's answer for one of its files.
pub fn video_answer(local_id: i64, data: &[u8], part: VideoPart) -> (m: MediaResult)
    ensures
        media_view(m) == data_answer(
            "video"@,
            data@,
            video_part_spec(part).0,
            msg_file(local_id, video_part_spec(part).1),
        ),
{
    let (format, ending): (&str, &str) = match part {
        VideoPart::Movie => ("mp4", ".mp4"),
        VideoPart::Cover => ("jpeg", "_cover.jpg"),
        VideoPart::Thumb => ("jpeg", "_thumb.jpg"),
    };
    data_answer_exec("video", data, format.to_owned(), msg_file_exec(local_id, ending))
}

/// An attachment's answer: its own name, its extension as the format.
pub fn file_answer(name: String, ext: String, data: &[u8]) -> (m: MediaResult)
    ensures
        media_view(m) == data_answer("file"@, data@, ext@, name@),
{
    data_answer_exec("file", data, ext, name)
}

/// A voice message's answer: MP3 when it was converted, else the raw SILK.
pub fn voice_answer(local_id: i64, data: &[u8], converted: bool) -> (m: MediaResult)
    ensures
        media_view(m) == data_answer(
            "voice"@,
            data@,
            if converted { "mp3"@ } else { "silk"@ },
            msg_file(local_id, if converted { ".mp3"@ } else { ".silk"@ }),
        ),
{
    if converted {
        data_answer_exec("voice", data, "mp3".to_owned(), msg_file_exec(local_id, ".mp3"))
    } else {
        data_answer_exec("voice", data, "silk".to_owned(), msg_file_exec(local_id, ".silk"))
    }
}

/// A found image answer marked with the variant that served it.
pub fn labelled(m: MediaResult, label: &str) -> (r: MediaResult)
    ensures
        media_view(r) == (MediaSpec { quality: Some(label@), ..media_view(m) }),
{
    MediaResult { quality: Some(label.to_owned()), ..m }
}

/// The query for a chat's id in a voice database.
pub open spec fn voice_chat_sql_spec(chat_id: Seq<char>) -> Seq<char> {
    "SELECT rowid FROM Name2Id WHERE user_name = '"@ + crate::contacts::sql_escape_spec(chat_id) + "';"@
}

/// The query that finds a chat's id in a voice database.
pub fn voice_chat_sql(chat_id: &str) -> (r: String)
    ensures
        r@ == voice_chat_sql_spec(chat_id@),
{
    let mut s = String::from_str("SELECT rowid FROM Name2Id WHERE user_name = '");
    let e = crate::contacts::sql_escape(chat_id);
    crate::router::file_downloads::append_str(&mut s, e.as_str());
    crate::router::file_downloads::append_str(&mut s, "';");
    s
}

/// The query for a voice message's audio as hex.
pub open spec fn voice_data_sql_spec(chat_name_id: i64, local_id: i64) -> Seq<char> {
    "SELECT hex(voice_data) as hex_data FROM VoiceInfo\n                 WHERE chat_name_id = "@
        + crate::text::signed_decimal(chat_name_id as int) + " AND local_id = "@
        + crate::text::signed_decimal(local_id as int) + "\n                 LIMIT 1;"@
}

/// The query that reads a voice message's audio.
pub fn voice_data_sql(chat_name_id: i64, local_id: i64) -> (r: String)
    ensures
        r@ == voice_data_sql_spec(chat_name_id, local_id),
{
    let mut s = String::from_str("SELECT hex(voice_data) as hex_data FROM VoiceInfo\n                 WHERE chat_name_id = ");
    crate::text::push_signed_decimal(chat_name_id, &mut s);
    crate::router::file_downloads::append_str(&mut s, " AND local_id = ");
    crate::text::push_signed_decimal(local_id, &mut s);
    crate::router::file_downloads::append_str(&mut s, "\n                 LIMIT 1;");
    s
}

// ============================================
// The best available copy
// ============================================

/// What a best-quality image request does next.
#[derive(Clone, Copy, Debug, PartialEq, Eq, Structural)]
pub enum BestStep {
    /// Read this copy next.
    Read(ImageQuality),
    /// Answer with the copy just read: the one at this place in `best_variants`.
    Answer(usize),
    /// No copy had data: the image is still pending.
    Pending,
}

/// The copy at a place in the order of `best_variants`.
pub open spec fn best_variant(i: int) -> ImageQuality {
    if i == 0 {
        ImageQuality::Full
    } else if i == 1 {
        ImageQuality::Standard
    } else {
        ImageQuality::Thumbnail
    }
}

/// After `tried` copies were read, the last of them with data (`found`) or
/// not: answer with it; else read the next copy; else the image is pending.
pub open spec fn best_step_spec(tried: int, found: bool) -> BestStep {
    if tried > 0 && found {
        BestStep::Answer((tried - 1) as usize)
    } else if tried < 3 {
        BestStep::Read(best_variant(tried))
    } else {
        BestStep::Pending
    }
}

/// The next step of a best-quality image request, given how many copies were
/// read and whether the last one read had data.
pub fn best_image_step(tried: usize, found: bool) -> (r: BestStep)
    requires
        tried <= 3,
    ensures
        r == best_step_spec(tried as int, found),
{
    if tried > 0 && found {
        BestStep::Answer(tried - 1)
    } else if tried == 0 {
        BestStep::Read(ImageQuality::Full)
    } else if tried == 1 {
        BestStep::Read(ImageQuality::Standard)
    } else if tried == 2 {
        BestStep::Read(ImageQuality::Thumbnail)
    } else {
        BestStep::Pending
    }
}

/// The request driven by `best_image_step` from `tried` on, where `has_data[i]`
/// says whether copy `i` had data: the place of the copy it answers with, or
/// none when it ends pending.
pub open spec fn best_run(has_data: Seq<bool>, tried: int) -> Option<int>
    decreases 4 - tried,
{
    if tried < 0 || tried > 3 {
        None
    } else {
        match best_step_spec(tried, tried > 0 && has_data[tried - 1]) {
            BestStep::Answer(i) => Some(i as int),
            BestStep::Read(_) => best_run(has_data, tried + 1),
            BestStep::Pending => None,
        }
    }
}

/// The first of the three copies that has data.
pub open spec fn first_with_data(has_data: Seq<bool>) -> Option<int> {
    if has_data[0] {
        Some(0)
    } else if has_data[1] {
        Some(1)
    } else if has_data[2] {
        Some(2)
    } else {
        None
    }
}

/// The best available copy wins: a best-quality request, reading the copies
/// in the order full, standard, thumbnail, answers with the first that has
/// data, and is pending only when none has.
pub proof fn lemma_best_copy_is_first_with_data(has_data: Seq<bool>)
    requires
        has_data.len() == 3,
    ensures
        best_run(has_data, 0) == first_with_data(has_data),
        best_variant(0) == ImageQuality::Full,
        best_variant(1) == ImageQuality::Standard,
        best_variant(2) == ImageQuality::Thumbnail,
{
    reveal_with_fuel(best_run, 5);
}

// ============================================
// Where copies are looked for
// ============================================

/// Where a copy of an image is looked for.
#[derive(Clone, Copy, Debug, PartialEq, Eq, Structural)]
pub enum ImageSource {
    /// The client's cached thumbnail of the message.
    CachedThumbnail,
    /// The `.dat` file the resource database names.
    ResourceDb,
    /// The `.dat` file the hardlink database names.
    Hardlink,
}

/// The places an image of a quality is looked for, in order: the cached
/// thumbnail first for legacy and thumbnail requests, then (only with image
/// keys to decrypt them) the `.dat` files the resource and hardlink databases
/// name. When none has it, the image is answered as missing.
pub open spec fn image_sources_spec(quality: ImageQuality, has_keys: bool) -> Seq<ImageSource> {
    (if quality == ImageQuality::Legacy || quality == ImageQuality::Thumbnail {
        seq![ImageSource::CachedThumbnail]
    } else {
        Seq::empty()
    }) + (if has_keys {
        seq![ImageSource::ResourceDb, ImageSource::Hardlink]
    } else {
        Seq::empty()
    })
}

/// The places to look for an image, in order.
pub fn image_sources(quality: ImageQuality, has_keys: bool) -> (r: Vec<ImageSource>)
    ensures
        r@ == image_sources_spec(quality, has_keys),
{
    let mut v: Vec<ImageSource> = Vec::new();
    if quality == ImageQuality::Legacy || quality == ImageQuality::Thumbnail {
        v.push(ImageSource::CachedThumbnail);
    }
    if has_keys {
        v.push(ImageSource::ResourceDb);
        v.push(ImageSource::Hardlink);
    }
    assert(v@ =~= image_sources_spec(quality, has_keys));
    v
}

/// The files of a video looked for under each account location, in order:
/// the movie unless a thumbnail is asked for; then, unless full quality is
/// asked for and when the resource database gave the file hash, the cover and
/// the small cover.
pub open spec fn video_parts_spec(quality: ImageQuality, has_hash: bool) -> Seq<VideoPart> {
    (if quality != ImageQuality::Thumbnail {
        seq![VideoPart::Movie]
    } else {
        Seq::empty()
    }) + (if quality != ImageQuality::Full && has_hash {
        seq![VideoPart::Cover, VideoPart::Thumb]
    } else {
        Seq::empty()
    })
}

/// The files of a video to look for under each location, in order.
pub fn video_parts(quality: ImageQuality, has_hash: bool) -> (r: Vec<VideoPart>)
    ensures
        r@ == video_parts_spec(quality, has_hash),
{
    let mut v: Vec<VideoPart> = Vec::new();
    if quality != ImageQuality::Thumbnail {
        v.push(VideoPart::Movie);
    }
    if quality != ImageQuality::Full && has_hash {
        v.push(VideoPart::Cover);
        v.push(VideoPart::Thumb);
    }
    assert(v@ =~= video_parts_spec(quality, has_hash));
    v
}

/// After every location was searched, a video request falls back to the
/// message's cached thumbnail unless full quality is asked for.
pub fn video_thumbnail_fallback(quality: ImageQuality) -> (r: bool)
    ensures
        r == (quality != ImageQuality::Full),
{
    quality != ImageQuality::Full
}

/// The file-name ending of a video part in the video directory.
pub open spec fn video_suffix_spec(part: VideoPart) -> Seq<char> {
    match part {
        VideoPart::Movie => ".mp4"@,
        VideoPart::Cover => ".jpg"@,
        VideoPart::Thumb => "_thumb.jpg"@,
    }
}

/// The ending of a video part's file name after the file hash.
pub fn video_suffix(part: VideoPart) -> (r: &'static str)
    ensures
        r@ == video_suffix_spec(part),
{
    match part {
        VideoPart::Movie => ".mp4",
        VideoPart::Cover => ".jpg",
        VideoPart::Thumb => "_thumb.jpg",
    }
}

/// A sibling `.dat` thumbnail (`*_t.dat`): where the XOR key of an image is
/// derived from when the image's own head does not give it.
pub open spec fn thumb_dat_spec(name: Seq<char>) -> bool {
    ends_with_spec(name, "_t.dat"@)
}

/// Whether a file next to an image is a `.dat` thumbnail.
pub fn is_thumb_dat(name: &str) -> (r: bool)
    ensures
        r == thumb_dat_spec(name@),
{
    crate::text::ends_with(chars_of(name).as_slice(), chars_of("_t.dat").as_slice())
}

} // verus!
