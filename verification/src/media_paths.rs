//! Where an image's `.dat` file may lie on disk: the names recorded in the
//! hardlink and resource databases, the queries that read them, and the
//! candidate paths tried in order.
use vstd::prelude::*;
use crate::plans::strings_view;
use vstd::string::StringSliceAdditionalSpecFns;
use crate::media::{image_suffixes, is_hex_char, suffixes_spec, ImageQuality};
use crate::text::{chars_of, ends_with, ends_with_spec, signed_decimal};
use crate::wechat_db::{base_path, join_path, join_path_exec};

verus! {

/// The stem of a hardlinked image file: the name without `.dat` and without a
/// `_h` or `_t` variant suffix, when it is 32 hex digits.
pub open spec fn hardlink_stem_spec(file_name: Seq<char>) -> Option<Seq<char>> {
    if !ends_with_spec(file_name, ".dat"@) {
        None
    } else {
        let stem = stem_part(file_name);
        if stem.len() == 32 && crate::keys::all_hex(stem) {
            Some(stem)
        } else {
            None
        }
    }
}

/// The name without `.dat` and without a `_h` or `_t` suffix.
pub open spec fn stem_part(file_name: Seq<char>) -> Seq<char> {
    let s = file_name.take(file_name.len() - 4);
    if ends_with_spec(s, "_h"@) || ends_with_spec(s, "_t"@) {
        s.take(s.len() - 2)
    } else {
        s
    }
}

/// The image stem a hardlink row names, if it has the expected form.
pub fn hardlink_stem(file_name: &str) -> (r: Option<String>)
    ensures
        crate::types::opt_str_view(r) == hardlink_stem_spec(file_name@),
{
    let f = chars_of(file_name);
    proof {
        reveal_strlit(".dat");
        reveal_strlit("_h");
        reveal_strlit("_t");
    }
    if !ends_with(f.as_slice(), chars_of(".dat").as_slice()) {
        return None;
    }
    let s = crate::text::slice_chars(f.as_slice(), 0, f.len() - 4);
    assert(s@ == f@.take(f@.len() - 4));
    let stem = if ends_with(s.as_slice(), chars_of("_h").as_slice()) || ends_with(
        s.as_slice(),
        chars_of("_t").as_slice(),
    ) {
        crate::text::slice_chars(s.as_slice(), 0, s.len() - 2)
    } else {
        s
    };
    assert(stem@ == stem_part(f@));
    if stem.len() != 32 {
        return None;
    }
    let mut i: usize = 0;
    while i < stem.len()
        invariant
            i <= stem.len(),
            stem@ == stem_part(file_name@),
            ends_with_spec(file_name@, ".dat"@),
            forall|j: int| 0 <= j < i ==> is_hex_char(#[trigger] stem@[j]),
        decreases stem.len() - i,
    {
        let x = stem[i];
        if !(('0' <= x && x <= '9') || ('a' <= x && x <= 'f') || ('A' <= x && x <= 'F')) {
            assert(!crate::keys::all_hex(stem@));
            return None;
        }
        i += 1;
    }
    Some(crate::text::string_of(stem.as_slice()))
}

/// The hardlink query for an image digest.
pub open spec fn hardlink_sql_spec(md5: Seq<char>) -> Seq<char> {
    "SELECT file_name, dir1, dir2 FROM image_hardlink_info_v4\n             WHERE md5 = '"@ + md5
        + "' LIMIT 2;"@
}

pub fn hardlink_sql(md5: &str) -> (r: String)
    ensures
        r@ == hardlink_sql_spec(md5@),
{
    let mut s = String::from_str(
        "SELECT file_name, dir1, dir2 FROM image_hardlink_info_v4\n             WHERE md5 = '",
    );
    crate::router::file_downloads::append_str(&mut s, md5);
    crate::router::file_downloads::append_str(&mut s, "' LIMIT 2;");
    s
}

/// The query for the two directory names of a hardlink row.
pub open spec fn dir_names_sql_spec(dir1: i64, dir2: i64) -> Seq<char> {
    "SELECT rowid, username FROM dir2id WHERE rowid IN ("@ + signed_decimal(dir1 as int) + ", "@
        + signed_decimal(dir2 as int) + ");"@
}

pub fn dir_names_sql(dir1: i64, dir2: i64) -> (r: String)
    ensures
        r@ == dir_names_sql_spec(dir1, dir2),
{
    let mut s = String::from_str("SELECT rowid, username FROM dir2id WHERE rowid IN (");
    crate::text::push_signed_decimal(dir1, &mut s);
    crate::router::file_downloads::append_str(&mut s, ", ");
    crate::text::push_signed_decimal(dir2, &mut s);
    crate::router::file_downloads::append_str(&mut s, ");");
    s
}

/// The path of an image file: `<base>/msg/attach/<dir>/<sub>/Img/<name>`,
/// each part joined as `Path::join` does.
pub open spec fn image_path_spec(base: Seq<char>, dir: Seq<char>, sub: Seq<char>, name: Seq<char>) -> Seq<char> {
    join_all(base, seq!["msg/attach"@, dir, sub, "Img"@, name])
}

/// Parts joined onto a path in order.
pub open spec fn join_all(p: Seq<char>, parts: Seq<Seq<char>>) -> Seq<char>
    decreases parts.len(),
{
    if parts.len() == 0 {
        p
    } else {
        join_path(join_all(p, parts.drop_last()), parts.last())
    }
}

/// The candidates for an image, in the order tried: each account location,
/// and within it each suffix the quality allows.
pub open spec fn candidates_spec(
    account_dir: Seq<char>,
    dir: Seq<char>,
    sub: Seq<char>,
    stem: Seq<char>,
    q: ImageQuality,
) -> Seq<Seq<char>> {
    let sfx = suffixes_spec(q);
    let one = |second: bool| sfx.map_values(|x: Seq<char>| image_path_spec(base_path(account_dir, second), dir, sub, stem + x + ".dat"@));
    one(false) + one(true)
}

fn image_path(base: &[char], dir: &str, sub: &str, name: &[char]) -> (r: String)
    ensures
        r@ == image_path_spec(base@, dir@, sub@, name@),
{
    let mut parts: Vec<Vec<char>> = Vec::new();
    parts.push(chars_of("msg/attach"));
    parts.push(chars_of(dir));
    parts.push(chars_of(sub));
    parts.push(chars_of("Img"));
    parts.push(crate::text::slice_chars(name, 0, name.len()));
    assert(name@.subrange(0, name@.len() as int) =~= name@);
    let ghost pv = seq!["msg/attach"@, dir@, sub@, "Img"@, name@];
    assert(crate::text::vecs_view(parts@) =~= pv);
    let mut p = crate::text::slice_chars(base, 0, base.len());
    assert(base@.subrange(0, base@.len() as int) =~= base@);
    let mut i: usize = 0;
    while i < parts.len()
        invariant
            i <= parts.len(),
            crate::text::vecs_view(parts@) == pv,
            p@ == join_all(base@, pv.take(i as int)),
        decreases parts.len() - i,
    {
        assert(pv.take(i + 1).drop_last() == pv.take(i as int));
        assert(pv.take(i + 1).last() == parts@[i as int]@);
        p = join_path_exec(p, parts[i].as_slice());
        i += 1;
    }
    assert(pv.take(5) == pv);
    crate::text::string_of(p.as_slice())
}

/// The candidate paths of an image's `.dat` file, in the order they are tried.
pub fn image_candidates(account_dir: &str, dir: &str, sub: &str, stem: &str, quality: ImageQuality) -> (r:
    Vec<String>)
    ensures
        strings_view(r@) == candidates_spec(account_dir@, dir@, sub@, stem@, quality),
{
    let bases = crate::media::account_base_paths(account_dir);
    let sfx = image_suffixes(quality);
    let ghost sv = sfx@.map_values(|s: &str| s@);
    let mut out: Vec<String> = Vec::new();
    let mut round: usize = 0;
    while round < 2
        invariant
            round <= 2,
            sv == suffixes_spec(quality),
            sfx@.map_values(|s: &str| s@) == sv,
            bases.0@ == base_path(account_dir@, false),
            bases.1@ == base_path(account_dir@, true),
            strings_view(out@) == (if round == 0 {
                Seq::empty()
            } else if round == 1 {
                sv.map_values(|x: Seq<char>| image_path_spec(base_path(account_dir@, false), dir@, sub@, stem@ + x + ".dat"@))
            } else {
                sv.map_values(|x: Seq<char>| image_path_spec(base_path(account_dir@, false), dir@, sub@, stem@ + x + ".dat"@))
                    + sv.map_values(|x: Seq<char>| image_path_spec(base_path(account_dir@, true), dir@, sub@, stem@ + x + ".dat"@))
            }),
        decreases 2 - round,
    {
        let base = if round == 0 {
            chars_of(bases.0.as_str())
        } else {
            chars_of(bases.1.as_str())
        };
        let ghost bv = base_path(account_dir@, round == 1);
        assert(base@ == bv);
        let ghost start = strings_view(out@);
        let mut k: usize = 0;
        while k < sfx.len()
            invariant
                k <= sfx.len(),
                sfx@.map_values(|s: &str| s@) == sv,
                base@ == bv,
                strings_view(out@) == start + sv.take(k as int).map_values(|x: Seq<char>| image_path_spec(bv, dir@, sub@, stem@ + x + ".dat"@)),
            decreases sfx.len() - k,
        {
            let mut name = chars_of(stem);
            crate::text::append_chars(&mut name, chars_of(sfx[k]).as_slice());
            crate::text::append_chars(&mut name, chars_of(".dat").as_slice());
            assert(sv[k as int] == sfx@[k as int]@);
            let p = image_path(base.as_slice(), dir, sub, name.as_slice());
            let ghost prev = strings_view(out@);
            out.push(p);
            assert(strings_view(out@) =~= prev.push(p@));
            assert(sv.take(k + 1).map_values(|x: Seq<char>| image_path_spec(bv, dir@, sub@, stem@ + x + ".dat"@))
                =~= sv.take(k as int).map_values(|x: Seq<char>| image_path_spec(bv, dir@, sub@, stem@ + x + ".dat"@)).push(
                image_path_spec(bv, dir@, sub@, stem@ + sv[k as int] + ".dat"@),
            ));
            k += 1;
        }
        assert(sv.take(sfx.len() as int) == sv);
        round += 1;
    }
    assert(strings_view(out@) =~= candidates_spec(account_dir@, dir@, sub@, stem@, quality));
    out
}

/// The query for a chat's id in the resource database.
pub open spec fn chat_id_sql_spec(chat_id: Seq<char>) -> Seq<char> {
    "SELECT rowid FROM ChatName2Id WHERE user_name = '"@ + crate::contacts::sql_escape_spec(chat_id)
        + "' LIMIT 1;"@
}

pub fn chat_id_sql(chat_id: &str) -> (r: String)
    ensures
        r@ == chat_id_sql_spec(chat_id@),
{
    let e = crate::contacts::sql_escape(chat_id);
    let mut s = String::from_str("SELECT rowid FROM ChatName2Id WHERE user_name = '");
    crate::router::file_downloads::append_str(&mut s, e.as_str());
    crate::router::file_downloads::append_str(&mut s, "' LIMIT 1;");
    s
}

/// The query for a message's packed resource information.
pub open spec fn packed_info_sql_spec(chat: i64, local_id: i64) -> Seq<char> {
    "SELECT hex(packed_info) as hex_info FROM MessageResourceInfo\n             WHERE chat_id = "@
        + signed_decimal(chat as int) + " AND message_local_id = "@ + signed_decimal(local_id as int)
        + "\n             LIMIT 1;"@
}

pub fn packed_info_sql(chat: i64, local_id: i64) -> (r: String)
    ensures
        r@ == packed_info_sql_spec(chat, local_id),
{
    let mut s = String::from_str(
        "SELECT hex(packed_info) as hex_info FROM MessageResourceInfo\n             WHERE chat_id = ",
    );
    crate::text::push_signed_decimal(chat, &mut s);
    crate::router::file_downloads::append_str(&mut s, " AND message_local_id = ");
    crate::text::push_signed_decimal(local_id, &mut s);
    crate::router::file_downloads::append_str(&mut s, "\n             LIMIT 1;");
    s
}

/// The year and month (`YYYY-MM`, UTC) chrono formats a Unix time as; none
/// when chrono cannot represent the time.
pub uninterp spec fn year_month_of(t: int) -> Option<Seq<char>>;

/// `chrono::DateTime::from_timestamp(t, 0)` formatted with `%Y-%m`; named, not stated.
#[verifier::external_body]
fn year_month(t: i64) -> (r: Option<String>)
    ensures
        crate::types::opt_str_view(r) == year_month_of(t as int),
{
    chrono::DateTime::from_timestamp(t, 0).map(|dt| dt.format("%Y-%m").to_string())
}

/// The directory a chat's images are filed under: the lower-case hex MD5 of its id.
pub open spec fn chat_dir_spec(chat_id: &str) -> Seq<char> {
    crate::hex::hex_encode_spec(crate::codec::md5_of(chat_id.spec_bytes()))
}

/// Where the resource database's file hash points: the chat's directory and
/// the month the message was sent, when the time can be represented.
pub fn resource_dirs(chat_id: &str, create_time: i64) -> (r: Option<(String, String)>)
    ensures
        match r {
            Some((d, m)) => d@ == chat_dir_spec(chat_id) && year_month_of(create_time as int) == Some(m@),
            None => year_month_of(create_time as int) is None,
        },
{
    let digest = crate::codec::md5_digest(chat_id.as_bytes());
    let dir = crate::hex::hex_encode(digest.as_slice());
    match year_month(create_time) {
        Some(m) => Some((dir, m)),
        None => None,
    }
}

/// A path with parts joined onto it in order, as `Path::join` does.
pub fn join_parts(base: &str, parts: &Vec<String>) -> (r: String)
    ensures
        r@ == join_all(base@, strings_view(parts@)),
{
    let ghost pv = strings_view(parts@);
    let mut p = chars_of(base);
    let mut i: usize = 0;
    while i < parts.len()
        invariant
            i <= parts.len(),
            pv == strings_view(parts@),
            p@ == join_all(base@, pv.take(i as int)),
        decreases parts.len() - i,
    {
        assert(pv.take(i + 1).drop_last() == pv.take(i as int));
        assert(pv.take(i + 1).last() == parts@[i as int]@);
        let q = chars_of(parts[i].as_str());
        p = join_path_exec(p, q.as_slice());
        i += 1;
    }
    assert(pv.take(parts.len() as int) == pv);
    crate::text::string_of(p.as_slice())
}

/// The name of a message's cached thumbnail: `<id>_<time>_thumb.jpg`.
pub open spec fn thumb_name_spec(local_id: i64, create_time: i64) -> Seq<char> {
    signed_decimal(local_id as int) + "_"@ + signed_decimal(create_time as int) + "_thumb.jpg"@
}

/// The directory of a chat's cached thumbnails for the month of a time:
/// `<base>/cache/<YYYY-MM>/Message/<chat dir>/Thumb`; none when the time
/// cannot be represented.
pub open spec fn thumb_dir_spec(base: Seq<char>, chat_id: &str, create_time: i64) -> Option<Seq<char>> {
    match year_month_of(create_time as int) {
        Some(m) => Some(join_all(base, seq!["cache"@, m, "Message"@, chat_dir_spec(chat_id), "Thumb"@])),
        None => None,
    }
}

/// The thumbnail directory of a chat for the month of a message.
pub fn thumb_dir(base: &str, chat_id: &str, create_time: i64) -> (r: Option<String>)
    ensures
        crate::types::opt_str_view(r) == thumb_dir_spec(base@, chat_id, create_time),
{
    let (dir, month) = match resource_dirs(chat_id, create_time) {
        Some(p) => p,
        None => return None,
    };
    let mut parts: Vec<String> = Vec::new();
    parts.push("cache".to_owned());
    parts.push(month);
    parts.push("Message".to_owned());
    parts.push(dir);
    parts.push("Thumb".to_owned());
    let ghost pv = strings_view(parts@);
    proof {
        reveal_strlit("cache");
        reveal_strlit("Message");
        reveal_strlit("Thumb");
    }
    assert(pv =~= seq!["cache"@, parts@[1]@, "Message"@, chat_dir_spec(chat_id), "Thumb"@]);
    Some(join_parts(base, &parts))
}

/// The exact thumbnail of a message: its name within the thumbnail directory.
pub open spec fn thumb_path_spec(base: Seq<char>, chat_id: &str, local_id: i64, create_time: i64) -> Option<Seq<char>> {
    match thumb_dir_spec(base, chat_id, create_time) {
        Some(d) => Some(join_path(d, thumb_name_spec(local_id, create_time))),
        None => None,
    }
}

/// The path of a message's own thumbnail under an account location.
pub fn thumb_path(base: &str, chat_id: &str, local_id: i64, create_time: i64) -> (r: Option<String>)
    ensures
        crate::types::opt_str_view(r) == thumb_path_spec(base@, chat_id, local_id, create_time),
{
    let d = match thumb_dir(base, chat_id, create_time) {
        Some(d) => d,
        None => return None,
    };
    let mut name = String::new();
    crate::text::push_signed_decimal(local_id, &mut name);
    crate::router::file_downloads::append_str(&mut name, "_");
    crate::text::push_signed_decimal(create_time, &mut name);
    crate::router::file_downloads::append_str(&mut name, "_thumb.jpg");
    let n = chars_of(name.as_str());
    Some(crate::text::string_of(join_path_exec(chars_of(d.as_str()), n.as_slice()).as_slice()))
}

/// Whether a file in the thumbnail directory belongs to a message: its name
/// starts with `<id>_`.
pub open spec fn thumb_of_spec(name: Seq<char>, local_id: i64) -> bool {
    crate::text::starts_with_spec(name, signed_decimal(local_id as int) + "_"@)
}

/// Whether a thumbnail file name belongs to the message.
pub fn is_thumb_of(name: &str, local_id: i64) -> (r: bool)
    ensures
        r == thumb_of_spec(name@, local_id),
{
    let mut prefix = String::new();
    crate::text::push_signed_decimal(local_id, &mut prefix);
    crate::router::file_downloads::append_str(&mut prefix, "_");
    crate::text::starts_with(chars_of(name).as_slice(), chars_of(prefix.as_str()).as_slice())
}

/// The directory of the videos of the month of a time:
/// `<base>/msg/video/<YYYY-MM>`; none when the time cannot be represented.
pub open spec fn video_dir_spec(base: Seq<char>, create_time: i64) -> Option<Seq<char>> {
    match year_month_of(create_time as int) {
        Some(m) => Some(join_all(base, seq!["msg/video"@, m])),
        None => None,
    }
}

/// The video directory for a message's month under an account location.
pub fn video_dir(base: &str, create_time: i64) -> (r: Option<String>)
    ensures
        crate::types::opt_str_view(r) == video_dir_spec(base@, create_time),
{
    let month = match year_month(create_time) {
        Some(m) => m,
        None => return None,
    };
    let mut parts: Vec<String> = Vec::new();
    parts.push("msg/video".to_owned());
    parts.push(month);
    proof {
        reveal_strlit("msg/video");
    }
    assert(strings_view(parts@) =~= seq!["msg/video"@, parts@[1]@]);
    Some(join_parts(base, &parts))
}

/// A file of the video directory named by a hash and a suffix
/// (`.mp4`, `.jpg` or `_thumb.jpg`).
pub fn video_file(dir: &str, hash: &str, suffix: &str) -> (r: String)
    ensures
        r@ == join_path(dir@, hash@ + suffix@),
{
    let mut name = chars_of(hash);
    crate::text::append_chars(&mut name, chars_of(suffix).as_slice());
    crate::text::string_of(join_path_exec(chars_of(dir), name.as_slice()).as_slice())
}

/// Where an attachment is stored: `<base>/msg/file/<YYYY-MM>/<name>`, with
/// an empty month when the time cannot be represented.
pub open spec fn attachment_path_spec(base: Seq<char>, create_time: i64, name: Seq<char>) -> Seq<char> {
    let m = match year_month_of(create_time as int) {
        Some(m) => m,
        None => Seq::empty(),
    };
    join_all(base, seq!["msg/file"@, m, name])
}

/// The stored path of an attachment under an account location.
pub fn attachment_path(base: &str, create_time: i64, name: &str) -> (r: String)
    ensures
        r@ == attachment_path_spec(base@, create_time, name@),
{
    let month = match year_month(create_time) {
        Some(m) => m,
        None => String::new(),
    };
    let mut parts: Vec<String> = Vec::new();
    parts.push("msg/file".to_owned());
    parts.push(month);
    parts.push(name.to_owned());
    proof {
        reveal_strlit("msg/file");
    }
    assert(strings_view(parts@) =~= seq!["msg/file"@, parts@[1]@, name@]);
    join_parts(base, &parts)
}

} // verus!
