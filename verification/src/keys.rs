//! Database keys: when they must be extracted again, which are used for
//! checkpoints, how the image keys are read, and the SQL that applies a key.
use vstd::prelude::*;
use crate::text::{chars_of, starts_with, starts_with_spec, str_eq};

verus! {

/// A key is stored under the name.
pub open spec fn has_key_spec(keys: Seq<(String, String)>, name: Seq<char>) -> bool {
    exists|i: int| 0 <= i < keys.len() && (#[trigger] keys[i]).0@ == name
}

/// The first key stored under the name.
pub open spec fn key_of(keys: Seq<(String, String)>, name: Seq<char>) -> Option<Seq<char>>
    decreases keys.len(),
{
    if keys.len() == 0 {
        None
    } else if keys[0].0@ == name {
        Some(keys[0].1@)
    } else {
        key_of(keys.drop_first(), name)
    }
}

proof fn lemma_key_of_present(keys: Seq<(String, String)>, name: Seq<char>)
    ensures
        key_of(keys, name) is Some <==> has_key_spec(keys, name),
    decreases keys.len(),
{
    if keys.len() > 0 {
        lemma_key_of_present(keys.drop_first(), name);
        if has_key_spec(keys, name) && keys[0].0@ != name {
            let i = choose|i: int| 0 <= i < keys.len() && (#[trigger] keys[i]).0@ == name;
            assert(keys.drop_first()[i - 1] == keys[i]);
        }
        if has_key_spec(keys.drop_first(), name) {
            let i = choose|i: int| 0 <= i < keys.len() - 1 && (#[trigger] keys.drop_first()[i]).0@ == name;
            assert(keys[i + 1] == keys.drop_first()[i]);
        }
    }
}

/// The key stored under a name, if any.
pub fn find_key(keys: &Vec<(String, String)>, name: &str) -> (r: Option<String>)
    ensures
        crate::types::opt_str_view(r) == key_of(keys@, name@),
{
    let mut i: usize = 0;
    assert(keys@.skip(0) == keys@);
    while i < keys.len()
        invariant
            i <= keys.len(),
            key_of(keys@, name@) == key_of(keys@.skip(i as int), name@),
        decreases keys.len() - i,
    {
        assert(keys@.skip(i as int).drop_first() == keys@.skip(i + 1));
        assert(keys@.skip(i as int)[0] == keys@[i as int]);
        if str_eq(keys[i].0.as_str(), name) {
            return Some(keys[i].1.clone());
        }
        i += 1;
    }
    None
}

/// The sharded databases whose keys are needed once their files exist.
pub open spec fn sharded_db(name: Seq<char>) -> bool {
    starts_with_spec(name, "message_"@) || starts_with_spec(name, "media_"@)
}

/// Whether keys must be extracted without reading any database: none are
/// stored, a required one is missing, or a sharded database on disk has none.
pub open spec fn extraction_needed_spec(stored: Seq<(String, String)>, on_disk: Seq<String>) -> bool {
    stored.len() == 0 || !has_key_spec(stored, "session.db"@) || !has_key_spec(stored, "contact.db"@)
        || !has_key_spec(stored, "emoticon.db"@) || !has_key_spec(stored, "head_image.db"@)
        || !has_key_spec(stored, "hardlink.db"@) || exists|i: int| 0 <= i < on_disk.len()
        && sharded_db((#[trigger] on_disk[i])@) && !has_key_spec(stored, on_disk[i]@)
}

/// What deciding on key extraction leads to.
pub enum KeyCheck {
    /// Extract the keys again.
    Needed,
    /// Try this session database key; extract again if it does not open the database.
    SpotCheck(String),
}

fn has_key(keys: &Vec<(String, String)>, name: &str) -> (r: bool)
    ensures
        r == has_key_spec(keys@, name@),
{
    let mut i: usize = 0;
    while i < keys.len()
        invariant
            i <= keys.len(),
            forall|j: int| 0 <= j < i ==> (#[trigger] keys@[j]).0@ != name@,
        decreases keys.len() - i,
    {
        if str_eq(keys[i].0.as_str(), name) {
            assert(keys@[i as int].0@ == name@);
            return true;
        }
        i += 1;
    }
    false
}

fn sharded_missing(stored: &Vec<(String, String)>, on_disk: &Vec<String>) -> (r: bool)
    ensures
        r == exists|i: int| 0 <= i < on_disk@.len() && sharded_db((#[trigger] on_disk@[i])@) && !has_key_spec(
            stored@,
            on_disk@[i]@,
        ),
{
    let mut i: usize = 0;
    while i < on_disk.len()
        invariant
            i <= on_disk.len(),
            forall|j: int| 0 <= j < i ==> !(sharded_db((#[trigger] on_disk@[j])@) && !has_key_spec(stored@, on_disk@[j]@)),
        decreases on_disk.len() - i,
    {
        let n = chars_of(on_disk[i].as_str());
        let sharded = starts_with(n.as_slice(), chars_of("message_").as_slice()) || starts_with(
            n.as_slice(),
            chars_of("media_").as_slice(),
        );
        if sharded && !has_key(stored, on_disk[i].as_str()) {
            assert(sharded_db(on_disk@[i as int]@));
            return true;
        }
        i += 1;
    }
    false
}

/// Decides whether keys must be extracted again, or which key to spot-check.
pub fn key_check(stored: &Vec<(String, String)>, on_disk: &Vec<String>) -> (r: KeyCheck)
    ensures
        match r {
            KeyCheck::Needed => extraction_needed_spec(stored@, on_disk@),
            KeyCheck::SpotCheck(k) => !extraction_needed_spec(stored@, on_disk@) && key_of(
                stored@,
                "session.db"@,
            ) == Some(k@),
        },
{
    if stored.len() == 0 || !has_key(stored, "session.db") || !has_key(stored, "contact.db")
        || !has_key(stored, "emoticon.db") || !has_key(stored, "head_image.db") || !has_key(
        stored,
        "hardlink.db",
    ) || sharded_missing(stored, on_disk) {
        return KeyCheck::Needed;
    }
    proof {
        lemma_key_of_present(stored@, "session.db"@);
    }
    match find_key(stored, "session.db") {
        Some(k) => KeyCheck::SpotCheck(k),
        None => KeyCheck::Needed,
    }
}

/// The statements that open an encrypted database with a hex key.
pub open spec fn key_pragma_spec(hex_key: Seq<char>) -> Seq<char> {
    "PRAGMA key = \"x'"@ + hex_key + "'\"; PRAGMA cipher_compatibility = 4;"@
}

/// The SQL that applies a database key.
pub fn key_pragma(hex_key: &str) -> (r: String)
    ensures
        r@ == key_pragma_spec(hex_key@),
{
    let mut s = String::from_str("PRAGMA key = \"x'");
    crate::router::file_downloads::append_str(&mut s, hex_key);
    crate::router::file_downloads::append_str(&mut s, "'\"; PRAGMA cipher_compatibility = 4;");
    s
}

/// A database opened read-only without taking locks: `file:<path>?immutable=1`.
pub open spec fn immutable_uri_spec(path: Seq<char>) -> Seq<char> {
    "file:"@ + path + "?immutable=1"@
}

/// The URI that opens a database without locking it.
pub fn immutable_uri(path: &str) -> (r: String)
    ensures
        r@ == immutable_uri_spec(path@),
{
    let mut s = String::from_str("file:");
    crate::router::file_downloads::append_str(&mut s, path);
    crate::router::file_downloads::append_str(&mut s, "?immutable=1");
    s
}

/// Where the extraction script writes the keys of a process.
pub open spec fn keys_output_path_spec(pid: i64) -> Seq<char> {
    "/tmp/wechat_keys_"@ + crate::text::signed_decimal(pid as int) + ".json"@
}

/// The extraction script's output path for a process.
pub fn keys_output_path(pid: i64) -> (r: String)
    ensures
        r@ == keys_output_path_spec(pid),
{
    let mut s = String::from_str("/tmp/wechat_keys_");
    crate::text::push_signed_decimal(pid, &mut s);
    crate::router::file_downloads::append_str(&mut s, ".json");
    s
}

/// The databases that are checkpointed: every stored name but the metadata
/// entries, which start with `_`.
pub open spec fn checkpoint_names(keys: Seq<(String, String)>) -> Seq<(Seq<char>, Seq<char>)>
    decreases keys.len(),
{
    if keys.len() == 0 {
        Seq::empty()
    } else {
        let rest = checkpoint_names(keys.drop_last());
        let k = keys.last();
        if starts_with_spec(k.0@, "_"@) {
            rest
        } else {
            rest.push((k.0@, k.1@))
        }
    }
}

pub open spec fn pairs_view(v: Seq<(String, String)>) -> Seq<(Seq<char>, Seq<char>)> {
    v.map_values(|p: (String, String)| (p.0@, p.1@))
}

/// The stored keys of databases, without metadata entries.
pub fn checkpoint_targets(keys: &Vec<(String, String)>) -> (r: Vec<(String, String)>)
    ensures
        pairs_view(r@) == checkpoint_names(keys@),
{
    let mut out: Vec<(String, String)> = Vec::new();
    let mut i: usize = 0;
    while i < keys.len()
        invariant
            i <= keys.len(),
            pairs_view(out@) == checkpoint_names(keys@.take(i as int)),
        decreases keys.len() - i,
    {
        assert(keys@.take(i + 1).drop_last() == keys@.take(i as int));
        assert(keys@.take(i + 1).last() == keys@[i as int]);
        let n = chars_of(keys[i].0.as_str());
        if !starts_with(n.as_slice(), chars_of("_").as_slice()) {
            let ghost prev = pairs_view(out@);
            out.push((keys[i].0.clone(), keys[i].1.clone()));
            assert(pairs_view(out@) =~= prev.push((keys@[i as int].0@, keys@[i as int].1@)));
        }
        i += 1;
    }
    assert(keys@.take(keys.len() as int) == keys@);
    out
}

pub open spec fn hex_digit_value(c: char) -> int {
    if '0' <= c && c <= '9' {
        c as int - '0' as int
    } else if 'a' <= c && c <= 'f' {
        c as int - 'a' as int + 10
    } else {
        c as int - 'A' as int + 10
    }
}

pub open spec fn hex_value(s: Seq<char>) -> int
    decreases s.len(),
{
    if s.len() == 0 {
        0
    } else {
        hex_value(s.drop_last()) * 16 + hex_digit_value(s.last())
    }
}

/// `u8::from_str_radix(s, 16)`: an optional `+`, then hex digits of either
/// case whose value fits a byte.
pub open spec fn hex_u8_spec(s: Seq<char>) -> Option<u8> {
    let digits = unsigned_digits(s);
    if digits.len() == 0 || !all_hex(digits) || hex_value(digits) > 255 {
        None
    } else {
        Some(hex_value(digits) as u8)
    }
}

/// The text after an optional leading `+`.
pub open spec fn unsigned_digits(s: Seq<char>) -> Seq<char> {
    if s.len() > 0 && s[0] == '+' {
        s.drop_first()
    } else {
        s
    }
}

pub open spec fn all_hex(d: Seq<char>) -> bool {
    forall|i: int| 0 <= i < d.len() ==> crate::media::is_hex_char(#[trigger] d[i])
}

/// Reads a byte written in hex.
pub fn parse_hex_u8(s: &str) -> (r: Option<u8>)
    ensures
        r == hex_u8_spec(s@),
{
    let cs = chars_of(s);
    let start: usize = if cs.len() > 0 && cs[0] == '+' {
        1
    } else {
        0
    };
    let ghost digits = cs@.skip(start as int);
    proof {
        if start == 1 {
            assert(digits == cs@.drop_first());
        } else {
            assert(digits == cs@);
        }
    }
    if start == cs.len() {
        return None;
    }
    let mut v: u32 = 0;
    let mut i: usize = start;
    while i < cs.len()
        invariant
            start <= i <= cs.len(),
            cs@ == s@,
            digits == cs@.skip(start as int),
            digits == unsigned_digits(s@),
            v as int == hex_value(digits.take(i - start)),
            v <= 255,
            forall|j: int| 0 <= j < i - start ==> crate::media::is_hex_char(#[trigger] digits[j]),
        decreases cs.len() - i,
    {
        let c = cs[i];
        assert(digits[i - start] == c);
        let d: u32 = if '0' <= c && c <= '9' {
            (c as u32) - ('0' as u32)
        } else if 'a' <= c && c <= 'f' {
            (c as u32) - ('a' as u32) + 10
        } else if 'A' <= c && c <= 'F' {
            (c as u32) - ('A' as u32) + 10
        } else {
            assert(!crate::media::is_hex_char(digits[i - start]));
            assert(!all_hex(digits));
            return None;
        };
        assert(digits.take(i - start + 1).drop_last() == digits.take(i - start));
        assert(digits.take(i - start + 1).last() == c);
        assert(d as int == hex_digit_value(c));
        assert(crate::media::is_hex_char(c));
        let nv = v * 16 + d;
        if nv > 255 {
            proof {
                if all_hex(digits) {
                    lemma_hex_prefix_le(digits, i - start + 1);
                }
            }
            return None;
        }
        v = nv;
        i += 1;
    }
    assert(digits.take(i - start) == digits);
    Some(v as u8)
}

proof fn lemma_hex_prefix_le(s: Seq<char>, k: int)
    requires
        0 <= k <= s.len(),
        forall|j: int| 0 <= j < s.len() ==> crate::media::is_hex_char(#[trigger] s[j]),
    ensures
        0 <= hex_value(s.take(k)) <= hex_value(s),
    decreases s.len(),
{
    if s.len() > 0 {
        let d = s.drop_last();
        let k2 = if k < s.len() { k } else { d.len() as int };
        assert forall|j: int| 0 <= j < d.len() implies crate::media::is_hex_char(#[trigger] d[j]) by {
            assert(d[j] == s[j]);
        }
        lemma_hex_prefix_le(d, k2);
        assert(crate::media::is_hex_char(s.last()));
        assert(0 <= hex_digit_value(s.last()));
        if k < s.len() {
            assert(d.take(k) == s.take(k));
        } else {
            assert(d.take(k2) == d);
            assert(s.take(k) == s);
        }
    } else {
        assert(s.take(k) == s);
    }
}

/// The image keys: the AES key and, when it reads as a hex byte, the XOR byte.
pub open spec fn image_keys_spec(keys: Seq<(String, String)>) -> Option<(Seq<char>, Option<u8>)> {
    match key_of(keys, "_image_aes"@) {
        None => None,
        Some(aes) => Some(
            (
                aes,
                match key_of(keys, "_image_xor"@) {
                    Some(x) => hex_u8_spec(x),
                    None => None,
                },
            ),
        ),
    }
}

/// The stored image keys, when an AES key is stored.
pub fn image_keys(keys: &Vec<(String, String)>) -> (r: Option<(String, Option<u8>)>)
    ensures
        match r {
            Some((a, x)) => image_keys_spec(keys@) == Some((a@, x)),
            None => image_keys_spec(keys@) is None,
        },
{
    let aes = match find_key(keys, "_image_aes") {
        Some(a) => a,
        None => return None,
    };
    let xor = match find_key(keys, "_image_xor") {
        Some(x) => parse_hex_u8(x.as_str()),
        None => None,
    };
    Some((aes, xor))
}

/// A member of the `keys` object as a key: its text, or empty text when the
/// value is not a string.
pub open spec fn key_pair(m: (Seq<char>, Option<Seq<char>>)) -> (Seq<char>, Seq<char>) {
    (
        m.0,
        match m.1 {
            Some(t) => t,
            None => Seq::<char>::empty(),
        },
    )
}

/// The keys the extraction tool wrote: each member of its `keys` object with
/// its text, a value that is not a string as empty text; no keys when the
/// output is not JSON or has no `keys` object.
pub open spec fn key_pairs_spec(text: Seq<char>) -> Seq<(Seq<char>, Seq<char>)> {
    match crate::json::json_text_shape(text, "keys"@) {
        Ok(sh) => match sh.1 {
            Some(ms) => ms.map_values(|m: (Seq<char>, Option<Seq<char>>)| key_pair(m)),
            None => Seq::empty(),
        },
        Err(_) => Seq::empty(),
    }
}

/// The keys in the extraction tool's output file.
pub fn extracted_keys(text: &str) -> (r: Vec<(String, String)>)
    ensures
        pairs_view(r@) == key_pairs_spec(text@),
{
    proof {
        reveal_strlit("keys");
    }
    let mut out: Vec<(String, String)> = Vec::new();
    let shape = match crate::json::parse_text(text, "keys") {
        Ok(s) => s,
        Err(_) => return out,
    };
    let ms = match shape.inner {
        Some(ms) => ms,
        None => {
            assert(pairs_view(out@) =~= Seq::<(Seq<char>, Seq<char>)>::empty());
            return out;
        },
    };
    let ghost mv = crate::json::members_view(ms@);
    let mut i: usize = 0;
    while i < ms.len()
        invariant
            i <= ms.len(),
            mv == crate::json::members_view(ms@),
            pairs_view(out@) == mv.take(i as int).map_values(|m: (Seq<char>, Option<Seq<char>>)| key_pair(m)),
        decreases ms.len() - i,
    {
        let value = match &ms[i].1 {
            Some(t) => t.clone(),
            None => String::new(),
        };
        let name = ms[i].0.clone();
        assert(mv[i as int] == crate::json::member_view(ms@[i as int]));
        assert(name@ == key_pair(mv[i as int]).0);
        assert(value@ == key_pair(mv[i as int]).1);
        let ghost before = pairs_view(out@);
        out.push((name, value));
        assert(mv.take(i + 1) =~= mv.take(i as int).push(mv[i as int]));
        assert(pairs_view(out@) =~= before.push(key_pair(mv[i as int])));
        i += 1;
    }
    assert(mv.take(ms.len() as int) =~= mv);
    out
}

} // verus!
