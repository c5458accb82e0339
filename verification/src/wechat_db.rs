//! Where WeChat keeps its databases: account directories, database paths,
//! and the choice among several candidates.
use vstd::prelude::*;
use crate::text::{
    append_chars, chars_of, contains, contains_spec, ends_with, ends_with_spec, find, find_spec,
    slice_chars, starts_with_spec, str_eq, string_of,
};

verus! {

// ============================================
// Account directories
// ============================================

/// The path segment before the first `/`.
pub open spec fn first_segment(s: Seq<char>) -> Seq<char> {
    match find_spec(s, "/"@) {
        Some(k) => s.take(k),
        None => s,
    }
}

/// The account directory named in a database path: the segment after
/// `xwechat_files/`, for a `.db` path under `db_storage`.
pub open spec fn account_dir_spec(target: Seq<char>) -> Option<Seq<char>> {
    if !contains_spec(target, "db_storage"@) || !ends_with_spec(target, ".db"@) {
        None
    } else {
        match find_spec(target, "xwechat_files/"@) {
            None => None,
            Some(i) => {
                let seg = first_segment(target.skip(i + 14));
                if seg.len() == 0 {
                    None
                } else {
                    Some(seg)
                }
            },
        }
    }
}

/// Extract the account directory name (e.g. `wxid_xxx`) from the path of an
/// open WeChat database; none for unrelated paths.
pub fn account_dir_from_db_path(target: &str) -> (r: Option<String>)
    ensures
        crate::types::opt_str_view(r) == account_dir_spec(target@),
{
    let t = chars_of(target);
    let a = chars_of("db_storage");
    let b = chars_of(".db");
    if !contains(t.as_slice(), a.as_slice()) || !ends_with(t.as_slice(), b.as_slice()) {
        return None;
    }
    let x = chars_of("xwechat_files/");
    proof {
        reveal_strlit("xwechat_files/");
        reveal_strlit("/");
    }
    let i = match find(t.as_slice(), x.as_slice()) {
        Some(i) => i,
        None => return None,
    };
    let rest = slice_chars(t.as_slice(), i + 14, t.len());
    assert(rest@ =~= t@.skip(i + 14));
    let slash = chars_of("/");
    let seg = match find(rest.as_slice(), slash.as_slice()) {
        Some(k) => slice_chars(rest.as_slice(), 0, k),
        None => rest,
    };
    assert(seg@ =~= first_segment(t@.skip(i + 14)));
    if seg.len() == 0 {
        None
    } else {
        Some(string_of(seg.as_slice()))
    }
}

/// The index of the first candidate with the latest modification time among
/// the first `n`.
pub open spec fn newest(c: Seq<(Seq<char>, i128)>, n: int) -> int
    decreases n,
{
    if n <= 1 {
        0
    } else {
        let b = newest(c, n - 1);
        if c[n - 1].1 > c[b].1 {
            n - 1
        } else {
            b
        }
    }
}

pub open spec fn candidates_view(c: Seq<(String, i128)>) -> Seq<(Seq<char>, i128)> {
    c.map_values(|p: (String, i128)| (p.0@, p.1))
}

pub open spec fn newest_spec(c: Seq<(Seq<char>, i128)>) -> Option<Seq<char>> {
    if c.len() == 0 {
        None
    } else {
        Some(c[newest(c, c.len() as int)].0)
    }
}

/// Pick the most recently modified candidate (modification time in
/// nanoseconds since the Unix epoch); the earlier one on ties.
pub fn select_newest_candidate(candidates: Vec<(String, i128)>) -> (r: Option<String>)
    ensures
        crate::types::opt_str_view(r) == newest_spec(candidates_view(candidates@)),
{
    let ghost cv = candidates_view(candidates@);
    if candidates.len() == 0 {
        return None;
    }
    let mut best: usize = 0;
    let mut k: usize = 1;
    while k < candidates.len()
        invariant
            1 <= k <= candidates.len(),
            cv == candidates_view(candidates@),
            best as int == newest(cv, k as int),
            best < candidates.len(),
        decreases candidates.len() - k,
    {
        if candidates[k].1 > candidates[best].1 {
            best = k;
        }
        k += 1;
    }
    Some(candidates[best].0.clone())
}

/// The account directory found first: by the WeChat process's open files,
/// else by a related process's, else the newest account directory on disk.
pub open spec fn account_dir_choice(
    from_pid_fd: Option<Seq<char>>,
    from_related_fd: Option<Seq<char>>,
    on_disk: Seq<(Seq<char>, i128)>,
) -> Option<Seq<char>> {
    if from_pid_fd is Some {
        from_pid_fd
    } else if from_related_fd is Some {
        from_related_fd
    } else {
        newest_spec(on_disk)
    }
}

/// Decide the WeChat account directory from the three ways of finding it,
/// first hit wins: the account of a database the WeChat process holds open,
/// else one a related WeChat process holds open, else the most recently
/// modified account directory with the core databases.
pub fn find_account_dir(
    from_pid_fd: Option<String>,
    from_related_fd: Option<String>,
    on_disk: Vec<(String, i128)>,
) -> (r: Option<String>)
    ensures
        crate::types::opt_str_view(r) == account_dir_choice(
            crate::types::opt_str_view(from_pid_fd),
            crate::types::opt_str_view(from_related_fd),
            candidates_view(on_disk@),
        ),
{
    if from_pid_fd.is_some() {
        return from_pid_fd;
    }
    if from_related_fd.is_some() {
        return from_related_fd;
    }
    select_newest_candidate(on_disk)
}

/// An account directory holds the session and contact databases.
pub open spec fn has_core_dbs_spec(dbs: Seq<Seq<char>>) -> bool {
    dbs.contains("session.db"@) && dbs.contains("contact.db"@)
}

pub(crate) fn has_name(dbs: &Vec<String>, name: &str) -> (r: bool)
    ensures
        r == crate::plans::strings_view(dbs@).contains(name@),
{
    let ghost v = crate::plans::strings_view(dbs@);
    let mut i: usize = 0;
    while i < dbs.len()
        invariant
            i <= dbs.len(),
            v == crate::plans::strings_view(dbs@),
            forall|j: int| 0 <= j < i ==> v[j] != name@,
        decreases dbs.len() - i,
    {
        if str_eq(dbs[i].as_str(), name) {
            assert(v[i as int] == name@);
            return true;
        }
        i += 1;
    }
    false
}

/// Whether the listed databases of an account include the core ones
/// (`session.db` and `contact.db`).
pub fn account_dir_has_core_dbs(dbs: &Vec<String>) -> (r: bool)
    ensures
        r == has_core_dbs_spec(crate::plans::strings_view(dbs@)),
{
    has_name(dbs, "session.db") && has_name(dbs, "contact.db")
}

// ============================================
// Database paths
// ============================================

/// The `db_storage` subdirectory of a database: from the known list, else
/// its name without `.db`.
pub open spec fn sub_dir_spec(db: Seq<char>) -> Seq<char> {
    if db == "contact.db"@ || db == "contact_fts.db"@ {
        "contact"@
    } else if db == "session.db"@ {
        "session"@
    } else if db == "message_0.db"@ || db == "message_fts.db"@ || db == "message_resource.db"@
        || db == "biz_message_0.db"@ || db == "media_0.db"@ {
        "message"@
    } else if db == "general.db"@ {
        "general"@
    } else if db == "hardlink.db"@ {
        "hardlink"@
    } else if db == "head_image.db"@ {
        "head_image"@
    } else if db == "emoticon.db"@ {
        "emoticon"@
    } else if db == "favorite.db"@ || db == "favorite_fts.db"@ {
        "favorite"@
    } else if db == "sns.db"@ {
        "sns"@
    } else if db == "bizchat.db"@ {
        "bizchat"@
    } else if ends_with_spec(db, ".db"@) {
        db.take(db.len() - 3)
    } else {
        db
    }
}

fn sub_dir(db: &str) -> (r: Vec<char>)
    ensures
        r@ == sub_dir_spec(db@),
{
    if str_eq(db, "contact.db") || str_eq(db, "contact_fts.db") {
        chars_of("contact")
    } else if str_eq(db, "session.db") {
        chars_of("session")
    } else if str_eq(db, "message_0.db") || str_eq(db, "message_fts.db") || str_eq(
        db,
        "message_resource.db",
    ) || str_eq(db, "biz_message_0.db") || str_eq(db, "media_0.db") {
        chars_of("message")
    } else if str_eq(db, "general.db") {
        chars_of("general")
    } else if str_eq(db, "hardlink.db") {
        chars_of("hardlink")
    } else if str_eq(db, "head_image.db") {
        chars_of("head_image")
    } else if str_eq(db, "emoticon.db") {
        chars_of("emoticon")
    } else if str_eq(db, "favorite.db") || str_eq(db, "favorite_fts.db") {
        chars_of("favorite")
    } else if str_eq(db, "sns.db") {
        chars_of("sns")
    } else if str_eq(db, "bizchat.db") {
        chars_of("bizchat")
    } else {
        let d = chars_of(db);
        let ext = chars_of(".db");
        proof {
            reveal_strlit(".db");
        }
        if ends_with(d.as_slice(), ext.as_slice()) {
            slice_chars(d.as_slice(), 0, d.len() - 3)
        } else {
            d
        }
    }
}

/// `Path::join` on Unix: an absolute part replaces the path; otherwise it is
/// appended after a `/` unless the path is empty or already ends in one.
pub open spec fn join_path(p: Seq<char>, q: Seq<char>) -> Seq<char> {
    if q.len() > 0 && q[0] == '/' {
        q
    } else if p.len() == 0 || p.last() == '/' {
        p + q
    } else {
        p + seq!['/'] + q
    }
}

pub(crate) fn join_path_exec(p: Vec<char>, q: &[char]) -> (r: Vec<char>)
    ensures
        r@ == join_path(p@, q@),
{
    if q.len() > 0 && q[0] == '/' {
        return slice_chars(q, 0, q.len());
    }
    let mut out = p;
    if out.len() > 0 && out[out.len() - 1] != '/' {
        out.push('/');
    }
    append_chars(&mut out, q);
    out
}

/// The two places an account's files may live.
pub open spec fn base_path(account_dir: Seq<char>, second: bool) -> Seq<char> {
    if second {
        "/home/wechat/Documents/xwechat_files/"@ + account_dir
    } else {
        "/home/wechat/xwechat_files/"@ + account_dir
    }
}

/// A database's path under one of the two account locations.
pub open spec fn db_path_spec(account_dir: Seq<char>, db: Seq<char>, second: bool) -> Seq<char> {
    join_path(join_path(join_path(base_path(account_dir, second), "db_storage"@), sub_dir_spec(db)), db)
}

/// A database's path under the first (`second == false`) or the second
/// account location.
pub fn db_path_candidate(account_dir: &str, db_name: &str, second: bool) -> (r: String)
    ensures
        r@ == db_path_spec(account_dir@, db_name@, second),
{
    let mut base = if second {
        chars_of("/home/wechat/Documents/xwechat_files/")
    } else {
        chars_of("/home/wechat/xwechat_files/")
    };
    let a = chars_of(account_dir);
    append_chars(&mut base, a.as_slice());
    let s = chars_of("db_storage");
    let p1 = join_path_exec(base, s.as_slice());
    let sd = sub_dir(db_name);
    let p2 = join_path_exec(p1, sd.as_slice());
    let d = chars_of(db_name);
    let p3 = join_path_exec(p2, d.as_slice());
    string_of(p3.as_slice())
}

/// The path of a WeChat database: the first location where it exists, else
/// the first location.
pub fn get_db_path(account_dir: &str, db_name: &str, exists_first: bool, exists_second: bool) -> (r:
    String)
    ensures
        r@ == db_path_spec(account_dir@, db_name@, !exists_first && exists_second),
{
    if exists_first {
        db_path_candidate(account_dir, db_name, false)
    } else if exists_second {
        db_path_candidate(account_dir, db_name, true)
    } else {
        db_path_candidate(account_dir, db_name, false)
    }
}

} // verus!

verus! {

// ============================================
// Message databases
// ============================================

/// `a` sorts before `b`: lexicographic by code point (the byte order of
/// their UTF-8, as `str`'s ordering uses), a proper prefix first.
pub open spec fn str_lt(a: Seq<char>, b: Seq<char>) -> bool
    decreases a.len(),
{
    if b.len() == 0 {
        false
    } else if a.len() == 0 {
        true
    } else if (a[0] as u32) < (b[0] as u32) {
        true
    } else if (a[0] as u32) > (b[0] as u32) {
        false
    } else {
        str_lt(a.drop_first(), b.drop_first())
    }
}

fn str_lt_exec(a: &[char], b: &[char]) -> (r: bool)
    ensures
        r == str_lt(a@, b@),
{
    let mut i: usize = 0;
    assert(a@.skip(0) =~= a@);
    assert(b@.skip(0) =~= b@);
    while i < a.len() && i < b.len()
        invariant
            i <= a.len(),
            i <= b.len(),
            str_lt(a@, b@) == str_lt(a@.skip(i as int), b@.skip(i as int)),
        decreases a.len() - i,
    {
        assert(a@.skip(i as int)[0] == a@[i as int]);
        assert(b@.skip(i as int)[0] == b@[i as int]);
        assert(a@.skip(i as int).drop_first() =~= a@.skip(i + 1));
        assert(b@.skip(i as int).drop_first() =~= b@.skip(i + 1));
        let x = a[i] as u32;
        let y = b[i] as u32;
        if x < y {
            return true;
        }
        if x > y {
            return false;
        }
        i += 1;
    }
    i < b.len()
}

/// A message database: `message_*.db`, not a full-text or resource one.
pub open spec fn is_message_db(name: Seq<char>) -> bool {
    starts_with_spec(name, "message_"@) && ends_with_spec(name, ".db"@) && !contains_spec(name, "fts"@)
        && !contains_spec(name, "resource"@)
}

pub type KeyPair = (String, String);

pub open spec fn pairs_view(v: Seq<(String, String)>) -> Seq<(Seq<char>, Seq<char>)> {
    v.map_values(|p: (String, String)| (p.0@, p.1@))
}

/// `x` inserted into `s` after every entry whose name does not sort after it.
pub open spec fn insert_sorted(s: Seq<(Seq<char>, Seq<char>)>, x: (Seq<char>, Seq<char>)) -> Seq<(Seq<char>, Seq<char>)>
    decreases s.len(),
{
    if s.len() == 0 {
        seq![x]
    } else if str_lt(x.0, s.last().0) {
        insert_sorted(s.drop_last(), x).push(s.last())
    } else {
        s.push(x)
    }
}

/// The entries sorted by name, stably (as `sort_by_key` does).
pub open spec fn sort_by_name(s: Seq<(Seq<char>, Seq<char>)>) -> Seq<(Seq<char>, Seq<char>)>
    decreases s.len(),
{
    if s.len() == 0 {
        Seq::empty()
    } else {
        insert_sorted(sort_by_name(s.drop_last()), s.last())
    }
}

/// The message databases among the entries, in their order.
pub open spec fn message_dbs(s: Seq<(Seq<char>, Seq<char>)>) -> Seq<(Seq<char>, Seq<char>)>
    decreases s.len(),
{
    if s.len() == 0 {
        Seq::empty()
    } else {
        message_dbs(s.drop_last()) + if is_message_db(s.last().0) {
            seq![s.last()]
        } else {
            Seq::empty()
        }
    }
}

fn insert_sorted_exec(v: &mut Vec<(String, String)>, x: (String, String))
    ensures
        pairs_view(final(v)@) == insert_sorted(pairs_view(old(v)@), (x.0@, x.1@)),
{
    let ghost old_v = pairs_view(v@);
    let xn = chars_of(x.0.as_str());
    // Find the insertion point from the end.
    let mut k: usize = v.len();
    let mut stop = false;
    assert(old_v.take(k as int) =~= old_v);
    assert(old_v.skip(k as int) =~= Seq::<(Seq<char>, Seq<char>)>::empty());
    while k > 0 && !stop
        invariant
            k <= v.len(),
            xn@ == x.0@,
            v@ == old(v)@,
            old_v == pairs_view(v@),
            insert_sorted(old_v, (x.0@, x.1@)) == insert_sorted(old_v.take(k as int), (x.0@, x.1@))
                + old_v.skip(k as int),
            stop ==> k > 0 && !str_lt(x.0@, old_v[k - 1].0),
        decreases 2 * k + if stop { 0int } else { 1int },
    {
        let yn = chars_of(v[k - 1].0.as_str());
        if !str_lt_exec(xn.as_slice(), yn.as_slice()) {
            stop = true;
            continue;
        }
        proof {
            let t = old_v.take(k as int);
            assert(t.drop_last() =~= old_v.take(k - 1));
            assert(t.last() == old_v[k - 1]);
            assert(insert_sorted(t, (x.0@, x.1@)) == insert_sorted(old_v.take(k - 1), (x.0@, x.1@)).push(old_v[k - 1]));
            assert(insert_sorted(old_v.take(k - 1), (x.0@, x.1@)).push(old_v[k - 1]) + old_v.skip(k as int)
                =~= insert_sorted(old_v.take(k - 1), (x.0@, x.1@)) + old_v.skip(k - 1));
        }
        k -= 1;
    }
    proof {
        let t = old_v.take(k as int);
        if k > 0 {
            assert(t.last() == old_v[k - 1]);
            assert(insert_sorted(t, (x.0@, x.1@)) == t.push((x.0@, x.1@)));
        } else {
            assert(insert_sorted(t, (x.0@, x.1@)) == seq![(x.0@, x.1@)]);
        }
    }
    v.insert(k, x);
    assert(pairs_view(v@) =~= old_v.take(k as int).push((xn@, pairs_view(v@)[k as int].1)) + old_v.skip(k as int));
}

/// The message databases of a list of decrypted-database keys (name, key),
/// sorted by name: the order in which they are searched for a chat.
pub fn message_db_candidates(keys: &Vec<(String, String)>) -> (r: Vec<(String, String)>)
    ensures
        pairs_view(r@) == sort_by_name(message_dbs(pairs_view(keys@))),
{
    let ghost kv = pairs_view(keys@);
    let mut out: Vec<(String, String)> = Vec::new();
    let mut i: usize = 0;
    while i < keys.len()
        invariant
            i <= keys.len(),
            kv == pairs_view(keys@),
            pairs_view(out@) == sort_by_name(message_dbs(kv.take(i as int))),
        decreases keys.len() - i,
    {
        assert(kv.take(i + 1).drop_last() == kv.take(i as int));
        assert(kv.take(i + 1).last() == kv[i as int]);
        let name = chars_of(keys[i].0.as_str());
        let p1 = chars_of("message_");
        let p2 = chars_of(".db");
        let p3 = chars_of("fts");
        let p4 = chars_of("resource");
        if crate::text::starts_with(name.as_slice(), p1.as_slice()) && ends_with(
            name.as_slice(),
            p2.as_slice(),
        ) && !contains(name.as_slice(), p3.as_slice()) && !contains(name.as_slice(), p4.as_slice()) {
            let entry = (keys[i].0.clone(), keys[i].1.clone());
            let ghost before = pairs_view(out@);
            assert(message_dbs(kv.take(i + 1)) =~= message_dbs(kv.take(i as int)).push(kv[i as int]));
            assert(message_dbs(kv.take(i as int)).push(kv[i as int]).drop_last() =~= message_dbs(kv.take(i as int)));
            assert(sort_by_name(message_dbs(kv.take(i as int)).push(kv[i as int])) == insert_sorted(
                sort_by_name(message_dbs(kv.take(i as int))),
                kv[i as int],
            ));
            insert_sorted_exec(&mut out, entry);
        } else {
            assert(message_dbs(kv.take(i + 1)) =~= message_dbs(kv.take(i as int)));
        }
        i += 1;
    }
    assert(kv.take(keys.len() as int) == kv);
    out
}

/// The voice databases among the entries, in their order.
pub open spec fn media_dbs(s: Seq<(Seq<char>, Seq<char>)>) -> Seq<(Seq<char>, Seq<char>)>
    decreases s.len(),
{
    if s.len() == 0 {
        Seq::empty()
    } else {
        media_dbs(s.drop_last()) + if crate::media::is_media_db(s.last().0) {
            seq![s.last()]
        } else {
            Seq::empty()
        }
    }
}

/// The voice databases (`media_*.db`) of a list of decrypted-database keys,
/// sorted by name: the order in which they are searched for a voice message.
pub fn media_db_candidates(keys: &Vec<(String, String)>) -> (r: Vec<(String, String)>)
    ensures
        pairs_view(r@) == sort_by_name(media_dbs(pairs_view(keys@))),
{
    let ghost kv = pairs_view(keys@);
    let mut out: Vec<(String, String)> = Vec::new();
    let mut i: usize = 0;
    while i < keys.len()
        invariant
            i <= keys.len(),
            kv == pairs_view(keys@),
            pairs_view(out@) == sort_by_name(media_dbs(kv.take(i as int))),
        decreases keys.len() - i,
    {
        assert(kv.take(i + 1).drop_last() == kv.take(i as int));
        assert(kv.take(i + 1).last() == kv[i as int]);
        let name = chars_of(keys[i].0.as_str());
        let p1 = chars_of("media_");
        let p2 = chars_of(".db");
        if crate::text::starts_with(name.as_slice(), p1.as_slice()) && ends_with(name.as_slice(), p2.as_slice()) {
            let entry = (keys[i].0.clone(), keys[i].1.clone());
            assert(media_dbs(kv.take(i + 1)) =~= media_dbs(kv.take(i as int)).push(kv[i as int]));
            assert(media_dbs(kv.take(i as int)).push(kv[i as int]).drop_last() =~= media_dbs(kv.take(i as int)));
            assert(sort_by_name(media_dbs(kv.take(i as int)).push(kv[i as int])) == insert_sorted(
                sort_by_name(media_dbs(kv.take(i as int))),
                kv[i as int],
            ));
            insert_sorted_exec(&mut out, entry);
        } else {
            assert(media_dbs(kv.take(i + 1)) =~= media_dbs(kv.take(i as int)));
        }
        i += 1;
    }
    assert(kv.take(keys.len() as int) == kv);
    out
}

/// The first candidate whose database holds the chat's table.
pub open spec fn first_with_table(c: Seq<(Seq<char>, Seq<char>)>, has_table: Seq<bool>, k: int) -> Option<(Seq<char>, Seq<char>)>
    decreases c.len() - k,
{
    if k < 0 || k >= c.len() || k >= has_table.len() {
        None
    } else if has_table[k] {
        Some(c[k])
    } else {
        first_with_table(c, has_table, k + 1)
    }
}

/// Find which message database holds a chat: the first of the candidates
/// (in their search order) whose `has_table` flag says it holds the chat's
/// message table; returns its name and key.
pub fn find_message_db(candidates: &Vec<(String, String)>, has_table: &Vec<bool>) -> (r: Option<(String, String)>)
    ensures
        match r {
            Some(p) => first_with_table(pairs_view(candidates@), has_table@, 0) == Some((p.0@, p.1@)),
            None => first_with_table(pairs_view(candidates@), has_table@, 0) is None,
        },
{
    let ghost cv = pairs_view(candidates@);
    let mut k: usize = 0;
    while k < candidates.len() && k < has_table.len()
        invariant
            k <= candidates.len(),
            cv == pairs_view(candidates@),
            first_with_table(cv, has_table@, 0) == first_with_table(cv, has_table@, k as int),
        decreases candidates.len() - k,
    {
        if has_table[k] {
            return Some((candidates[k].0.clone(), candidates[k].1.clone()));
        }
        k += 1;
    }
    None
}

/// Over the first `n` (pid, open-descriptor count) pairs: the first pid with
/// the most descriptors, among those with at least one, and that count.
pub open spec fn busiest_upto(c: Seq<(i64, usize)>, n: int) -> (Option<i64>, nat)
    decreases n,
{
    if n <= 0 {
        (None, 0)
    } else {
        let prev = busiest_upto(c, n - 1);
        if c[n - 1].1 > prev.1 {
            (Some(c[n - 1].0), c[n - 1].1 as nat)
        } else {
            prev
        }
    }
}

/// The WeChat process among the candidates (pid, open-descriptor count): the
/// first with the most open descriptors; none when no candidate has any.
pub fn busiest_pid(candidates: &Vec<(i64, usize)>) -> (r: Option<i64>)
    ensures
        r == busiest_upto(candidates@, candidates@.len() as int).0,
{
    let mut best: Option<i64> = None;
    let mut best_count: usize = 0;
    let mut i: usize = 0;
    while i < candidates.len()
        invariant
            i <= candidates.len(),
            (best, best_count as nat) == busiest_upto(candidates@, i as int),
        decreases candidates.len() - i,
    {
        let (pid, count) = candidates[i];
        if count > best_count {
            best = Some(pid);
            best_count = count;
        }
        i += 1;
    }
    best
}

} // verus!
