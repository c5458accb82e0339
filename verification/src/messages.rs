//! Message content: the XML snippets WeChat stores, their display text,
//! reply and mention information, and decoding of stored message bodies.
use vstd::prelude::*;
use vstd::string::StringSliceAdditionalSpecFns;
use crate::text::{
    append_chars, chars_of, contains, contains_spec, ends_with, ends_with_spec, find, find_from,
    find_from_spec, find_spec, lemma_find_from, slice_chars, starts_with, starts_with_spec, trim,
    trim_spec,
};

verus! {

// ============================================
// XML snippets
// ============================================

/// The trimmed text after the first `pat` up to the next `"`; none if
/// either is missing or the text is blank.
pub open spec fn attr_after(xml: Seq<char>, pat: Seq<char>) -> Option<Seq<char>> {
    match find_spec(xml, pat) {
        None => None,
        Some(p) => {
            let start = p + pat.len();
            match find_from_spec(xml, seq!['"'], start) {
                None => None,
                Some(end) => {
                    let val = trim_spec(xml.subrange(start, end));
                    if val.len() == 0 {
                        None
                    } else {
                        Some(val)
                    }
                },
            }
        },
    }
}

/// The value of the first `attr="..."` in a snippet, trimmed; none if blank.
pub open spec fn xml_attr_spec(xml: Seq<char>, attr: Seq<char>) -> Option<Seq<char>> {
    attr_after(xml, attr + "=\""@)
}

/// The value of the first ` attr="..."` (with a space before the name, so
/// `length` does not match `rawlength`), trimmed; none if blank.
pub open spec fn video_attr_spec(xml: Seq<char>, attr: Seq<char>) -> Option<Seq<char>> {
    attr_after(xml, " "@ + attr + "=\""@)
}

fn attr_after_exec(xml: &[char], pat: &[char]) -> (r: Option<Vec<char>>)
    ensures
        match r {
            Some(v) => attr_after(xml@, pat@) == Some(v@),
            None => attr_after(xml@, pat@) is None,
        },
{
    let p = match find(xml, pat) {
        Some(p) => p,
        None => return None,
    };
    proof {
        lemma_find_from(xml@, pat@, 0);
    }
    let start = p + pat.len();
    let quote: [char; 1] = ['"'];
    assert(quote@ =~= seq!['"']);
    let end = match find_from(xml, quote.as_slice(), start) {
        Some(e) => e,
        None => return None,
    };
    proof {
        lemma_find_from(xml@, seq!['"'], start as int);
    }
    let raw = slice_chars(xml, start, end);
    let val = trim(raw.as_slice());
    if val.len() == 0 {
        None
    } else {
        Some(val)
    }
}

/// Extract an XML attribute value: `attr="value"`.
pub fn extract_xml_attr(xml: &str, attr: &str) -> (r: Option<String>)
    ensures
        match r {
            Some(v) => xml_attr_spec(xml@, attr@) == Some(v@),
            None => xml_attr_spec(xml@, attr@) is None,
        },
{
    let x = chars_of(xml);
    let mut pat = chars_of(attr);
    pat.push('=');
    pat.push('"');
    proof {
        reveal_strlit("=\"");
    }
    assert(pat@ =~= attr@ + "=\""@);
    match attr_after_exec(x.as_slice(), pat.as_slice()) {
        Some(v) => Some(crate::text::string_of(v.as_slice())),
        None => None,
    }
}

/// Extract an exact video XML attribute without matching `rawlength`/`rawmd5`.
pub fn video_attr(xml: &str, attr: &str) -> (r: Option<String>)
    ensures
        match r {
            Some(v) => video_attr_spec(xml@, attr@) == Some(v@),
            None => video_attr_spec(xml@, attr@) is None,
        },
{
    let x = chars_of(xml);
    let mut pat: Vec<char> = Vec::new();
    pat.push(' ');
    let a = chars_of(attr);
    append_chars(&mut pat, a.as_slice());
    pat.push('=');
    pat.push('"');
    proof {
        reveal_strlit("=\"");
        reveal_strlit(" ");
    }
    assert(pat@ =~= " "@ + attr@ + "=\""@);
    match attr_after_exec(x.as_slice(), pat.as_slice()) {
        Some(v) => Some(crate::text::string_of(v.as_slice())),
        None => None,
    }
}

pub open spec fn cdata_open() -> Seq<char> {
    "<![CDATA["@
}

pub open spec fn cdata_close() -> Seq<char> {
    "]]>"@
}

/// A value with its `<![CDATA[...]]>` wrapper removed.
pub open spec fn strip_cdata(val: Seq<char>) -> Seq<char> {
    if starts_with_spec(val, cdata_open()) && ends_with_spec(val, cdata_close()) {
        val.subrange(9, val.len() - 3)
    } else {
        val
    }
}

/// The trimmed text between the first `<tag>` and the next `</tag>`, its CDATA
/// wrapper removed; none if either is missing or the text is empty.
pub open spec fn xml_tag_spec(xml: Seq<char>, tag: Seq<char>) -> Option<Seq<char>> {
    let open = "<"@ + tag + ">"@;
    let close = "</"@ + tag + ">"@;
    match find_spec(xml, open) {
        None => None,
        Some(p) => {
            let start = p + open.len();
            match find_from_spec(xml, close, start) {
                None => None,
                Some(end) => {
                    let val = strip_cdata(trim_spec(xml.subrange(start, end)));
                    if val.len() == 0 {
                        None
                    } else {
                        Some(val)
                    }
                },
            }
        },
    }
}

proof fn lemma_cdata_length(val: Seq<char>)
    requires
        starts_with_spec(val, cdata_open()),
        ends_with_spec(val, cdata_close()),
    ensures
        val.len() >= 12,
{
    reveal_strlit("<![CDATA[");
    reveal_strlit("]]>");
    if val.len() < 12 {
        assert(val.take(9)[val.len() - 3 - 0] == val[val.len() - 3]);
        assert(val.skip(val.len() - 3)[0] == val[val.len() - 3]);
        assert(val[val.len() - 3] == ']');
    }
}

fn tag_pattern(prefix: &str, tag: &[char]) -> (r: Vec<char>)
    ensures
        r@ == prefix@ + tag@ + ">"@,
{
    let mut v = chars_of(prefix);
    append_chars(&mut v, tag);
    v.push('>');
    proof {
        reveal_strlit(">");
    }
    assert(v@ =~= prefix@ + tag@ + ">"@);
    v
}

/// The text between XML tags, on characters.
pub fn xml_tag_chars(xml: &[char], tag: &[char]) -> (r: Option<Vec<char>>)
    ensures
        match r {
            Some(v) => xml_tag_spec(xml@, tag@) == Some(v@),
            None => xml_tag_spec(xml@, tag@) is None,
        },
{
    let open = tag_pattern("<", tag);
    let close = tag_pattern("</", tag);
    let p = match find(xml, open.as_slice()) {
        Some(p) => p,
        None => return None,
    };
    proof {
        lemma_find_from(xml@, open@, 0);
    }
    let start = p + open.len();
    let end = match find_from(xml, close.as_slice(), start) {
        Some(e) => e,
        None => return None,
    };
    proof {
        lemma_find_from(xml@, close@, start as int);
    }
    let raw = slice_chars(xml, start, end);
    let val = trim(raw.as_slice());
    let co = chars_of("<![CDATA[");
    let cc = chars_of("]]>");
    let stripped = if starts_with(val.as_slice(), co.as_slice()) && ends_with(
        val.as_slice(),
        cc.as_slice(),
    ) {
        proof {
            lemma_cdata_length(val@);
        }
        slice_chars(val.as_slice(), 9, val.len() - 3)
    } else {
        val
    };
    if stripped.len() == 0 {
        None
    } else {
        Some(stripped)
    }
}

/// Extract the text between XML tags: `<tag>text</tag>`, also inside CDATA.
pub fn extract_xml_tag(xml: &str, tag: &str) -> (r: Option<String>)
    ensures
        match r {
            Some(v) => xml_tag_spec(xml@, tag@) == Some(v@),
            None => xml_tag_spec(xml@, tag@) is None,
        },
{
    let x = chars_of(xml);
    let t = chars_of(tag);
    match xml_tag_chars(x.as_slice(), t.as_slice()) {
        Some(v) => Some(crate::text::string_of(v.as_slice())),
        None => None,
    }
}

// ============================================
// Group messages
// ============================================

/// A group message's sender and body: `sender:\nbody` when the sender prefix
/// is shorter than 80 bytes, else no sender and the whole content.
pub open spec fn group_sender_spec(content: Seq<char>) -> (Option<Seq<char>>, Seq<char>) {
    match find_spec(content, ":\n"@) {
        Some(k) => if crate::text::utf8_len(content.take(k)) < 80 {
            (Some(content.take(k)), content.skip(k + 2))
        } else {
            (None, content)
        },
        None => (None, content),
    }
}

/// Split a group message into its sender and body.
pub fn extract_group_sender(content: &str) -> (r: (Option<String>, String))
    ensures
        (crate::types::opt_str_view(r.0), r.1@) == group_sender_spec(content@),
{
    let c = chars_of(content);
    let sep = chars_of(":\n");
    proof {
        reveal_strlit(":\n");
    }
    match find(c.as_slice(), sep.as_slice()) {
        Some(k) => {
            proof {
                lemma_find_from(c@, sep@, 0);
            }
            if crate::text::utf8_len_prefix(c.as_slice(), k) < 80 {
                let sender = slice_chars(c.as_slice(), 0, k);
                let body = slice_chars(c.as_slice(), k + 2, c.len());
                assert(sender@ =~= c@.take(k as int));
                assert(body@ =~= c@.skip(k + 2));
                return (
                    Some(crate::text::string_of(sender.as_slice())),
                    crate::text::string_of(body.as_slice()),
                );
            }
            (None, crate::text::string_of(c.as_slice()))
        },
        None => (None, crate::text::string_of(c.as_slice())),
    }
}

#[verifier::rlimit(30)]
proof fn lemma_first_separator(sender: Seq<char>, body: Seq<char>)
    requires
        !crate::text::contains_spec(sender, ":\n"@),
    ensures
        find_spec(sender + ":\n"@ + body, ":\n"@) == Some(sender.len() as int),
        (sender + ":\n"@ + body).take(sender.len() as int) == sender,
        (sender + ":\n"@ + body).skip(sender.len() as int + 2) == body,
{
    reveal_strlit(":\n");
    let pat = ":\n"@;
    let c = sender + pat + body;
    let l = sender.len() as int;
    lemma_find_from(sender, pat, 0);
    lemma_find_from(c, pat, 0);
    assert(c.subrange(l, l + 2) =~= pat);
    assert(crate::text::matches_at(c, pat, l));
    match find_spec(c, pat) {
        Some(i) => {
            if i < l {
                if i + 2 <= l {
                    assert(c.subrange(i, i + 2) =~= sender.subrange(i, i + 2));
                    assert(crate::text::matches_at(sender, pat, i));
                } else {
                    assert(c.subrange(i, i + 2)[1] == c[l]);
                    assert(c[l] == ':');
                }
            }
            assert(i == l);
        },
        None => {},
    }
    assert(c.take(l) =~= sender);
    assert(c.skip(l + 2) =~= body);
}

/// A group message `sender:\nbody`, whose sender holds no `:\n` and is
/// under 80 bytes, is split into that sender and that body.
pub proof fn lemma_group_sender_splits(sender: Seq<char>, body: Seq<char>)
    requires
        !crate::text::contains_spec(sender, ":\n"@),
        crate::text::utf8_len(sender) < 80,
    ensures
        group_sender_spec(sender + ":\n"@ + body) == (Some(sender), body),
{
    lemma_first_separator(sender, body);
}

/// A prefix of 80 bytes or more before the first `:\n` is no sender: the
/// whole content is the body.
pub proof fn lemma_long_prefix_is_no_sender(sender: Seq<char>, body: Seq<char>)
    requires
        !crate::text::contains_spec(sender, ":\n"@),
        crate::text::utf8_len(sender) >= 80,
    ensures
        group_sender_spec(sender + ":\n"@ + body) == (None::<Seq<char>>, sender + ":\n"@ + body),
{
    lemma_first_separator(sender, body);
}

/// Content without `:\n` has no sender and is its own body.
pub proof fn lemma_no_separator_no_sender(content: Seq<char>)
    requires
        !crate::text::contains_spec(content, ":\n"@),
    ensures
        group_sender_spec(content) == (None::<Seq<char>>, content),
{
}

// ============================================
// Mentions
// ============================================

/// One of the comma-separated ids of `<atuserlist>`, trimmed, is non-empty
/// and a prefix of the account directory.
pub open spec fn mentioned_spec(source: Seq<char>, account_dir: Seq<char>) -> bool {
    match xml_tag_spec(source, "atuserlist"@) {
        None => false,
        Some(list) => list_names_account(list, account_dir),
    }
}

/// Some id of a comma-separated list names the account.
pub open spec fn list_names_account(list: Seq<char>, account_dir: Seq<char>) -> bool {
    exists|i: int|
        0 <= i < crate::text::split_spec(list, ',').len() && #[trigger] names_account(
            account_dir,
            crate::text::split_spec(list, ',')[i],
        )
}

/// An id from a mention list, trimmed, is non-empty and a prefix of the
/// account directory.
pub open spec fn names_account(account_dir: Seq<char>, part: Seq<char>) -> bool {
    trim_spec(part).len() > 0 && starts_with_spec(account_dir, trim_spec(part))
}

/// Whether the message's source XML @-mentions the logged-in account.
pub fn check_is_mentioned(source: &str, account_dir: &str) -> (r: bool)
    ensures
        r == mentioned_spec(source@, account_dir@),
{
    let list = match extract_xml_tag(source, "atuserlist") {
        Some(l) => l,
        None => return false,
    };
    let lc = chars_of(list.as_str());
    let acct = chars_of(account_dir);
    let parts = crate::text::split_char(lc.as_slice(), ',');
    let ghost ps = crate::text::vecs_view(parts@);
    let mut i: usize = 0;
    while i < parts.len()
        invariant
            i <= parts.len(),
            ps == crate::text::vecs_view(parts@),
            ps == crate::text::split_spec(lc@, ','),
            lc@ == list@,
            acct@ == account_dir@,
            xml_tag_spec(source@, "atuserlist"@) == Some(list@),
            forall|j: int| 0 <= j < i ==> !#[trigger] names_account(account_dir@, ps[j]),
        decreases parts.len() - i,
    {
        let w = trim(parts[i].as_slice());
        assert(ps[i as int] == parts@[i as int]@);
        if w.len() > 0 && starts_with(acct.as_slice(), w.as_slice()) {
            assert(names_account(account_dir@, crate::text::split_spec(list@, ',')[i as int]));
            assert(list_names_account(list@, account_dir@));
            return true;
        }
        i += 1;
    }
    false
}

} // verus!

verus! {

// ============================================
// Stored bodies
// ============================================

/// The chat's message table: `Msg_` and the MD5 of its username in hex.
pub open spec fn msg_table_spec(chat_id: &str) -> Seq<char> {
    "Msg_"@ + crate::hex::hex_encode_spec(crate::codec::md5_of(chat_id.spec_bytes()))
}

/// The name of a chat's message table.
pub fn get_msg_table_name(chat_id: &str) -> (r: String)
    ensures
        r@ == msg_table_spec(chat_id),
{
    let digest = crate::codec::md5_digest(chat_id.as_bytes());
    let hex = crate::hex::hex_encode(digest.as_slice());
    let hc = chars_of(hex.as_str());
    let mut out = "Msg_".to_owned();
    let mut i: usize = 0;
    while i < hc.len()
        invariant
            i <= hc.len(),
            hc@ == hex@,
            out@ == "Msg_"@ + hc@.take(i as int),
        decreases hc.len() - i,
    {
        out.push(hc[i]);
        i += 1;
        assert(hc@.take(i as int) == hc@.take(i - 1).push(hc@[i - 1]));
    }
    assert(hc@.take(hc.len() as int) == hc@);
    out
}

/// The hex text of the zstd frame magic.
pub open spec fn zstd_magic() -> Seq<u8> {
    seq![0x32u8, 0x38, 0x62, 0x35, 0x32, 0x66, 0x66, 0x64]
}

pub open spec fn ascii_lower(b: u8) -> u8 {
    if 0x41 <= b <= 0x5a {
        (b + 32) as u8
    } else {
        b
    }
}

/// Hex text that starts with the zstd magic, in either case.
pub open spec fn zstd_prefixed(hex: Seq<u8>) -> bool {
    hex.len() >= 8 && forall|i: int| 0 <= i < 8 ==> ascii_lower(#[trigger] hex[i]) == zstd_magic()[i]
}

/// A stored body as text: hex-decoded, decompressed when flagged and framed
/// as zstd, then decoded as lossy UTF-8; empty when the hex is empty or bad.
pub open spec fn decoded_content(hex: Seq<u8>, compressed: bool) -> Seq<char> {
    if hex.len() == 0 {
        Seq::empty()
    } else {
        match crate::hex::hex_decode_spec(hex) {
            None => Seq::empty(),
            Some(bytes) => if compressed && zstd_prefixed(hex) {
                match crate::codec::zstd_decoded(bytes) {
                    Some(d) => crate::codec::utf8_lossy(d),
                    None => "[compressed content - decompression failed]"@,
                }
            } else {
                crate::codec::utf8_lossy(bytes)
            },
        }
    }
}

fn zstd_prefixed_exec(hex: &[u8]) -> (r: bool)
    ensures
        r == zstd_prefixed(hex@),
{
    if hex.len() < 8 {
        return false;
    }
    let magic: [u8; 8] = [0x32, 0x38, 0x62, 0x35, 0x32, 0x66, 0x66, 0x64];
    assert(magic@ =~= zstd_magic());
    let mut i: usize = 0;
    while i < 8
        invariant
            i <= 8,
            hex.len() >= 8,
            magic@ == zstd_magic(),
            forall|j: int| 0 <= j < i ==> ascii_lower(#[trigger] hex@[j]) == zstd_magic()[j],
        decreases 8 - i,
    {
        let b = hex[i];
        let l: u8 = if 0x41 <= b && b <= 0x5a {
            b + 32
        } else {
            b
        };
        if l != magic[i] {
            assert(ascii_lower(hex@[i as int]) != zstd_magic()[i as int]);
            return false;
        }
        i += 1;
    }
    true
}

/// Decode a stored message body: hex, then zstd when flagged, then UTF-8.
pub fn decode_message_content(hex: &str, is_compressed: bool) -> (r: String)
    requires
        !crate::hex::hex_decode_panics(hex.spec_bytes()),
    ensures
        r@ == decoded_content(hex.spec_bytes(), is_compressed),
{
    let hb = hex.as_bytes();
    if hb.len() == 0 {
        return String::new();
    }
    let bytes = match crate::hex::hex_decode(hex) {
        Some(b) => b,
        None => return String::new(),
    };
    if is_compressed && zstd_prefixed_exec(hb) {
        match crate::codec::zstd_decode(bytes.as_slice()) {
            Some(d) => crate::codec::from_utf8_lossy(d.as_slice()),
            None => "[compressed content - decompression failed]".to_owned(),
        }
    } else {
        crate::codec::from_utf8_lossy(bytes.as_slice())
    }
}

// ============================================
// Replies
// ============================================

/// XML entities unescaped: `&lt;`, `&gt;`, `&amp;`, `&quot;` in that order.
pub open spec fn unescape_spec(s: Seq<char>) -> Seq<char> {
    crate::text::replace_spec(
        crate::text::replace_spec(
            crate::text::replace_spec(crate::text::replace_spec(s, "&lt;"@, "<"@), "&gt;"@, ">"@),
            "&amp;"@,
            "&"@,
        ),
        "&quot;"@,
        "\""@,
    )
}

fn replace_lit(s: &[char], pat: &str, rep: &str) -> (r: Vec<char>)
    requires
        pat@.len() > 0,
    ensures
        r@ == crate::text::replace_spec(s@, pat@, rep@),
{
    let p = chars_of(pat);
    let q = chars_of(rep);
    crate::text::replace_all(s, p.as_slice(), q.as_slice())
}

pub fn unescape(s: &[char]) -> (r: Vec<char>)
    ensures
        r@ == unescape_spec(s@),
{
    proof {
        reveal_strlit("&lt;");
        reveal_strlit("&gt;");
        reveal_strlit("&amp;");
        reveal_strlit("&quot;");
    }
    let a = replace_lit(s, "&lt;", "<");
    let b = replace_lit(a.as_slice(), "&gt;", ">");
    let c = replace_lit(b.as_slice(), "&amp;", "&");
    replace_lit(c.as_slice(), "&quot;", "\"")
}

pub open spec fn is_appmsg(msg_type: i32) -> bool {
    msg_type & 0x7FFF_FFFFi32 == 49
}

/// Slicing out the `<refermsg>` block would panic: its closing tag ends
/// before the opening tag starts.
pub open spec fn reply_panics(content: Seq<char>, msg_type: i32) -> bool {
    &&& is_appmsg(msg_type)
    &&& contains_spec(content, "<refermsg>"@)
    &&& find_spec(content, "</refermsg>"@) matches Some(p) && p + 11 < find_spec(content, "<refermsg>"@)->0
}

/// Whether reading the quoted block of `content` would slice it backwards:
/// an appmsg whose first `</refermsg>` closes before its `<refermsg>` opens.
pub fn reply_would_panic(content: &str, msg_type: i32) -> (r: bool)
    ensures
        r == reply_panics(content@, msg_type),
{
    let c = chars_of(content);
    if (msg_type & 0x7FFF_FFFF) != 49 || !has_lit(c.as_slice(), "<refermsg>") {
        return false;
    }
    let open = chars_of("<refermsg>");
    let close = chars_of("</refermsg>");
    match (find(c.as_slice(), open.as_slice()), find(c.as_slice(), close.as_slice())) {
        (Some(s), Some(p)) => p < usize::MAX - 11 && p + 11 < s,
        _ => false,
    }
}

/// The quoted message of an appmsg with a `<refermsg>` block: its sender and
/// its content, unescaped and reduced to its title when it is itself XML.
pub open spec fn reply_spec(content: Seq<char>, msg_type: i32) -> Option<(Option<Seq<char>>, Seq<char>)> {
    if !is_appmsg(msg_type) || !contains_spec(content, "<refermsg>"@) {
        None
    } else {
        match find_spec(content, "</refermsg>"@) {
            None => None,
            Some(p) => {
                let block = content.subrange(find_spec(content, "<refermsg>"@)->0, p + 11);
                let sender = xml_tag_spec(block, "displayname"@);
                let raw = match xml_tag_spec(block, "content"@) {
                    Some(c) => c,
                    None => Seq::empty(),
                };
                let un = unescape_spec(raw);
                let clean = if contains_spec(un, "<msg>"@) {
                    match xml_tag_spec(un, "title"@) {
                        Some(t) => t,
                        None => un,
                    }
                } else {
                    un
                };
                Some((sender, clean))
            },
        }
    }
}

pub open spec fn reply_view(r: Option<crate::types::ReplyInfo>) -> Option<(Option<Seq<char>>, Seq<char>)> {
    match r {
        Some(i) => Some((crate::types::opt_str_view(i.sender), i.content@)),
        None => None,
    }
}

fn tag_lit(xml: &[char], tag: &str) -> (r: Option<Vec<char>>)
    ensures
        match r {
            Some(v) => xml_tag_spec(xml@, tag@) == Some(v@),
            None => xml_tag_spec(xml@, tag@) is None,
        },
{
    let t = chars_of(tag);
    xml_tag_chars(xml, t.as_slice())
}

fn has_lit(h: &[char], lit: &str) -> (r: bool)
    ensures
        r == contains_spec(h@, lit@),
{
    let n = chars_of(lit);
    contains(h, n.as_slice())
}

/// Extract the quoted message of a reply (an appmsg with `<refermsg>`).
pub fn extract_reply_info(content: &str, msg_type: i32) -> (r: Option<crate::types::ReplyInfo>)
    requires
        !reply_panics(content@, msg_type),
    ensures
        reply_view(r) == reply_spec(content@, msg_type),
{
    let c = chars_of(content);
    if (msg_type & 0x7FFF_FFFF) != 49 || !has_lit(c.as_slice(), "<refermsg>") {
        return None;
    }
    let open = chars_of("<refermsg>");
    let close = chars_of("</refermsg>");
    proof {
        reveal_strlit("</refermsg>");
    }
    let s = match find(c.as_slice(), open.as_slice()) {
        Some(s) => s,
        None => return None,
    };
    let p = match find(c.as_slice(), close.as_slice()) {
        Some(p) => p,
        None => return None,
    };
    let block = slice_chars(c.as_slice(), s, p + 11);
    let sender = match tag_lit(block.as_slice(), "displayname") {
        Some(v) => Some(crate::text::string_of(v.as_slice())),
        None => None,
    };
    let raw: Vec<char> = match tag_lit(block.as_slice(), "content") {
        Some(v) => v,
        None => Vec::new(),
    };
    let un = unescape(raw.as_slice());
    let clean = if has_lit(un.as_slice(), "<msg>") {
        match tag_lit(un.as_slice(), "title") {
            Some(t) => t,
            None => un,
        }
    } else {
        un
    };
    Some(crate::types::ReplyInfo { sender, content: crate::text::string_of(clean.as_slice()) })
}

} // verus!

verus! {

// ============================================
// Display text
// ============================================

pub open spec fn or_else(a: Option<Seq<char>>, b: Option<Seq<char>>) -> Option<Seq<char>> {
    if a is Some {
        a
    } else {
        b
    }
}

pub open spec fn unwrap_or(a: Option<Seq<char>>, d: Seq<char>) -> Seq<char> {
    match a {
        Some(v) => v,
        None => d,
    }
}

/// One line of a forwarded chat history: `sender: title`, or the title alone.
pub open spec fn item_line(item: Seq<char>) -> Seq<char> {
    let sender = unwrap_or(or_else(xml_tag_spec(item, "sourcename"@), xml_tag_spec(item, "displayname"@)), Seq::empty());
    let title = unwrap_or(or_else(xml_tag_spec(item, "datatitle"@), xml_tag_spec(item, "datadesc"@)), "[media]"@);
    if sender.len() > 0 {
        sender + ": "@ + title
    } else {
        title
    }
}

/// The lines of the `<dataitem>` blocks of a record, from `from` on.
pub open spec fn record_items(record: Seq<char>, from: int) -> Seq<Seq<char>>
    decreases record.len() - from,
{
    if from < 0 || from > record.len() {
        Seq::empty()
    } else {
        match find_from_spec(record, "<dataitem"@, from) {
            None => Seq::empty(),
            Some(st) => match find_from_spec(record, "</dataitem>"@, st) {
                None => Seq::empty(),
                Some(en) => {
                    proof {
                        lemma_find_from(record, "<dataitem"@, from);
                        lemma_find_from(record, "</dataitem>"@, st);
                        reveal_strlit("</dataitem>");
                    }
                    seq![item_line(record.subrange(st, en + 11))] + record_items(record, en + 11)
                },
            },
        }
    }
}

/// The summary of a link share: title, description and address.
pub open spec fn link_text(c: Seq<char>, title: Seq<char>) -> Seq<char> {
    let parts = seq!["[Link] "@ + title] + (match xml_tag_spec(c, "des"@) {
        Some(d) => seq![d],
        None => Seq::empty(),
    }) + (match xml_tag_spec(c, "url"@) {
        Some(u) => seq![crate::text::replace_spec(u, "&amp;"@, "&"@)],
        None => Seq::empty(),
    });
    crate::text::join_spec(parts, "\n"@)
}

/// The summary of a forwarded chat history: its title and one line per item;
/// the title alone when no item was read.
pub open spec fn history_text(c: Seq<char>, title: Seq<char>) -> Seq<char> {
    let items = match xml_tag_spec(c, "recorditem"@) {
        Some(raw) => record_items(unescape_spec(raw), 0),
        None => Seq::empty(),
    };
    if items.len() == 0 {
        title
    } else {
        crate::text::join_spec(seq!["[Chat History] "@ + title] + items, "\n"@)
    }
}

/// The display text of a message: image XML dropped, an emoji shown by its
/// address, app messages summarised, anything else unchanged.
pub open spec fn clean_spec(c: Seq<char>, msg_type: i32) -> Seq<char> {
    let base = msg_type & 0x7FFF_FFFFi32;
    if base == 3 && contains_spec(c, "<img"@) {
        Seq::empty()
    } else if base == 47 && contains_spec(c, "<emoji"@) {
        match xml_attr_spec(c, "cdnurl"@) {
            Some(u) => if starts_with_spec(u, "http"@) {
                u
            } else {
                "[emoji]"@
            },
            None => "[emoji]"@,
        }
    } else if base == 49 && contains_spec(c, "<msg>"@) {
        let title = unwrap_or(xml_tag_spec(c, "title"@), Seq::empty());
        let kind = match xml_tag_spec(c, "type"@) {
            Some(t) => match crate::text::parse_int_spec(t, -0x8000_0000, 0x7fff_ffff) {
                Some(v) => v,
                None => 0,
            },
            None => 0,
        };
        if kind == 3 || kind == 4 || kind == 5 {
            link_text(c, title)
        } else if kind == 19 {
            history_text(c, title)
        } else if title.len() == 0 {
            c
        } else {
            title
        }
    } else {
        c
    }
}

fn or_else_exec(a: Option<Vec<char>>, b: Option<Vec<char>>) -> (r: Option<Vec<char>>)
    ensures
        match r {
            Some(v) => or_else(
                match a {
                    Some(x) => Some(x@),
                    None => None,
                },
                match b {
                    Some(x) => Some(x@),
                    None => None,
                },
            ) == Some(v@),
            None => a is None && b is None,
        },
{
    if a.is_some() {
        a
    } else {
        b
    }
}

fn item_line_exec(item: &[char]) -> (r: Vec<char>)
    ensures
        r@ == item_line(item@),
{
    let s1 = tag_lit(item, "sourcename");
    let s2 = tag_lit(item, "displayname");
    let sender: Vec<char> = match or_else_exec(s1, s2) {
        Some(v) => v,
        None => Vec::new(),
    };
    let t1 = tag_lit(item, "datatitle");
    let t2 = tag_lit(item, "datadesc");
    let title: Vec<char> = match or_else_exec(t1, t2) {
        Some(v) => v,
        None => chars_of("[media]"),
    };
    if sender.len() > 0 {
        let mut out = sender;
        let sep = chars_of(": ");
        append_chars(&mut out, sep.as_slice());
        append_chars(&mut out, title.as_slice());
        out
    } else {
        title
    }
}

fn record_items_exec(record: &[char]) -> (r: Vec<Vec<char>>)
    ensures
        crate::text::vecs_view(r@) == record_items(record@, 0),
{
    let open = chars_of("<dataitem");
    let close = chars_of("</dataitem>");
    proof {
        reveal_strlit("</dataitem>");
    }
    let mut out: Vec<Vec<char>> = Vec::new();
    let mut from: usize = 0;
    while from <= record.len()
        invariant
            from <= record.len() + 1,
            open@ == "<dataitem"@,
            close@ == "</dataitem>"@,
            close@.len() == 11,
            from <= record.len() ==> crate::text::vecs_view(out@) + record_items(record@, from as int)
                == record_items(record@, 0),
            from > record.len() ==> crate::text::vecs_view(out@) == record_items(record@, 0),
        decreases record.len() + 1 - from,
    {
        let st = match find_from(record, open.as_slice(), from) {
            Some(s) => s,
            None => {
                assert(crate::text::vecs_view(out@) =~= record_items(record@, 0));
                return out;
            },
        };
        let en = match find_from(record, close.as_slice(), st) {
            Some(e) => e,
            None => {
                assert(crate::text::vecs_view(out@) =~= record_items(record@, 0));
                return out;
            },
        };
        let item = slice_chars(record, st, en + 11);
        let line = item_line_exec(item.as_slice());
        let ghost before = crate::text::vecs_view(out@);
        out.push(line);
        assert(crate::text::vecs_view(out@) =~= before.push(line@));
        assert(before.push(line@) + record_items(record@, en + 11) =~= before + (seq![line@]
            + record_items(record@, en + 11)));
        from = en + 11;
    }
    out
}

fn prefixed(prefix: &str, rest: &[char]) -> (r: Vec<char>)
    ensures
        r@ == prefix@ + rest@,
{
    let mut v = chars_of(prefix);
    append_chars(&mut v, rest);
    v
}

/// Clean message content for display: drop image XML, show an emoji's
/// address, summarise app messages (links, forwarded chat histories).
pub fn clean_content(content: &str, msg_type: i32) -> (r: String)
    ensures
        r@ == clean_spec(content@, msg_type),
{
    let c = chars_of(content);
    let base = msg_type & 0x7FFF_FFFF;
    if base == 3 && has_lit(c.as_slice(), "<img") {
        return String::new();
    }
    if base == 47 && has_lit(c.as_slice(), "<emoji") {
        let http = chars_of("http");
        return match extract_xml_attr(content, "cdnurl") {
            Some(u) => {
                let uc = chars_of(u.as_str());
                if starts_with(uc.as_slice(), http.as_slice()) {
                    u
                } else {
                    "[emoji]".to_owned()
                }
            },
            None => "[emoji]".to_owned(),
        };
    }
    if base == 49 && has_lit(c.as_slice(), "<msg>") {
        let title: Vec<char> = match tag_lit(c.as_slice(), "title") {
            Some(t) => t,
            None => Vec::new(),
        };
        let kind: i128 = match tag_lit(c.as_slice(), "type") {
            Some(t) => match crate::text::parse_int(t.as_slice(), -0x8000_0000, 0x7fff_ffff) {
                Some(v) => v,
                None => 0,
            },
            None => 0,
        };
        let nl = chars_of("\n");
        if kind == 3 || kind == 4 || kind == 5 {
            let mut parts: Vec<Vec<char>> = Vec::new();
            parts.push(prefixed("[Link] ", title.as_slice()));
            let ghost p1 = crate::text::vecs_view(parts@);
            if let Some(d) = tag_lit(c.as_slice(), "des") {
                parts.push(d);
            }
            let ghost p2 = crate::text::vecs_view(parts@);
            if let Some(u) = tag_lit(c.as_slice(), "url") {
                proof {
                    reveal_strlit("&amp;");
                }
                parts.push(replace_lit(u.as_slice(), "&amp;", "&"));
            }
            assert(crate::text::vecs_view(parts@) =~= seq!["[Link] "@ + title@] + (match xml_tag_spec(
                c@,
                "des"@,
            ) {
                Some(d) => seq![d],
                None => Seq::empty(),
            }) + (match xml_tag_spec(c@, "url"@) {
                Some(u) => seq![crate::text::replace_spec(u, "&amp;"@, "&"@)],
                None => Seq::empty(),
            }));
            let j = crate::text::join(&parts, nl.as_slice());
            return crate::text::string_of(j.as_slice());
        }
        if kind == 19 {
            let items: Vec<Vec<char>> = match tag_lit(c.as_slice(), "recorditem") {
                Some(raw) => {
                    let rec = unescape(raw.as_slice());
                    record_items_exec(rec.as_slice())
                },
                None => {
                    let e: Vec<Vec<char>> = Vec::new();
                    assert(crate::text::vecs_view(e@) =~= Seq::<Seq<char>>::empty());
                    e
                },
            };
            if items.len() == 0 {
                return crate::text::string_of(title.as_slice());
            }
            let mut parts: Vec<Vec<char>> = Vec::new();
            parts.push(prefixed("[Chat History] ", title.as_slice()));
            let mut k: usize = 0;
            while k < items.len()
                invariant
                    k <= items.len(),
                    crate::text::vecs_view(parts@) == seq!["[Chat History] "@ + title@]
                        + crate::text::vecs_view(items@).take(k as int),
                decreases items.len() - k,
            {
                let copy = slice_chars(items[k].as_slice(), 0, items[k].len());
                assert(copy@ =~= items@[k as int]@);
                let ghost before = crate::text::vecs_view(parts@);
                parts.push(copy);
                assert(crate::text::vecs_view(parts@) =~= before.push(items@[k as int]@));
                k += 1;
                assert(crate::text::vecs_view(items@).take(k as int) =~= crate::text::vecs_view(items@).take(k - 1).push(items@[k - 1]@));
            }
            assert(crate::text::vecs_view(items@).take(items.len() as int) =~= crate::text::vecs_view(items@));
            let j = crate::text::join(&parts, nl.as_slice());
            return crate::text::string_of(j.as_slice());
        }
        if title.len() == 0 {
            return crate::text::string_of(c.as_slice());
        }
        return crate::text::string_of(title.as_slice());
    }
    crate::text::string_of(c.as_slice())
}

} // verus!

verus! {

// ============================================
// Message rows
// ============================================

/// One row of the message query, as the database returned it.
#[derive(Clone, Debug)]
pub struct MessageRow {
    pub local_id: Option<i64>,
    pub server_id: Option<i64>,
    pub local_type: Option<i64>,
    pub create_time: Option<i64>,
    pub hex_content: Option<String>,
    pub is_compressed: Option<i64>,
    pub hex_source: Option<String>,
    pub source_compressed: Option<i64>,
    pub sender_name: Option<String>,
}

pub open spec fn hex_bytes_of(s: Option<String>) -> Seq<u8> {
    match s {
        Some(v) => vstd::utf8::encode_utf8(v@),
        None => Seq::empty(),
    }
}

pub open spec fn flag_of(v: Option<i64>) -> bool {
    match v {
        Some(x) => x != 0,
        None => false,
    }
}

pub open spec fn row_type(row: MessageRow) -> i32 {
    match row.local_type {
        Some(t) => t as i32,
        None => 0,
    }
}

/// The message body of a row: decoded, its group sender prefix removed.
pub open spec fn row_body(row: MessageRow, is_group: bool) -> Seq<char> {
    let raw = decoded_content(hex_bytes_of(row.hex_content), flag_of(row.is_compressed));
    if is_group {
        group_sender_spec(raw).1
    } else {
        raw
    }
}

/// The sender's display name from a username-to-name list.
pub open spec fn lookup_name(names: Seq<(Seq<char>, Seq<char>)>, key: Seq<char>) -> Option<Seq<char>>
    decreases names.len(),
{
    if names.len() == 0 {
        None
    } else if names[0].0 == key {
        Some(names[0].1)
    } else {
        lookup_name(names.drop_first(), key)
    }
}

pub struct MessageSpec {
    pub local_id: i64,
    pub server_id: i64,
    pub chat_id: Seq<char>,
    pub sender: Option<Seq<char>>,
    pub sender_name: Option<Seq<char>>,
    pub msg_type: i32,
    pub content: Seq<char>,
    pub timestamp: Seq<char>,
    pub is_mentioned: Option<bool>,
    pub is_self: Option<bool>,
    pub reply: Option<(Option<Seq<char>>, Seq<char>)>,
}

pub open spec fn message_view(m: crate::types::Message) -> MessageSpec {
    MessageSpec {
        local_id: m.local_id,
        server_id: m.server_id,
        chat_id: m.chat_id@,
        sender: crate::types::opt_str_view(m.sender),
        sender_name: crate::types::opt_str_view(m.sender_name),
        msg_type: m.msg_type,
        content: m.content@,
        timestamp: m.timestamp@,
        is_mentioned: m.is_mentioned,
        is_self: m.is_self,
        reply: reply_view(m.reply),
    }
}

/// A row's message for a chat, seen from an account: none without a local id.
pub open spec fn row_message(
    row: MessageRow,
    chat_id: Seq<char>,
    account_dir: Seq<char>,
    names: Seq<(Seq<char>, Seq<char>)>,
) -> Option<MessageSpec> {
    let is_group = contains_spec(chat_id, "@chatroom"@);
    let msg_type = row_type(row);
    let body = row_body(row, is_group);
    let sender = match row.sender_name {
        Some(s) => if s@.len() > 0 {
            Some(s@)
        } else {
            None
        },
        None => None,
    };
    let from_source = match row.hex_source {
        Some(h) => h@.len() > 0 && mentioned_spec(
            decoded_content(vstd::utf8::encode_utf8(h@), flag_of(row.source_compressed)),
            account_dir,
        ),
        None => false,
    };
    let from_content = !from_source && is_appmsg(msg_type) && mentioned_spec(body, account_dir);
    match row.local_id {
        None => None,
        Some(local_id) => Some(
            MessageSpec {
                local_id,
                server_id: match row.server_id {
                    Some(v) => v,
                    None => 0,
                },
                chat_id,
                sender,
                sender_name: match sender {
                    Some(w) => lookup_name(names, w),
                    None => None,
                },
                msg_type,
                content: clean_spec(body, msg_type),
                timestamp: match row.create_time {
                    Some(t) => unwrap_or(crate::codec::rfc3339_of(t as int), Seq::empty()),
                    None => Seq::empty(),
                },
                is_mentioned: if is_group && (from_source || from_content) {
                    Some(true)
                } else {
                    None
                },
                is_self: match sender {
                    Some(w) => Some(starts_with_spec(account_dir, w)),
                    None => None,
                },
                reply: reply_spec(body, msg_type),
            },
        ),
    }
}

/// The decoding of a row does not panic: its hex texts split on character
/// boundaries, and a quoted block closes after it opens.
pub open spec fn row_decodes(row: MessageRow, chat_id: Seq<char>) -> bool {
    &&& !crate::hex::hex_decode_panics(hex_bytes_of(row.hex_content))
    &&& !crate::hex::hex_decode_panics(hex_bytes_of(row.hex_source))
    &&& !reply_panics(row_body(row, contains_spec(chat_id, "@chatroom"@)), row_type(row))
}

pub open spec fn names_view(v: Seq<(String, String)>) -> Seq<(Seq<char>, Seq<char>)> {
    v.map_values(|p: (String, String)| (p.0@, p.1@))
}

fn lookup_name_exec(names: &Vec<(String, String)>, key: &str) -> (r: Option<String>)
    ensures
        crate::types::opt_str_view(r) == lookup_name(names_view(names@), key@),
{
    let ghost nv = names_view(names@);
    assert(nv.skip(0) =~= nv);
    let mut i: usize = 0;
    while i < names.len()
        invariant
            i <= names.len(),
            nv == names_view(names@),
            lookup_name(nv, key@) == lookup_name(nv.skip(i as int), key@),
        decreases names.len() - i,
    {
        assert(nv.skip(i as int)[0] == nv[i as int]);
        assert(nv.skip(i as int).drop_first() =~= nv.skip(i + 1));
        if crate::text::str_eq(names[i].0.as_str(), key) {
            return Some(names[i].1.clone());
        }
        i += 1;
    }
    None
}

fn opt_str<'a>(s: &'a Option<String>) -> (r: &'a str)
    ensures
        r@ == match s {
            Some(v) => v@,
            None => Seq::<char>::empty(),
        },
{
    proof {
        reveal_strlit("");
    }
    match s {
        Some(v) => v.as_str(),
        None => "",
    }
}

/// Whether a row can be decoded for a chat without panicking
/// (see `row_decodes`); rows for which this is false are not decoded.
pub fn row_is_decodable(row: &MessageRow, chat_id: &str) -> (r: bool)
    ensures
        r == row_decodes(*row, chat_id@),
{
    proof {
        reveal_strlit("");
    }
    let hex = opt_str(&row.hex_content);
    let src = opt_str(&row.hex_source);
    if crate::hex::hex_decode_would_panic(hex) || crate::hex::hex_decode_would_panic(src) {
        return false;
    }
    let cc = chars_of(chat_id);
    let is_group = has_lit(cc.as_slice(), "@chatroom");
    let msg_type: i32 = match row.local_type {
        Some(t) => t as i32,
        None => 0,
    };
    let compressed = match row.is_compressed {
        Some(x) => x != 0,
        None => false,
    };
    let raw = decode_message_content(hex, compressed);
    let body: String = if is_group {
        extract_group_sender(raw.as_str()).1
    } else {
        raw
    };
    !reply_would_panic(body.as_str(), msg_type)
}

/// The message a row of the message query shows for a chat, seen from the
/// logged-in account: decoded body (without group sender prefix), cleaned
/// display text, reply, mention and self flags, sender display name.
pub fn message_from_row(
    row: &MessageRow,
    chat_id: &str,
    account_dir: &str,
    contact_names: &Vec<(String, String)>,
) -> (r: Option<crate::types::Message>)
    requires
        row_decodes(*row, chat_id@),
    ensures
        match r {
            Some(m) => row_message(*row, chat_id@, account_dir@, names_view(contact_names@)) == Some(
                message_view(m),
            ),
            None => row_message(*row, chat_id@, account_dir@, names_view(contact_names@)) is None,
        },
{
    proof {
        reveal_strlit("");
    }
    let local_id = match row.local_id {
        Some(v) => v,
        None => return None,
    };
    let cc = chars_of(chat_id);
    let is_group = has_lit(cc.as_slice(), "@chatroom");
    let msg_type: i32 = match row.local_type {
        Some(t) => t as i32,
        None => 0,
    };
    let hex = opt_str(&row.hex_content);
    let compressed = match row.is_compressed {
        Some(x) => x != 0,
        None => false,
    };
    let raw = decode_message_content(hex, compressed);
    let body: String = if is_group {
        extract_group_sender(raw.as_str()).1
    } else {
        raw
    };
    let sender: Option<String> = match &row.sender_name {
        Some(s) => if !s.as_str().is_empty() {
            Some(s.clone())
        } else {
            None
        },
        None => None,
    };
    let reply = extract_reply_info(body.as_str(), msg_type);
    let content = clean_content(body.as_str(), msg_type);
    let timestamp = match row.create_time {
        Some(t) => match crate::codec::timestamp_rfc3339(t) {
            Some(s) => s,
            None => String::new(),
        },
        None => String::new(),
    };
    let from_source = match &row.hex_source {
        Some(h) => if !h.as_str().is_empty() {
            let sc = match row.source_compressed {
                Some(x) => x != 0,
                None => false,
            };
            let src = decode_message_content(h.as_str(), sc);
            check_is_mentioned(src.as_str(), account_dir)
        } else {
            false
        },
        None => false,
    };
    let from_content = !from_source && (msg_type & 0x7FFF_FFFF) == 49 && check_is_mentioned(
        body.as_str(),
        account_dir,
    );
    let is_mentioned = if is_group && (from_source || from_content) {
        Some(true)
    } else {
        None
    };
    let acct = chars_of(account_dir);
    let is_self = match &sender {
        Some(w) => {
            let wc = chars_of(w.as_str());
            Some(starts_with(acct.as_slice(), wc.as_slice()))
        },
        None => None,
    };
    let sender_name = match &sender {
        Some(w) => lookup_name_exec(contact_names, w.as_str()),
        None => None,
    };
    Some(
        crate::types::Message {
            local_id,
            server_id: match row.server_id {
                Some(v) => v,
                None => 0,
            },
            chat_id: chat_id.to_owned(),
            sender,
            sender_name,
            msg_type,
            content,
            timestamp,
            is_mentioned,
            is_self,
            reply,
        },
    )
}

// ============================================
// Queries of a message page
// ============================================

/// The query that tells whether a message database holds a chat's table.
pub open spec fn table_exists_sql_spec(table: Seq<char>) -> Seq<char> {
    "SELECT name FROM sqlite_master WHERE type='table' AND name='"@ + table + "';"@
}

/// The query that tells whether a message database holds a table.
pub fn table_exists_sql(table: &str) -> (r: String)
    ensures
        r@ == table_exists_sql_spec(table@),
{
    let mut q = String::from_str("SELECT name FROM sqlite_master WHERE type='table' AND name='");
    crate::router::file_downloads::append_str(&mut q, table);
    crate::router::file_downloads::append_str(&mut q, "';");
    q
}

/// The query for one page of a chat's messages, newest first: ids, type,
/// time, content and source as hex with their compression flags, and the
/// sender's username.
pub open spec fn message_page_sql_spec(table: Seq<char>, limit: i64, offset: i64) -> Seq<char> {
    "SELECT m.local_id, m.server_id, m.local_type, m.create_time,\n                    hex(m.message_content) as hex_content,\n                    m.WCDB_CT_message_content as is_compressed,\n                    hex(m.source) as hex_source,\n                    m.WCDB_CT_source as source_compressed,\n                    n.user_name as sender_name\n             FROM \""@
        + table
        + "\" m\n             LEFT JOIN Name2Id n ON m.real_sender_id = n.rowid\n             ORDER BY m.create_time DESC\n             LIMIT "@
        + crate::text::signed_decimal(limit as int) + " OFFSET "@ + crate::text::signed_decimal(offset as int) + ";"@
}

/// The query for one page of messages of a chat table.
pub fn message_page_sql(table: &str, limit: i64, offset: i64) -> (r: String)
    ensures
        r@ == message_page_sql_spec(table@, limit, offset),
{
    let mut q = String::from_str(
        "SELECT m.local_id, m.server_id, m.local_type, m.create_time,\n                    hex(m.message_content) as hex_content,\n                    m.WCDB_CT_message_content as is_compressed,\n                    hex(m.source) as hex_source,\n                    m.WCDB_CT_source as source_compressed,\n                    n.user_name as sender_name\n             FROM \"",
    );
    crate::router::file_downloads::append_str(&mut q, table);
    crate::router::file_downloads::append_str(
        &mut q,
        "\" m\n             LEFT JOIN Name2Id n ON m.real_sender_id = n.rowid\n             ORDER BY m.create_time DESC\n             LIMIT ",
    );
    crate::text::push_signed_decimal(limit, &mut q);
    crate::router::file_downloads::append_str(&mut q, " OFFSET ");
    crate::text::push_signed_decimal(offset, &mut q);
    crate::router::file_downloads::append_str(&mut q, ";");
    q
}

/// The query for the names of the senders of a page.
pub open spec fn sender_names_sql_spec(senders: Seq<Seq<char>>) -> Seq<char> {
    "SELECT username, nick_name, remark FROM contact WHERE username IN ("@ + crate::chats::quoted_list(senders)
        + ");"@
}

/// The query that looks up the names of some senders.
pub fn sender_names_sql(senders: &Vec<String>) -> (r: String)
    ensures
        r@ == sender_names_sql_spec(crate::plans::strings_view(senders@)),
{
    let mut q = String::from_str("SELECT username, nick_name, remark FROM contact WHERE username IN (");
    let list = crate::chats::quote_usernames(senders.as_slice());
    crate::router::file_downloads::append_str(&mut q, list.as_str());
    crate::router::file_downloads::append_str(&mut q, ");");
    q
}

/// The distinct senders named by rows, in order of first appearance.
pub open spec fn senders_upto(rows: Seq<MessageRow>, n: int) -> Seq<Seq<char>>
    decreases n,
{
    if n <= 0 {
        Seq::empty()
    } else {
        let prev = senders_upto(rows, n - 1);
        match crate::chats::nonempty(rows[n - 1].sender_name) {
            Some(u) => if prev.contains(u) {
                prev
            } else {
                prev.push(u)
            },
            None => prev,
        }
    }
}

/// The distinct non-empty sender usernames of a page of rows.
pub fn distinct_senders(rows: &Vec<MessageRow>) -> (r: Vec<String>)
    ensures
        crate::plans::strings_view(r@) == senders_upto(rows@, rows@.len() as int),
{
    let mut out: Vec<String> = Vec::new();
    let mut i: usize = 0;
    while i < rows.len()
        invariant
            i <= rows.len(),
            crate::plans::strings_view(out@) == senders_upto(rows@, i as int),
        decreases rows.len() - i,
    {
        match &rows[i].sender_name {
            Some(u) => {
                if !u.as_str().is_empty() && !crate::wechat_db::has_name(&out, u.as_str()) {
                    let ghost before = crate::plans::strings_view(out@);
                    out.push(u.clone());
                    assert(crate::plans::strings_view(out@) =~= before.push(u@));
                }
            },
            None => {},
        }
        i += 1;
    }
    out
}

/// The name shown for a contact: its remark, else its nickname, else its username.
pub open spec fn display_name_spec(username: Seq<char>, nick_name: Option<String>, remark: Option<String>) -> Seq<char> {
    match crate::chats::nonempty(remark) {
        Some(r) => r,
        None => match crate::chats::nonempty(nick_name) {
            Some(n) => n,
            None => username,
        },
    }
}

/// The name shown for a contact row of the sender-names query.
pub fn contact_display_name(username: &str, nick_name: &Option<String>, remark: &Option<String>) -> (r: String)
    ensures
        r@ == display_name_spec(username@, *nick_name, *remark),
{
    match remark {
        Some(r) if !r.as_str().is_empty() => r.clone(),
        _ => match nick_name {
            Some(n) if !n.as_str().is_empty() => n.clone(),
            _ => username.to_string(),
        },
    }
}

/// The messages of a page of rows, in row order; rows without a local id
/// are skipped.
pub open spec fn rows_messages(
    rows: Seq<MessageRow>,
    chat_id: Seq<char>,
    account_dir: Seq<char>,
    names: Seq<(Seq<char>, Seq<char>)>,
) -> Seq<MessageSpec>
    decreases rows.len(),
{
    if rows.len() == 0 {
        Seq::empty()
    } else {
        let prev = rows_messages(rows.drop_last(), chat_id, account_dir, names);
        match row_message(rows.last(), chat_id, account_dir, names) {
            Some(m) => prev.push(m),
            None => prev,
        }
    }
}

pub open spec fn messages_view(v: Seq<crate::types::Message>) -> Seq<MessageSpec> {
    v.map_values(|m: crate::types::Message| message_view(m))
}

/// The messages a page of rows shows for a chat.
pub fn messages_from_rows(
    rows: &Vec<MessageRow>,
    chat_id: &str,
    account_dir: &str,
    contact_names: &Vec<(String, String)>,
) -> (r: Vec<crate::types::Message>)
    requires
        forall|k: int| 0 <= k < rows@.len() ==> row_decodes(#[trigger] rows@[k], chat_id@),
    ensures
        messages_view(r@) == rows_messages(rows@, chat_id@, account_dir@, names_view(contact_names@)),
{
    let ghost nv = names_view(contact_names@);
    let mut out: Vec<crate::types::Message> = Vec::new();
    let mut i: usize = 0;
    while i < rows.len()
        invariant
            i <= rows.len(),
            nv == names_view(contact_names@),
            forall|k: int| 0 <= k < rows@.len() ==> row_decodes(#[trigger] rows@[k], chat_id@),
            messages_view(out@) == rows_messages(rows@.take(i as int), chat_id@, account_dir@, nv),
        decreases rows.len() - i,
    {
        assert(rows@.take(i + 1).drop_last() =~= rows@.take(i as int));
        assert(rows@.take(i + 1).last() == rows@[i as int]);
        let m = message_from_row(&rows[i], chat_id, account_dir, contact_names);
        match m {
            Some(msg) => {
                let ghost before = messages_view(out@);
                out.push(msg);
                assert(messages_view(out@) =~= before.push(message_view(out@.last())));
            },
            None => {},
        }
        i += 1;
    }
    assert(rows@.take(rows.len() as int) =~= rows@);
    out
}

} // verus!
