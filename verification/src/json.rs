//! What the library reads of JSON documents: the members of an object, with
//! the text of those whose value is a string.
use vstd::prelude::*;
use crate::types::opt_str_view;

verus! {

/// A member as it is read: its name, and its text where the value is a string.
pub open spec fn member_view(m: (String, Option<String>)) -> (Seq<char>, Option<Seq<char>>) {
    (m.0@, opt_str_view(m.1))
}

pub open spec fn members_view(v: Seq<(String, Option<String>)>) -> Seq<(Seq<char>, Option<Seq<char>>)> {
    v.map_values(|m: (String, Option<String>)| member_view(m))
}

pub open spec fn opt_members_view(o: Option<Vec<(String, Option<String>)>>) -> Option<
    Seq<(Seq<char>, Option<Seq<char>>)>,
> {
    match o {
        Some(v) => Some(members_view(v@)),
        None => None,
    }
}

pub open spec fn items_view(o: Option<Vec<Option<Vec<(String, Option<String>)>>>>) -> Option<
    Seq<Option<Seq<(Seq<char>, Option<Seq<char>>)>>>,
> {
    match o {
        Some(v) => Some(v@.map_values(|e: Option<Vec<(String, Option<String>)>>| opt_members_view(e))),
        None => None,
    }
}

/// What a parsed document shows: the members of the top-level value when it
/// is an object; the members of the value under a chosen top-level field when
/// that is an object; and, when that value is an array, the members of each
/// element (none for an element that is not an object).
pub struct JsonShape {
    pub top: Option<Vec<(String, Option<String>)>>,
    pub inner: Option<Vec<(String, Option<String>)>>,
    pub items: Option<Vec<Option<Vec<(String, Option<String>)>>>>,
}

pub open spec fn shape_result(r: Result<JsonShape, String>) -> Result<
    (
        Option<Seq<(Seq<char>, Option<Seq<char>>)>>,
        Option<Seq<(Seq<char>, Option<Seq<char>>)>>,
        Option<Seq<Option<Seq<(Seq<char>, Option<Seq<char>>)>>>>,
    ),
    Seq<char>,
> {
    match r {
        Ok(s) => Ok((opt_members_view(s.top), opt_members_view(s.inner), items_view(s.items))),
        Err(e) => Err(e@),
    }
}

/// What `serde_json::from_str::<serde_json::Value>` shows of a text, as
/// `JsonShape` describes with `field` as the chosen field, or the parser's
/// error message.
pub uninterp spec fn json_text_shape(text: Seq<char>, field: Seq<char>) -> Result<
    (
        Option<Seq<(Seq<char>, Option<Seq<char>>)>>,
        Option<Seq<(Seq<char>, Option<Seq<char>>)>>,
        Option<Seq<Option<Seq<(Seq<char>, Option<Seq<char>>)>>>>,
    ),
    Seq<char>,
>;

/// The same for `serde_json::from_slice::<serde_json::Value>` on bytes.
pub uninterp spec fn json_bytes_shape(bytes: Seq<u8>, field: Seq<char>) -> Result<
    (
        Option<Seq<(Seq<char>, Option<Seq<char>>)>>,
        Option<Seq<(Seq<char>, Option<Seq<char>>)>>,
        Option<Seq<Option<Seq<(Seq<char>, Option<Seq<char>>)>>>>,
    ),
    Seq<char>,
>;

/// `serde_json::from_str::<serde_json::Value>`, read back through
/// `as_object`, `get(field)`, `as_array` and `as_str`; the parse is named, not
/// stated.
#[verifier::external_body]
pub(crate) fn parse_text(text: &str, field: &str) -> (r: Result<JsonShape, String>)
    ensures
        shape_result(r) == json_text_shape(text@, field@),
{
    let v: serde_json::Value = serde_json::from_str(text).map_err(|e| format!("{e}"))?;
    let m = |x: &serde_json::Value| x.as_object().map(|o| o.iter().map(|(k, y)| (k.clone(), y.as_str().map(String::from))).collect::<Vec<_>>());
    let at = v.get(field);
    Ok(JsonShape { top: m(&v), inner: at.and_then(|x| m(x)), items: at.and_then(|x| x.as_array()).map(|a| a.iter().map(|e| m(e)).collect()) })
}

/// `serde_json::from_slice::<serde_json::Value>`, read back as `parse_text`
/// reads a text; the parse is named, not stated.
#[verifier::external_body]
pub(crate) fn parse_bytes(bytes: &[u8], field: &str) -> (r: Result<JsonShape, String>)
    ensures
        shape_result(r) == json_bytes_shape(bytes@, field@),
{
    let v: serde_json::Value = serde_json::from_slice(bytes).map_err(|e| format!("{e}"))?;
    let m = |x: &serde_json::Value| x.as_object().map(|o| o.iter().map(|(k, y)| (k.clone(), y.as_str().map(String::from))).collect::<Vec<_>>());
    let at = v.get(field);
    Ok(JsonShape { top: m(&v), inner: at.and_then(|x| m(x)), items: at.and_then(|x| x.as_array()).map(|a| a.iter().map(|e| m(e)).collect()) })
}

/// The text of the first member named `name` when its value is a string.
pub open spec fn str_member(ms: Seq<(Seq<char>, Option<Seq<char>>)>, name: Seq<char>) -> Option<Seq<char>>
    decreases ms.len(),
{
    if ms.len() == 0 {
        None
    } else if ms[0].0 == name {
        ms[0].1
    } else {
        str_member(ms.drop_first(), name)
    }
}

/// A string member of an object that may be missing.
pub open spec fn opt_str_member(o: Option<Seq<(Seq<char>, Option<Seq<char>>)>>, name: Seq<char>) -> Option<
    Seq<char>,
> {
    match o {
        Some(ms) => str_member(ms, name),
        None => None,
    }
}

/// The text of a string member.
pub fn str_member_of(ms: &Vec<(String, Option<String>)>, name: &str) -> (r: Option<String>)
    ensures
        opt_str_view(r) == str_member(members_view(ms@), name@),
{
    let ghost mv = members_view(ms@);
    let mut i: usize = 0;
    assert(mv.skip(0) =~= mv);
    while i < ms.len()
        invariant
            i <= ms.len(),
            mv == members_view(ms@),
            str_member(mv, name@) == str_member(mv.skip(i as int), name@),
        decreases ms.len() - i,
    {
        assert(mv.skip(i as int)[0] == member_view(ms@[i as int]));
        assert(mv.skip(i as int).drop_first() =~= mv.skip(i + 1));
        if crate::text::str_eq(ms[i].0.as_str(), name) {
            return ms[i].1.clone();
        }
        i += 1;
    }
    None
}

/// The text of a string member of an object that may be missing.
pub fn opt_str_member_of(o: &Option<Vec<(String, Option<String>)>>, name: &str) -> (r: Option<String>)
    ensures
        opt_str_view(r) == opt_str_member(opt_members_view(*o), name@),
{
    match o {
        Some(ms) => str_member_of(ms, name),
        None => None,
    }
}

} // verus!
