//! The browser viewer under `/vnc/`: which page or file a request gets, and
//! how the viewer page is given the access token for its WebSocket.
use vstd::prelude::*;
use crate::router::file_downloads::{append_str, last_dot, last_index_of};
use crate::text::{
    chars_of, contains, contains_spec, find, find_spec, replace_all, replace_spec, slice_chars,
    split_char, split_spec, starts_with, starts_with_spec, str_eq, string_of, vecs_view,
};

verus! {

/// The directory the viewer's files are served from.
pub open spec fn novnc_dir() -> Seq<char> {
    "/opt/novnc/"@
}

/// What follows the last dot of a path; the whole path when it has none.
pub open spec fn after_last_dot(path: Seq<char>) -> Seq<char> {
    match last_index_of(path, '.') {
        Some(k) => path.skip(k + 1),
        None => path,
    }
}

/// The content type a file is served with, by what follows its last dot.
pub open spec fn content_type_spec(path: Seq<char>) -> Seq<char> {
    let e = after_last_dot(path);
    if e == "html"@ {
        "text/html"@
    } else if e == "js"@ {
        "application/javascript"@
    } else if e == "css"@ {
        "text/css"@
    } else if e == "png"@ {
        "image/png"@
    } else if e == "svg"@ {
        "image/svg+xml"@
    } else if e == "ico"@ {
        "image/x-icon"@
    } else if e == "woff"@ {
        "font/woff"@
    } else if e == "woff2"@ {
        "font/woff2"@
    } else {
        "application/octet-stream"@
    }
}

/// The content type of a viewer file.
pub fn content_type(path: &str) -> (r: &'static str)
    ensures
        r@ == content_type_spec(path@),
{
    let p = chars_of(path);
    let e = match last_dot(p.as_slice()) {
        Some(k) => slice_chars(p.as_slice(), k + 1, p.len()),
        None => slice_chars(p.as_slice(), 0, p.len()),
    };
    assert(p@.subrange(0, p@.len() as int) == p@);
    let e = string_of(e.as_slice());
    let e = e.as_str();
    if str_eq(e, "html") {
        "text/html"
    } else if str_eq(e, "js") {
        "application/javascript"
    } else if str_eq(e, "css") {
        "text/css"
    } else if str_eq(e, "png") {
        "image/png"
    } else if str_eq(e, "svg") {
        "image/svg+xml"
    } else if str_eq(e, "ico") {
        "image/x-icon"
    } else if str_eq(e, "woff") {
        "font/woff"
    } else if str_eq(e, "woff2") {
        "font/woff2"
    } else {
        "application/octet-stream"
    }
}

/// A request's query string, if it has one.
pub open spec fn query_view(query: Option<&str>) -> Option<Seq<char>> {
    match query {
        Some(q) => Some(q@),
        None => None,
    }
}

/// The `&`-separated parts of a query string; none without a query.
pub open spec fn query_parts(query: Option<Seq<char>>) -> Seq<Seq<char>> {
    match query {
        Some(q) => split_spec(q, '&'),
        None => Seq::empty(),
    }
}

/// Whether the query carries a `token=` part.
pub open spec fn has_token_spec(query: Option<Seq<char>>) -> bool {
    exists|i: int|
        0 <= i < query_parts(query).len() && starts_with_spec(
            #[trigger] query_parts(query)[i],
            "token="@,
        )
}

/// The path under `/vnc/`; empty for `/vnc/` itself.
pub open spec fn relative_path(path: Seq<char>) -> Seq<char> {
    if starts_with_spec(path, "/vnc/"@) {
        path.skip("/vnc/"@.len() as int)
    } else {
        Seq::empty()
    }
}

/// What a `/vnc/` request is answered with.
#[derive(Debug)]
pub enum VncPage {
    /// The page that asks for the access token.
    Login,
    /// The viewer, given the token from the query.
    Viewer,
    /// A path that climbs out of the viewer's directory: 403.
    Forbidden,
    /// A file of the viewer's directory, with its content type.
    File { path: String, content_type: &'static str },
}

fn has_token(query: Option<&str>) -> (r: bool)
    ensures
        r == has_token_spec(query_view(query)),
{
    let ghost qv = query_view(query);
    match query {
        None => false,
        Some(q) => {
            let parts = split_char(chars_of(q).as_slice(), '&');
            let pre = chars_of("token=");
            let mut i: usize = 0;
            while i < parts.len()
                invariant
                    i <= parts.len(),
                    qv == query_view(query),
                    vecs_view(parts@) == query_parts(qv),
                    pre@ == "token="@,
                    forall|j: int| 0 <= j < i ==> !starts_with_spec(#[trigger] query_parts(qv)[j], "token="@),
                decreases parts.len() - i,
            {
                assert(parts@[i as int]@ == query_parts(qv)[i as int]);
                if starts_with(parts[i].as_slice(), pre.as_slice()) {
                    assert(starts_with_spec(query_parts(qv)[i as int], "token="@));
                    return true;
                }
                i += 1;
            }
            false
        },
    }
}

/// Which page or file a request under `/vnc/` gets: the token prompt or the
/// viewer at `/vnc/` itself, by whether the query holds a token; 403 for a
/// path holding `..`; else the file under the viewer's directory.
pub fn vnc_page(path: &str, query: Option<&str>) -> (r: VncPage)
    ensures
        ({
            let rel = relative_path(path@);
            let q = query_view(query);
            match r {
                VncPage::Login => rel.len() == 0 && !has_token_spec(q),
                VncPage::Viewer => rel.len() == 0 && has_token_spec(q),
                VncPage::Forbidden => rel.len() > 0 && contains_spec(rel, ".."@),
                VncPage::File { path: p, content_type: c } => {
                    &&& rel.len() > 0 && !contains_spec(rel, ".."@)
                    &&& p@ == novnc_dir() + rel
                    &&& c@ == content_type_spec(p@)
                },
            }
        }),
{
    let p = chars_of(path);
    let pre = chars_of("/vnc/");
    let rel = if starts_with(p.as_slice(), pre.as_slice()) {
        slice_chars(p.as_slice(), pre.len(), p.len())
    } else {
        Vec::new()
    };
    assert(rel@ == relative_path(path@));
    if rel.len() == 0 {
        if has_token(query) {
            return VncPage::Viewer;
        } else {
            return VncPage::Login;
        }
    }
    if contains(rel.as_slice(), chars_of("..").as_slice()) {
        return VncPage::Forbidden;
    }
    let mut file = String::from_str("/opt/novnc/");
    let r = string_of(rel.as_slice());
    append_str(&mut file, r.as_str());
    let c = content_type(file.as_str());
    VncPage::File { path: file, content_type: c }
}

/// The first `token=` value of the query; empty when there is none.
pub open spec fn token_value(parts: Seq<Seq<char>>) -> Seq<char>
    decreases parts.len(),
{
    if parts.len() == 0 {
        Seq::empty()
    } else if starts_with_spec(parts[0], "token="@) {
        parts[0].skip("token="@.len() as int)
    } else {
        token_value(parts.drop_first())
    }
}

/// Whether the query asks to connect at once.
pub open spec fn autoconnect_spec(parts: Seq<Seq<char>>) -> bool {
    exists|i: int|
        0 <= i < parts.len() && (#[trigger] parts[i] == "autoconnect=true"@ || parts[i]
            == "autoconnect=1"@)
}

/// The token as it stands inside a double-quoted script string: backslashes
/// doubled, then quotes escaped.
pub open spec fn escaped_token(token: Seq<char>) -> Seq<char> {
    replace_spec(replace_spec(token, "\\"@, "\\\\"@), "\""@, "\\\""@)
}

/// The script put into the viewer page: it points the viewer's WebSocket at
/// the token-carrying path and sets the token and autoconnect parameters.
pub open spec fn token_script(token: Seq<char>, autoconnect: bool) -> Seq<char> {
    "<script>\n        // Inject token into noVNC WebSocket connection\n        (function() {\n            var token = \""@
        + escaped_token(token)
        + "\";\n            var autoconnect = "@
        + (if autoconnect { "true"@ } else { "false"@ })
        + ";\n            // Set URL params that noVNC reads\n            var url = new URL(window.location);\n            url.searchParams.set('path', 'vnc/websockify?token=' + encodeURIComponent(token));\n            url.searchParams.set('token', token);\n            if (autoconnect) url.searchParams.set('autoconnect', 'true');\n            window.history.replaceState({}, '', url);\n        })();\n        </script>"@
}

/// The first occurrence of `pat` replaced by `rep`; the text unchanged without one.
pub open spec fn replace_first(h: Seq<char>, pat: Seq<char>, rep: Seq<char>) -> Seq<char> {
    match find_spec(h, pat) {
        Some(i) => h.take(i) + rep + h.skip(i + pat.len()),
        None => h,
    }
}

/// The viewer page: the script goes right before the first `</head>`.
pub open spec fn viewer_page_spec(html: Seq<char>, query: Seq<char>) -> Seq<char> {
    let parts = split_spec(query, '&');
    replace_first(
        html,
        "</head>"@,
        token_script(token_value(parts), autoconnect_spec(parts)) + "</head>"@,
    )
}

fn token_of(parts: &Vec<Vec<char>>) -> (r: Vec<char>)
    ensures
        r@ == token_value(vecs_view(parts@)),
{
    let pre = chars_of("token=");
    let ghost pv = vecs_view(parts@);
    let mut i: usize = 0;
    assert(pv.skip(0) =~= pv);
    while i < parts.len()
        invariant
            i <= parts.len(),
            pv == vecs_view(parts@),
            pre@ == "token="@,
            token_value(pv) == token_value(pv.skip(i as int)),
        decreases parts.len() - i,
    {
        assert(pv.skip(i as int)[0] == parts@[i as int]@);
        assert(pv.skip(i as int).drop_first() == pv.skip(i + 1));
        if starts_with(parts[i].as_slice(), pre.as_slice()) {
            return slice_chars(parts[i].as_slice(), pre.len(), parts[i].len());
        }
        i += 1;
    }
    Vec::new()
}

fn autoconnect_of(parts: &Vec<Vec<char>>) -> (r: bool)
    ensures
        r == autoconnect_spec(vecs_view(parts@)),
{
    let yes = chars_of("autoconnect=true");
    let one = chars_of("autoconnect=1");
    let ghost pv = vecs_view(parts@);
    let mut i: usize = 0;
    while i < parts.len()
        invariant
            i <= parts.len(),
            pv == vecs_view(parts@),
            yes@ == "autoconnect=true"@,
            one@ == "autoconnect=1"@,
            forall|j: int|
                0 <= j < i ==> !(#[trigger] pv[j] == "autoconnect=true"@ || pv[j]
                    == "autoconnect=1"@),
        decreases parts.len() - i,
    {
        assert(pv[i as int] == parts@[i as int]@);
        if crate::text::seq_eq(parts[i].as_slice(), yes.as_slice()) || crate::text::seq_eq(
            parts[i].as_slice(),
            one.as_slice(),
        ) {
            return true;
        }
        i += 1;
    }
    false
}

/// The viewer page built from noVNC's page and the request's query.
pub fn viewer_page(html: &str, query: &str) -> (r: String)
    ensures
        r@ == viewer_page_spec(html@, query@),
{
    let parts = split_char(chars_of(query).as_slice(), '&');
    let token = token_of(&parts);
    let auto = autoconnect_of(&parts);
    let backslash = chars_of("\\");
    let quote = chars_of("\"");
    proof {
        reveal_strlit("\\");
        reveal_strlit("\"");
    }
    let once = replace_all(token.as_slice(), backslash.as_slice(), chars_of("\\\\").as_slice());
    let escaped = replace_all(once.as_slice(), quote.as_slice(), chars_of("\\\"").as_slice());
    let mut script = String::from_str(
        "<script>\n        // Inject token into noVNC WebSocket connection\n        (function() {\n            var token = \"",
    );
    append_str(&mut script, string_of(escaped.as_slice()).as_str());
    append_str(&mut script, "\";\n            var autoconnect = ");
    append_str(&mut script, if auto { "true" } else { "false" });
    append_str(
        &mut script,
        ";\n            // Set URL params that noVNC reads\n            var url = new URL(window.location);\n            url.searchParams.set('path', 'vnc/websockify?token=' + encodeURIComponent(token));\n            url.searchParams.set('token', token);\n            if (autoconnect) url.searchParams.set('autoconnect', 'true');\n            window.history.replaceState({}, '', url);\n        })();\n        </script>",
    );
    append_str(&mut script, "</head>");
    let h = chars_of(html);
    let head = chars_of("</head>");
    match find(h.as_slice(), head.as_slice()) {
        None => String::from_str(html),
        Some(i) => {
            let mut out = string_of(slice_chars(h.as_slice(), 0, i).as_slice());
            append_str(&mut out, script.as_str());
            append_str(
                &mut out,
                string_of(slice_chars(h.as_slice(), i + head.len(), h.len()).as_slice()).as_str(),
            );
            assert(h@.subrange(0, i as int) == h@.take(i as int));
            assert(h@.subrange(i + head.len(), h@.len() as int) == h@.skip(i + head@.len()));
            out
        },
    }
}

} // verus!
