//! Closing WeChat's version-update popup: which top-level windows it is,
//! where its close button is clicked, and whether it went away.
use vstd::prelude::*;
use crate::plans::strings_view;
use crate::text::{chars_of, contains, contains_spec, split_char, split_spec, trim, trim_spec, vecs_view};
use crate::ui_open_chat::{geometry_spec, parse_window_geometry, Rect};

verus! {

/// A visible top-level window.
pub struct WinInfo {
    pub id: String,
    pub name: String,
    pub x: i32,
    pub y: i32,
    pub w: i32,
    pub h: i32,
}

/// The trimmed, non-empty lines of a text, in order.
pub open spec fn nonempty_trimmed(parts: Seq<Seq<char>>) -> Seq<Seq<char>>
    decreases parts.len(),
{
    if parts.len() == 0 {
        Seq::empty()
    } else {
        let rest = nonempty_trimmed(parts.drop_last());
        let t = trim_spec(parts.last());
        if t.len() > 0 {
            rest.push(t)
        } else {
            rest
        }
    }
}

/// The window ids `xdotool search` printed: one per non-blank line, trimmed.
pub open spec fn window_ids_spec(text: Seq<char>) -> Seq<Seq<char>> {
    nonempty_trimmed(split_spec(text, '\n'))
}

/// The window ids in `xdotool search` output.
pub fn window_ids(text: &str) -> (r: Vec<String>)
    ensures
        strings_view(r@) == window_ids_spec(text@),
{
    let cs = chars_of(text);
    let parts = split_char(cs.as_slice(), '\n');
    let ghost pv = vecs_view(parts@);
    let mut out: Vec<String> = Vec::new();
    let mut i: usize = 0;
    while i < parts.len()
        invariant
            i <= parts.len(),
            pv == vecs_view(parts@),
            pv == split_spec(text@, '\n'),
            strings_view(out@) == nonempty_trimmed(pv.take(i as int)),
        decreases parts.len() - i,
    {
        assert(pv.take(i + 1).drop_last() == pv.take(i as int));
        assert(pv.take(i + 1).last() == parts@[i as int]@);
        let t = trim(parts[i].as_slice());
        let ghost prev = strings_view(out@);
        if t.len() > 0 {
            out.push(crate::text::string_of(t.as_slice()));
            assert(strings_view(out@) =~= prev.push(t@));
        }
        i += 1;
    }
    assert(pv.take(parts.len() as int) == pv);
    out
}

/// A window whose title names WeChat.
pub open spec fn weixin_named_spec(name: Seq<char>) -> bool {
    contains_spec(name, "Weixin"@) || contains_spec(name, "微信"@) || contains_spec(name, "WeChat"@)
}

/// Whether a window title names WeChat.
pub fn is_weixin_named(name: &str) -> (r: bool)
    ensures
        r == weixin_named_spec(name@),
{
    let n = chars_of(name);
    contains(n.as_slice(), chars_of("Weixin").as_slice()) || contains(
        n.as_slice(),
        chars_of("微信").as_slice(),
    ) || contains(n.as_slice(), chars_of("WeChat").as_slice())
}

/// The update popup's size band: 500 to 650 wide, 350 to 500 high. The main
/// window is taller and the login window narrower.
pub open spec fn popup_geometry_spec(w: WinInfo) -> bool {
    500 <= w.w <= 650 && 350 <= w.h <= 500
}

/// Whether a window has the update popup's size.
pub fn in_update_popup_geometry(w: &WinInfo) -> (r: bool)
    ensures
        r == popup_geometry_spec(*w),
{
    w.w >= 500 && w.w <= 650 && w.h >= 350 && w.h <= 500
}

pub open spec fn popup_candidate_spec(w: WinInfo) -> bool {
    weixin_named_spec(w.name@) && popup_geometry_spec(w)
}

/// Whether a window is taken for the update popup: a WeChat title and the popup's size.
pub fn is_update_popup_candidate(w: &WinInfo) -> (r: bool)
    ensures
        r == popup_candidate_spec(*w),
{
    is_weixin_named(w.name.as_str()) && in_update_popup_geometry(w)
}

/// The main window is present: a WeChat window taller than 500.
pub open spec fn has_main_window_spec(ws: Seq<WinInfo>) -> bool {
    exists|i: int| 0 <= i < ws.len() && weixin_named_spec(#[trigger] ws[i].name@) && ws[i].h > 500
}

/// The close button of a popup: 18 pixels in from its right edge, 24 down.
pub open spec fn close_point(w: WinInfo) -> (int, int) {
    (w.x + w.w - 18, w.y + 24)
}

/// The popups to close, in window order, with the point clicked on each.
pub open spec fn candidates_of(ws: Seq<WinInfo>) -> Seq<(Seq<char>, int, int)>
    decreases ws.len(),
{
    if ws.len() == 0 {
        Seq::empty()
    } else {
        let rest = candidates_of(ws.drop_last());
        let w = ws.last();
        if popup_candidate_spec(w) {
            rest.push((w.id@, close_point(w).0, close_point(w).1))
        } else {
            rest
        }
    }
}

/// What is clicked: every popup candidate, but only while the main window is
/// also present, so the main window itself is never closed.
pub open spec fn close_targets_spec(ws: Seq<WinInfo>) -> Seq<(Seq<char>, int, int)> {
    if has_main_window_spec(ws) {
        candidates_of(ws)
    } else {
        Seq::empty()
    }
}

pub open spec fn targets_view(v: Seq<(String, i64, i64)>) -> Seq<(Seq<char>, int, int)> {
    v.map_values(|t: (String, i64, i64)| (t.0@, t.1 as int, t.2 as int))
}

/// The windows to close and where to click each.
pub fn close_targets(windows: &Vec<WinInfo>) -> (r: Vec<(String, i64, i64)>)
    ensures
        targets_view(r@) == close_targets_spec(windows@),
{
    let mut main = false;
    let mut k: usize = 0;
    while k < windows.len()
        invariant
            k <= windows.len(),
            main == exists|i: int| 0 <= i < k && weixin_named_spec(#[trigger] windows@[i].name@)
                && windows@[i].h > 500,
        decreases windows.len() - k,
    {
        if is_weixin_named(windows[k].name.as_str()) && windows[k].h > 500 {
            main = true;
        }
        k += 1;
    }
    let mut out: Vec<(String, i64, i64)> = Vec::new();
    if !main {
        return out;
    }
    let mut i: usize = 0;
    while i < windows.len()
        invariant
            i <= windows.len(),
            targets_view(out@) == candidates_of(windows@.take(i as int)),
        decreases windows.len() - i,
    {
        assert(windows@.take(i + 1).drop_last() == windows@.take(i as int));
        assert(windows@.take(i + 1).last() == windows@[i as int]);
        let w = &windows[i];
        if is_update_popup_candidate(w) {
            let cx = w.x as i64 + w.w as i64 - 18;
            let cy = w.y as i64 + 24;
            let ghost prev = targets_view(out@);
            out.push((w.id.clone(), cx, cy));
            assert(targets_view(out@) =~= prev.push((w.id@, cx as int, cy as int)));
        }
        i += 1;
    }
    assert(windows@.take(windows.len() as int) == windows@);
    out
}

/// Whether the popups are gone afterwards: no candidate is left among the
/// windows listed again, or, when they cannot be listed, some close was clicked.
pub open spec fn popups_closed_spec(after: Option<Seq<WinInfo>>, closed_count: nat) -> bool {
    match after {
        Some(ws) => !any_candidate_spec(ws),
        None => closed_count > 0,
    }
}

/// Some window is a popup candidate.
pub open spec fn any_candidate_spec(ws: Seq<WinInfo>) -> bool {
    exists|i: int| 0 <= i < ws.len() && popup_candidate_spec(#[trigger] ws[i])
}

fn any_candidate(ws: &Vec<WinInfo>) -> (r: bool)
    ensures
        r == any_candidate_spec(ws@),
{
    let mut i: usize = 0;
    while i < ws.len()
        invariant
            i <= ws.len(),
            forall|j: int| 0 <= j < i ==> !popup_candidate_spec(#[trigger] ws@[j]),
        decreases ws.len() - i,
    {
        if is_update_popup_candidate(&ws[i]) {
            assert(popup_candidate_spec(ws@[i as int]));
            return true;
        }
        i += 1;
    }
    false
}

pub open spec fn opt_windows_view(o: Option<Vec<WinInfo>>) -> Option<Seq<WinInfo>> {
    match o {
        Some(v) => Some(v@),
        None => None,
    }
}

/// Whether the close clicks worked.
pub fn popups_closed(after: &Option<Vec<WinInfo>>, closed_count: usize) -> (r: bool)
    ensures
        r == popups_closed_spec(opt_windows_view(*after), closed_count as nat),
{
    match after {
        None => closed_count > 0,
        Some(ws) => !any_candidate(ws),
    }
}

/// A window's record from its id, its `getwindowname` output and its
/// `getwindowgeometry --shell` output.
pub fn window_info(id: String, name_output: &str, geometry_output: &str) -> (r: WinInfo)
    ensures
        r.id == id,
        r.name@ == trim_spec(name_output@),
        (Rect { x: r.x, y: r.y, w: r.w, h: r.h }) == geometry_spec(geometry_output@),
{
    let name = crate::text::string_of(trim(chars_of(name_output).as_slice()).as_slice());
    let g = parse_window_geometry(geometry_output);
    WinInfo { id, name, x: g.x, y: g.y, w: g.w, h: g.h }
}

/// What an attempt to close popups found and did.
#[derive(Debug)]
pub struct ClosePopupsOutcome {
    pub xdotool_available: bool,
    pub windows_seen: usize,
    pub popup_detected: bool,
    pub popup_closed: bool,
    pub closed_count: usize,
    pub popup_type: Option<&'static str>,
}

/// The outcome when the windows could not be listed.
pub fn outcome_unavailable() -> (r: ClosePopupsOutcome)
    ensures
        !r.xdotool_available && r.windows_seen == 0 && !r.popup_detected && !r.popup_closed
            && r.closed_count == 0 && r.popup_type is None,
{
    ClosePopupsOutcome {
        xdotool_available: false,
        windows_seen: 0,
        popup_detected: false,
        popup_closed: false,
        closed_count: 0,
        popup_type: None,
    }
}

/// The outcome after listing `windows_seen` windows and clicking `targets`
/// close buttons, with `closed` saying whether they went away. Nothing is
/// detected when there was nothing to click.
pub fn popups_outcome(windows_seen: usize, targets: usize, closed: bool) -> (r: ClosePopupsOutcome)
    ensures
        r.xdotool_available,
        r.windows_seen == windows_seen,
        r.popup_detected == (targets > 0),
        r.closed_count == targets,
        r.popup_closed == (targets > 0 && closed),
        match r.popup_type {
            Some(t) => targets > 0 && t@ == "weixin_update"@,
            None => targets == 0,
        },
{
    if targets == 0 {
        ClosePopupsOutcome {
            xdotool_available: true,
            windows_seen,
            popup_detected: false,
            popup_closed: false,
            closed_count: 0,
            popup_type: None,
        }
    } else {
        ClosePopupsOutcome {
            xdotool_available: true,
            windows_seen,
            popup_detected: true,
            popup_closed: closed,
            closed_count: targets,
            popup_type: Some("weixin_update"),
        }
    }
}

/// The main window is never among the windows clicked: every target is a
/// window no taller than 500.
pub proof fn lemma_targets_spare_main_window(ws: Seq<WinInfo>)
    ensures
        forall|k: int| 0 <= k < candidates_of(ws).len() ==> exists|i: int| 0 <= i < ws.len()
            && #[trigger] candidates_of(ws)[k].0 == ws[i].id@ && ws[i].h <= 500,
    decreases ws.len(),
{
    if ws.len() > 0 {
        let rest = ws.drop_last();
        lemma_targets_spare_main_window(rest);
        assert forall|k: int| 0 <= k < candidates_of(ws).len() implies exists|i: int| 0 <= i < ws.len()
            && #[trigger] candidates_of(ws)[k].0 == ws[i].id@ && ws[i].h <= 500 by {
            if k < candidates_of(rest).len() {
                let i = choose|i: int| 0 <= i < rest.len() && candidates_of(rest)[k].0 == rest[i].id@
                    && rest[i].h <= 500;
                assert(ws[i] == rest[i]);
            } else {
                assert(ws[ws.len() - 1] == ws.last());
            }
        }
    }
}

} // verus!
