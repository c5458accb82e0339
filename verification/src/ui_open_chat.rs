//! Opening a chat through the WeChat search box: type the chat's display name
//! into the search field and click the first search result, using only the
//! accessibility tree and synthetic input. The tree heuristics live here; the
//! run itself is a state machine whose steps name the input to send or the
//! tree to read, performed by the caller.
use vstd::prelude::*;
use crate::helpers::node_has_state;
use crate::text::{chars_of, contains, contains_spec, str_eq};
use crate::types::{A11yNode, Bounds, has_state};

verus! {

// ============================================
// Outcome and options
// ============================================

/// What an open-chat run did, with redacted facts only (never the name).
#[derive(Clone, Copy, Debug)]
pub struct OpenChatOutcome {
    pub method: &'static str,
    pub chat_id_present: bool,
    pub resolved_name_present: bool,
    pub resolved_name_length: usize,
    pub search_box_present: bool,
    pub result_clicked: bool,
    pub open_confirmed: bool,
    /// An Escape was sent before searching because another chat was open.
    pub pre_search_unfocus: bool,
    /// The error code; none on success.
    pub error: Option<&'static str>,
}

/// The outcome's facts, with its strings as character sequences.
pub struct OutcomeSpec {
    pub method: Seq<char>,
    pub chat_id_present: bool,
    pub resolved_name_present: bool,
    pub resolved_name_length: nat,
    pub search_box_present: bool,
    pub result_clicked: bool,
    pub open_confirmed: bool,
    pub pre_search_unfocus: bool,
    pub error: Option<Seq<char>>,
}

pub open spec fn outcome_view(o: OpenChatOutcome) -> OutcomeSpec {
    OutcomeSpec {
        method: o.method@,
        chat_id_present: o.chat_id_present,
        resolved_name_present: o.resolved_name_present,
        resolved_name_length: o.resolved_name_length as nat,
        search_box_present: o.search_box_present,
        result_clicked: o.result_clicked,
        open_confirmed: o.open_confirmed,
        pre_search_unfocus: o.pre_search_unfocus,
        error: match o.error {
            Some(e) => Some(e@),
            None => None,
        },
    }
}

/// An outcome with nothing done.
pub open spec fn blank_outcome() -> OutcomeSpec {
    OutcomeSpec {
        method: "a11y_search"@,
        chat_id_present: false,
        resolved_name_present: false,
        resolved_name_length: 0,
        search_box_present: false,
        result_clicked: false,
        open_confirmed: false,
        pre_search_unfocus: false,
        error: None,
    }
}

impl OpenChatOutcome {
    /// An outcome that failed with `code` before anything else was learnt.
    pub fn err(code: &'static str) -> (o: OpenChatOutcome)
        ensures
            outcome_view(o) == (OutcomeSpec { error: Some(code@), ..blank_outcome() }),
    {
        OpenChatOutcome {
            method: "a11y_search",
            chat_id_present: false,
            resolved_name_present: false,
            resolved_name_length: 0,
            search_box_present: false,
            result_clicked: false,
            open_confirmed: false,
            pre_search_unfocus: false,
            error: Some(code),
        }
    }
}

/// How an open-chat run may behave. The send path forbids any keyboard
/// fallback, so opening a chat can never send a stray message.
#[derive(Clone, Copy, Debug, PartialEq, Eq, Structural)]
pub struct OpenChatOptions {
    pub dry_run: bool,
    pub allow_keyboard_fallback: bool,
    pub send_safe: bool,
}

impl OpenChatOptions {
    /// The standalone endpoint: keyboard fallback allowed.
    pub fn endpoint(dry_run: bool) -> (o: OpenChatOptions)
        ensures
            o == (OpenChatOptions { dry_run, allow_keyboard_fallback: true, send_safe: false }),
    {
        OpenChatOptions { dry_run, allow_keyboard_fallback: true, send_safe: false }
    }

    /// The send path: click only, no keyboard fallback, fail closed.
    pub fn send_safe() -> (o: OpenChatOptions)
        ensures
            o == (OpenChatOptions { dry_run: false, allow_keyboard_fallback: false, send_safe: true }),
    {
        OpenChatOptions { dry_run: false, allow_keyboard_fallback: false, send_safe: true }
    }
}

/// Whether to press Escape before searching: only on the send path, and only
/// while another chat is open.
pub fn needs_pre_search_unfocus(send_safe: bool, chat_open: bool) -> (r: bool)
    ensures
        r == (send_safe && chat_open),
{
    send_safe && chat_open
}

// ============================================
// Tree heuristics
// ============================================

/// A rectangle with a size.
#[derive(Clone, Copy, Debug, PartialEq, Eq, Structural)]
pub struct Rect {
    pub x: i32,
    pub y: i32,
    pub w: i32,
    pub h: i32,
}

/// A node's rectangle, when it has bounds of positive size.
pub open spec fn rect_spec(n: A11yNode) -> Option<Rect> {
    match n.bounds {
        Some(b) => if b.width <= 0 || b.height <= 0 {
            None
        } else {
            Some(Rect { x: b.x, y: b.y, w: b.width, h: b.height })
        },
        None => None,
    }
}

pub fn rect_of(n: &A11yNode) -> (r: Option<Rect>)
    ensures
        r == rect_spec(*n),
{
    match n.bounds {
        Some(b) => if b.width <= 0 || b.height <= 0 {
            None
        } else {
            Some(Rect { x: b.x, y: b.y, w: b.width, h: b.height })
        },
        None => None,
    }
}

/// The depth of a child: one more, saturating at `usize::MAX` (which no
/// tree held in memory reaches).
pub open spec fn next_depth(d: nat) -> nat {
    if d < usize::MAX {
        d + 1
    } else {
        d
    }
}

/// Every node of a tree with its depth (the root at `d`), in document order.
pub open spec fn with_depth(n: A11yNode, d: nat) -> Seq<(nat, A11yNode)>
    decreases n, 0int,
{
    seq![(d, n)] + match n.children {
        Some(c) => with_depth_in(c@, next_depth(d), 0),
        None => Seq::empty(),
    }
}

pub open spec fn with_depth_in(ks: Seq<A11yNode>, d: nat, k: int) -> Seq<(nat, A11yNode)>
    decreases ks, ks.len() - k,
{
    if k < 0 || k >= ks.len() {
        Seq::empty()
    } else {
        with_depth(ks[k], d) + with_depth_in(ks, d, k + 1)
    }
}

proof fn lemma_child_decreases(n: A11yNode, c: Vec<A11yNode>, k: int)
    requires
        n.children == Some(c),
        0 <= k < c.len(),
    ensures
        decreases_to!(n => c@[k]),
{
    assert(decreases_to!(n => n.children));
    assert(decreases_to!(n.children => n.children->0));
    assert(decreases_to!(c => c@));
    assert(decreases_to!(c@ => c@[k]));
}

pub struct DepthNode<'a> {
    pub depth: usize,
    pub node: &'a A11yNode,
}

pub open spec fn depth_nodes_view(s: Seq<DepthNode>) -> Seq<(nat, A11yNode)> {
    s.map_values(|p: DepthNode| (p.depth as nat, *p.node))
}

/// Appends every node under `node`, with its depth, in document order.
pub fn collect_with_depth<'a>(node: &'a A11yNode, depth: usize, out: &mut Vec<DepthNode<'a>>)
    ensures
        depth_nodes_view(final(out)@) == depth_nodes_view(old(out)@) + with_depth(*node, depth as nat),
    decreases *node, 0int,
{
    let ghost start = depth_nodes_view(out@);
    out.push(DepthNode { depth, node });
    assert(depth_nodes_view(out@) =~= start + seq![(depth as nat, *node)]);
    let ghost mid = depth_nodes_view(out@);
    let child_depth: usize = if depth < usize::MAX {
        depth + 1
    } else {
        depth
    };
    if let Some(children) = &node.children {
        let mut k: usize = 0;
        while k < children.len()
            invariant
                k <= children.len(),
                child_depth as nat == next_depth(depth as nat),
                node.children == Some(*children),
                depth_nodes_view(out@) + with_depth_in(children@, child_depth as nat, k as int) == mid
                    + with_depth_in(children@, child_depth as nat, 0),
            decreases children.len() - k,
        {
            proof {
                lemma_child_decreases(*node, *children, k as int);
            }
            let ghost before = depth_nodes_view(out@);
            collect_with_depth(&children[k], child_depth, out);
            assert(with_depth_in(children@, child_depth as nat, k as int) == with_depth(
                children@[k as int],
                child_depth as nat,
            ) + with_depth_in(children@, child_depth as nat, k + 1));
            assert(depth_nodes_view(out@) + with_depth_in(children@, child_depth as nat, k + 1)
                =~= before + with_depth_in(children@, child_depth as nat, k as int));
            k += 1;
        }
        assert(with_depth_in(children@, child_depth as nat, k as int) =~= Seq::<(nat, A11yNode)>::empty());
    }
    assert(depth_nodes_view(out@) =~= start + with_depth(*node, depth as nat));
}

} // verus!

verus! {

/// A role that takes typed text: one containing "text", "entry" or "field".
pub open spec fn text_like(role: Seq<char>) -> bool {
    contains_spec(role, "text"@) || contains_spec(role, "entry"@) || contains_spec(role, "field"@)
}

fn text_like_exec(role: &str) -> (r: bool)
    ensures
        r == text_like(role@),
{
    let rc = chars_of(role);
    let a = chars_of("text");
    let b = chars_of("entry");
    let c = chars_of("field");
    contains(rc.as_slice(), a.as_slice()) || contains(rc.as_slice(), b.as_slice()) || contains(
        rc.as_slice(),
        c.as_slice(),
    )
}

/// An editable text input with a rectangle: its depth, rectangle and whether
/// it has the focus.
pub open spec fn search_candidate(p: (nat, A11yNode)) -> Option<(nat, Rect, bool)> {
    let n = p.1;
    if has_state(n, "EDITABLE"@) && text_like(n.role@) && rect_spec(n) is Some {
        Some((p.0, rect_spec(n)->0, has_state(n, "FOCUSED"@)))
    } else {
        None
    }
}

pub open spec fn search_candidates(ps: Seq<(nat, A11yNode)>) -> Seq<(nat, Rect, bool)>
    decreases ps.len(),
{
    if ps.len() == 0 {
        Seq::empty()
    } else {
        search_candidates(ps.drop_last()) + match search_candidate(ps.last()) {
            Some(c) => seq![c],
            None => Seq::empty(),
        }
    }
}

/// The index of the first topmost (smallest `y`) candidate among the first `n`.
pub open spec fn topmost(s: Seq<(nat, Rect, bool)>, n: int) -> int
    decreases n,
{
    if n <= 1 {
        0
    } else {
        let b = topmost(s, n - 1);
        if s[n - 1].1.y < s[b].1.y {
            n - 1
        } else {
            b
        }
    }
}

pub open spec fn choose_search_spec(s: Seq<(nat, Rect, bool)>) -> Option<(nat, Rect, bool)> {
    if s.len() == 0 {
        None
    } else {
        Some(s[topmost(s, s.len() as int)])
    }
}

pub open spec fn cands_view(s: Seq<(usize, Rect, bool)>) -> Seq<(nat, Rect, bool)> {
    s.map_values(|c: (usize, Rect, bool)| (c.0 as nat, c.1, c.2))
}

/// Choose the search box among the editable inputs: the topmost one (the
/// search field sits at the top, a focused composer at the bottom), the first
/// on ties. A focused input does not win by its focus.
pub fn choose_search_editable(candidates: &[(usize, Rect, bool)]) -> (r: Option<(usize, Rect, bool)>)
    ensures
        match r {
            Some(c) => choose_search_spec(cands_view(candidates@)) == Some((c.0 as nat, c.1, c.2)),
            None => choose_search_spec(cands_view(candidates@)) is None,
        },
{
    let ghost s = cands_view(candidates@);
    if candidates.len() == 0 {
        return None;
    }
    let mut best: usize = 0;
    let mut k: usize = 1;
    while k < candidates.len()
        invariant
            1 <= k <= candidates.len(),
            s == cands_view(candidates@),
            best as int == topmost(s, k as int),
            best < candidates.len(),
        decreases candidates.len() - k,
    {
        if candidates[k].1.y < candidates[best].1.y {
            best = k;
        }
        k += 1;
    }
    Some(candidates[best])
}

/// The search box: the chosen editable input's depth and rectangle.
pub open spec fn search_box_spec(tree: A11yNode) -> Option<(nat, Rect)> {
    match choose_search_spec(search_candidates(with_depth(tree, 0))) {
        Some(c) => Some((c.0, c.1)),
        None => None,
    }
}

fn candidates_of(pairs: &Vec<DepthNode>) -> (r: Vec<(usize, Rect, bool)>)
    ensures
        cands_view(r@) == search_candidates(depth_nodes_view(pairs@)),
{
    let ghost ps = depth_nodes_view(pairs@);
    let mut out: Vec<(usize, Rect, bool)> = Vec::new();
    let mut i: usize = 0;
    while i < pairs.len()
        invariant
            i <= pairs.len(),
            ps == depth_nodes_view(pairs@),
            cands_view(out@) == search_candidates(ps.take(i as int)),
        decreases pairs.len() - i,
    {
        assert(ps.take(i + 1).drop_last() == ps.take(i as int));
        assert(ps.take(i + 1).last() == ps[i as int]);
        let n = pairs[i].node;
        if node_has_state(n, "EDITABLE") && text_like_exec(n.role.as_str()) {
            if let Some(r) = rect_of(n) {
                let ghost before = out@;
                out.push((pairs[i].depth, r, node_has_state(n, "FOCUSED")));
                assert(cands_view(out@) =~= cands_view(before).push(
                    (pairs[i as int].depth as nat, r, has_state(*n, "FOCUSED"@)),
                ));
            }
        }
        i += 1;
    }
    assert(ps.take(pairs.len() as int) == ps);
    out
}

/// Find the search box and its depth in the tree.
pub fn find_search_box_node(tree: &A11yNode) -> (r: Option<(usize, Rect)>)
    ensures
        match r {
            Some(p) => search_box_spec(*tree) == Some((p.0 as nat, p.1)),
            None => search_box_spec(*tree) is None,
        },
{
    let mut pairs: Vec<DepthNode> = Vec::new();
    assert(depth_nodes_view(pairs@) =~= Seq::<(nat, A11yNode)>::empty());
    collect_with_depth(tree, 0, &mut pairs);
    assert(depth_nodes_view(pairs@) =~= with_depth(*tree, 0));
    let cands = candidates_of(&pairs);
    match choose_search_editable(cands.as_slice()) {
        Some(c) => Some((c.0, c.1)),
        None => None,
    }
}

/// The name of a send button, in the English or the Chinese client.
pub open spec fn is_send_name(name: Seq<char>) -> bool {
    name == "Send(S)"@ || name == "发送(S)"@
}

/// Whether a button name is that of the composer's send button ("Send(S)"
/// in English clients, "发送(S)" in Chinese ones).
pub fn is_send_button_name(name: &str) -> (r: bool)
    ensures
        r == is_send_name(name@),
{
    str_eq(name, "Send(S)") || str_eq(name, "发送(S)")
}

/// A chat is open: some send button is in the tree.
pub open spec fn chat_open_spec(tree: A11yNode) -> bool {
    exists|i: int|
        0 <= i < with_depth(tree, 0).len() && #[trigger] with_depth(tree, 0)[i].1.role@
            == "push-button"@ && is_send_name(with_depth(tree, 0)[i].1.name@)
}

/// True when a message composer is present, i.e. a chat is open.
pub fn chat_is_open(tree: &A11yNode) -> (r: bool)
    ensures
        r == chat_open_spec(*tree),
{
    let mut pairs: Vec<DepthNode> = Vec::new();
    assert(depth_nodes_view(pairs@) =~= Seq::<(nat, A11yNode)>::empty());
    collect_with_depth(tree, 0, &mut pairs);
    let ghost ps = depth_nodes_view(pairs@);
    assert(ps =~= with_depth(*tree, 0));
    let mut i: usize = 0;
    while i < pairs.len()
        invariant
            i <= pairs.len(),
            ps == depth_nodes_view(pairs@),
            ps == with_depth(*tree, 0),
            forall|j: int|
                0 <= j < i ==> !(#[trigger] ps[j].1.role@ == "push-button"@ && is_send_name(ps[j].1.name@)),
        decreases pairs.len() - i,
    {
        let n = pairs[i].node;
        assert(ps[i as int].1 == *n);
        if str_eq(n.role.as_str(), "push-button") && is_send_button_name(n.name.as_str()) {
            return true;
        }
        i += 1;
    }
    false
}

/// The composer's send button: a push button named "Send(S)" or "发送(S)".
pub open spec fn is_send_button(m: A11yNode) -> bool {
    m.role@ == "push-button"@ && (m.name@ == "Send(S)"@ || m.name@ == "发送(S)"@)
}

/// Whether a send button is `n` itself or anywhere below it.
pub open spec fn has_send_button(n: A11yNode) -> bool
    decreases n, 0int,
{
    is_send_button(n) || match n.children {
        Some(c) => has_send_button_in(c@, 0),
        None => false,
    }
}

/// Whether a send button is in one of the trees `ks[k..]`.
pub open spec fn has_send_button_in(ks: Seq<A11yNode>, k: int) -> bool
    decreases ks, ks.len() - k,
{
    if k < 0 || k >= ks.len() {
        false
    } else {
        has_send_button(ks[k]) || has_send_button_in(ks, k + 1)
    }
}

/// Some listed node is a send button.
pub open spec fn any_send_button(s: Seq<(nat, A11yNode)>) -> bool {
    exists|i: int| 0 <= i < s.len() && is_send_button(#[trigger] s[i].1)
}

#[verifier::rlimit(30)]
proof fn lemma_any_send_concat(a: Seq<(nat, A11yNode)>, b: Seq<(nat, A11yNode)>)
    ensures
        any_send_button(a + b) == (any_send_button(a) || any_send_button(b)),
{
    if any_send_button(a + b) {
        let i = choose|i: int| 0 <= i < (a + b).len() && is_send_button(#[trigger] (a + b)[i].1);
        if i < a.len() {
            assert((a + b)[i] == a[i]);
        } else {
            assert((a + b)[i] == b[i - a.len()]);
        }
    }
    if any_send_button(a) {
        let i = choose|i: int| 0 <= i < a.len() && is_send_button(#[trigger] a[i].1);
        assert((a + b)[i] == a[i]);
    }
    if any_send_button(b) {
        let i = choose|i: int| 0 <= i < b.len() && is_send_button(#[trigger] b[i].1);
        assert((a + b)[a.len() + i] == b[i]);
    }
}

proof fn lemma_with_depth_send(n: A11yNode, d: nat)
    ensures
        any_send_button(with_depth(n, d)) == has_send_button(n),
    decreases n, 0int,
{
    let head = seq![(d, n)];
    let rest = match n.children {
        Some(c) => with_depth_in(c@, next_depth(d), 0),
        None => Seq::<(nat, A11yNode)>::empty(),
    };
    lemma_any_send_concat(head, rest);
    if is_send_button(n) {
        assert(head[0].1 == n);
    }
    match n.children {
        Some(c) => {
            lemma_with_depth_in_send(c@, next_depth(d), 0);
        },
        None => {},
    }
}

proof fn lemma_with_depth_in_send(ks: Seq<A11yNode>, d: nat, k: int)
    ensures
        any_send_button(with_depth_in(ks, d, k)) == has_send_button_in(ks, k),
    decreases ks, ks.len() - k,
{
    if k < 0 || k >= ks.len() {
    } else {
        lemma_with_depth_send(ks[k], d);
        lemma_with_depth_in_send(ks, d, k + 1);
        lemma_any_send_concat(with_depth(ks[k], d), with_depth_in(ks, d, k + 1));
    }
}

/// A chat is reported open exactly when the tree holds, at any depth, a push
/// button named "Send(S)" or "发送(S)": the composer's send button.
#[verifier::rlimit(30)]
pub proof fn lemma_chat_open_iff_send_button(tree: A11yNode)
    ensures
        chat_open_spec(tree) == has_send_button(tree),
{
    lemma_with_depth_send(tree, 0);
    let s = with_depth(tree, 0);
    if chat_open_spec(tree) {
        let i = choose|i: int|
            0 <= i < s.len() && #[trigger] s[i].1.role@ == "push-button"@ && is_send_name(
                s[i].1.name@,
            );
        assert(is_send_button(s[i].1));
    }
    if any_send_button(s) {
        let i = choose|i: int| 0 <= i < s.len() && is_send_button(#[trigger] s[i].1);
        assert(s[i].1.role@ == "push-button"@ && is_send_name(s[i].1.name@));
    }
}

/// A send button in any child's tree makes the whole tree a chat that is open.
pub proof fn lemma_send_button_in_child_opens(tree: A11yNode, c: Vec<A11yNode>, k: int)
    requires
        tree.children == Some(c),
        0 <= k < c.len(),
        has_send_button(c@[k]),
    ensures
        chat_open_spec(tree),
{
    lemma_chat_open_iff_send_button(tree);
    lemma_in_from(c@, 0, k);
}

proof fn lemma_in_from(ks: Seq<A11yNode>, j: int, k: int)
    requires
        0 <= j <= k < ks.len(),
        has_send_button(ks[k]),
    ensures
        has_send_button_in(ks, j),
    decreases k - j,
{
    if j < k {
        lemma_in_from(ks, j + 1, k);
    }
}

/// The index of the first focused editable text input among the nodes.
pub open spec fn first_focused_input(ps: Seq<(nat, A11yNode)>, k: int) -> Option<int>
    decreases ps.len() - k,
{
    if k < 0 || k >= ps.len() {
        None
    } else if has_state(ps[k].1, "FOCUSED"@) && has_state(ps[k].1, "EDITABLE"@) && text_like(
        ps[k].1.role@,
    ) {
        Some(k)
    } else {
        first_focused_input(ps, k + 1)
    }
}

/// A point lies in a rectangle widened by five pixels on every side.
pub open spec fn near(cx: int, cy: int, s: Rect) -> bool {
    cx >= s.x - 5 && cx <= s.x + s.w + 5 && cy >= s.y - 5 && cy <= s.y + s.h + 5
}

/// The focused input is the search box: its centre lies within the search
/// box's rectangle (give or take five pixels). Unknown means no.
pub open spec fn focus_on_search_spec(tree: A11yNode, search: Option<Rect>) -> bool {
    match search {
        None => false,
        Some(s) => match first_focused_input(with_depth(tree, 0), 0) {
            None => false,
            Some(k) => match rect_spec(with_depth(tree, 0)[k].1) {
                Some(r) => near(r.x + r.w / 2, r.y + r.h / 2, s),
                None => false,
            },
        },
    }
}

/// Whether the focused editable input is the search box, so that pressing
/// Return cannot go into a chat composer.
pub fn focused_editable_is_search_box(tree: &A11yNode, search_rect: Option<Rect>) -> (r: bool)
    ensures
        r == focus_on_search_spec(*tree, search_rect),
{
    let search = match search_rect {
        Some(r) => r,
        None => return false,
    };
    let mut pairs: Vec<DepthNode> = Vec::new();
    assert(depth_nodes_view(pairs@) =~= Seq::<(nat, A11yNode)>::empty());
    collect_with_depth(tree, 0, &mut pairs);
    let ghost ps = depth_nodes_view(pairs@);
    assert(ps =~= with_depth(*tree, 0));
    let mut i: usize = 0;
    while i < pairs.len()
        invariant
            i <= pairs.len(),
            ps == depth_nodes_view(pairs@),
            ps == with_depth(*tree, 0),
            search_rect == Some(search),
            first_focused_input(ps, 0) == first_focused_input(ps, i as int),
        decreases pairs.len() - i,
    {
        let n = pairs[i].node;
        assert(ps[i as int].1 == *n);
        if node_has_state(n, "FOCUSED") && node_has_state(n, "EDITABLE") && text_like_exec(
            n.role.as_str(),
        ) {
            return match rect_of(n) {
                Some(r) => {
                    let cx: i64 = r.x as i64 + (r.w / 2) as i64;
                    let cy: i64 = r.y as i64 + (r.h / 2) as i64;
                    cx >= search.x as i64 - 5 && cx <= search.x as i64 + search.w as i64 + 5 && cy
                        >= search.y as i64 - 5 && cy <= search.y as i64 + search.h as i64 + 5
                },
                None => false,
            };
        }
        i += 1;
    }
    false
}

} // verus!

verus! {

pub open spec fn is_list_item(c: A11yNode) -> bool {
    c.role@ == "list-item"@
}

/// How many of the first `n` nodes are list items.
pub open spec fn count_items(ks: Seq<A11yNode>, n: int) -> nat
    decreases n,
{
    if n <= 0 || n > ks.len() {
        0
    } else {
        count_items(ks, n - 1) + if is_list_item(ks[n - 1]) {
            1nat
        } else {
            0nat
        }
    }
}

/// The first list item from `k` on.
pub open spec fn first_item(ks: Seq<A11yNode>, k: int) -> Option<A11yNode>
    decreases ks.len() - k,
{
    if k < 0 || k >= ks.len() {
        None
    } else if is_list_item(ks[k]) {
        Some(ks[k])
    } else {
        first_item(ks, k + 1)
    }
}

/// A list that looks like the search results: deeper than the search box,
/// with one to nine rows, the first of them at or below the search box. Its
/// depth, row count and first row's rectangle.
pub open spec fn result_candidate(p: (nat, A11yNode), sd: nat, sy: int) -> Option<(nat, nat, Rect)> {
    let n = p.1;
    let ks = crate::types::kids(n);
    let count = count_items(ks, ks.len() as int);
    if n.role@ == "list"@ && p.0 > sd && count >= 1 && count < 10 {
        match first_item(ks, 0) {
            Some(it) => match rect_spec(it) {
                Some(r) => if r.y >= sy {
                    Some((p.0, count, r))
                } else {
                    None
                },
                None => None,
            },
            None => None,
        }
    } else {
        None
    }
}

pub open spec fn result_candidates(ps: Seq<(nat, A11yNode)>, sd: nat, sy: int) -> Seq<(nat, nat, Rect)>
    decreases ps.len(),
{
    if ps.len() == 0 {
        Seq::empty()
    } else {
        result_candidates(ps.drop_last(), sd, sy) + match result_candidate(ps.last(), sd, sy) {
            Some(c) => seq![c],
            None => Seq::empty(),
        }
    }
}

/// How many lists the nodes hold.
pub open spec fn lists_count(ps: Seq<(nat, A11yNode)>) -> nat
    decreases ps.len(),
{
    if ps.len() == 0 {
        0
    } else {
        lists_count(ps.drop_last()) + if ps.last().1.role@ == "list"@ {
            1nat
        } else {
            0nat
        }
    }
}

pub open spec fn dist(c: (nat, nat, Rect), sy: int) -> int {
    if c.2.y - sy >= 0 {
        c.2.y - sy
    } else {
        sy - c.2.y
    }
}

/// `a` is preferred to `b`: its first row is closer to the search box, or as
/// close and the list is deeper.
pub open spec fn closer(a: (nat, nat, Rect), b: (nat, nat, Rect), sy: int) -> bool {
    dist(a, sy) < dist(b, sy) || (dist(a, sy) == dist(b, sy) && a.0 > b.0)
}

/// The index of the first most preferred candidate among the first `n`.
pub open spec fn closest(s: Seq<(nat, nat, Rect)>, n: int, sy: int) -> int
    decreases n,
{
    if n <= 1 {
        0
    } else {
        let b = closest(s, n - 1, sy);
        if closer(s[n - 1], s[b], sy) {
            n - 1
        } else {
            b
        }
    }
}

/// Lists seen, candidate lists, and the chosen candidate.
pub open spec fn select_result_spec(ps: Seq<(nat, A11yNode)>, sd: nat, sy: int) -> (nat, nat, Option<
    (nat, nat, Rect),
>) {
    let c = result_candidates(ps, sd, sy);
    (
        lists_count(ps),
        c.len(),
        if c.len() == 0 {
            None
        } else {
            Some(c[closest(c, c.len() as int, sy)])
        },
    )
}

fn list_shape(ks: &Vec<A11yNode>) -> (r: (usize, Option<Rect>, bool))
    ensures
        r.0 as nat == count_items(ks@, ks@.len() as int),
        r.2 == first_item(ks@, 0) is Some,
        match first_item(ks@, 0) {
            Some(it) => r.1 == rect_spec(it),
            None => true,
        },
{
    let mut count: usize = 0;
    let mut first: Option<Rect> = None;
    let mut found = false;
    let mut k: usize = 0;
    while k < ks.len()
        invariant
            k <= ks.len(),
            count as nat == count_items(ks@, k as int),
            count <= k,
            !found ==> first_item(ks@, 0) == first_item(ks@, k as int),
            found ==> first_item(ks@, 0) is Some && first == rect_spec(first_item(ks@, 0)->0),
        decreases ks.len() - k,
    {
        if str_eq(ks[k].role.as_str(), "list-item") {
            if !found {
                found = true;
                first = rect_of(&ks[k]);
            }
            count = count + 1;
        }
        k += 1;
    }
    (count, first, found)
}

fn result_candidate_exec(p: &DepthNode, search_depth: usize, search_y: i64) -> (r: Option<(usize, usize, Rect)>)
    ensures
        match r {
            Some(c) => result_candidate((p.depth as nat, *p.node), search_depth as nat, search_y as int)
                == Some((c.0 as nat, c.1 as nat, c.2)),
            None => result_candidate((p.depth as nat, *p.node), search_depth as nat, search_y as int) is None,
        },
{
    let n = p.node;
    if !str_eq(n.role.as_str(), "list") {
        return None;
    }
    let (count, first, found) = match &n.children {
        Some(c) => list_shape(c),
        None => {
            assert(crate::types::kids(*n) =~= Seq::<A11yNode>::empty());
            (0, None, false)
        },
    };
    if !(p.depth > search_depth && count >= 1 && count < 10) {
        return None;
    }
    if !found {
        return None;
    }
    match first {
        Some(r) => if r.y as i64 >= search_y {
            Some((p.depth, count, r))
        } else {
            None
        },
        None => None,
    }
}

pub open spec fn results_view(s: Seq<(usize, usize, Rect)>) -> Seq<(nat, nat, Rect)> {
    s.map_values(|c: (usize, usize, Rect)| (c.0 as nat, c.1 as nat, c.2))
}

fn dist_exec(y: i32, sy: i64) -> (r: i128)
    ensures
        r == (if y - sy >= 0 {
            y - sy
        } else {
            sy - y
        }),
{
    let d: i128 = y as i128 - sy as i128;
    if d >= 0 {
        d
    } else {
        -d
    }
}

/// Pick the first row of the search-results list, never a row of the main
/// chat list: among lists deeper than the search box, with one to nine rows,
/// whose first row is at or below the search box, the one whose first row is
/// closest to the search box (the deeper list on ties, then the earlier one).
/// Returns the number of lists, of candidate lists, and the choice: its
/// depth, row count and first row.
pub fn select_result_first_item(pairs: &Vec<DepthNode>, search_depth: usize, search_y: i64) -> (r: (
    usize,
    usize,
    Option<(usize, usize, Rect)>,
))
    ensures
        select_result_spec(depth_nodes_view(pairs@), search_depth as nat, search_y as int) == (
            r.0 as nat,
            r.1 as nat,
            match r.2 {
                Some(c) => Some((c.0 as nat, c.1 as nat, c.2)),
                None => None,
            },
        ),
{
    let ghost ps = depth_nodes_view(pairs@);
    let mut lists: usize = 0;
    let mut cands: Vec<(usize, usize, Rect)> = Vec::new();
    let mut i: usize = 0;
    while i < pairs.len()
        invariant
            i <= pairs.len(),
            ps == depth_nodes_view(pairs@),
            lists as nat == lists_count(ps.take(i as int)),
            lists <= i,
            results_view(cands@) == result_candidates(ps.take(i as int), search_depth as nat, search_y as int),
        decreases pairs.len() - i,
    {
        assert(ps.take(i + 1).drop_last() == ps.take(i as int));
        assert(ps.take(i + 1).last() == ps[i as int]);
        if str_eq(pairs[i].node.role.as_str(), "list") {
            lists = lists + 1;
        }
        if let Some(c) = result_candidate_exec(&pairs[i], search_depth, search_y) {
            let ghost before = cands@;
            cands.push(c);
            assert(results_view(cands@) =~= results_view(before).push((c.0 as nat, c.1 as nat, c.2)));
        }
        i += 1;
    }
    assert(ps.take(pairs.len() as int) == ps);
    let ghost cs = results_view(cands@);
    if cands.len() == 0 {
        return (lists, 0, None);
    }
    let mut best: usize = 0;
    let mut k: usize = 1;
    while k < cands.len()
        invariant
            1 <= k <= cands.len(),
            cs == results_view(cands@),
            best as int == closest(cs, k as int, search_y as int),
            best < cands.len(),
        decreases cands.len() - k,
    {
        let da = dist_exec(cands[k].2.y, search_y);
        let db = dist_exec(cands[best].2.y, search_y);
        if da < db || (da == db && cands[k].0 > cands[best].0) {
            best = k;
        }
        k += 1;
    }
    (lists, cands.len(), Some(cands[best]))
}

} // verus!

verus! {

// ============================================
// Window geometry
// ============================================

pub open spec fn zero_rect() -> Rect {
    Rect { x: 0, y: 0, w: 0, h: 0 }
}

/// A field's value: the trimmed text after its `KEY=` prefix, as an `i32`,
/// zero when it does not parse.
pub open spec fn field_value(line: Seq<char>, prefix_len: int) -> i32 {
    match crate::text::parse_int_spec(crate::text::trim_spec(line.skip(prefix_len)), -0x8000_0000, 0x7fff_ffff) {
        Some(v) => v as i32,
        None => 0,
    }
}

/// One trimmed line of `getwindowgeometry --shell` output applied to the
/// geometry read so far.
pub open spec fn apply_line(r: Rect, raw: Seq<char>) -> Rect {
    let line = crate::text::trim_spec(raw);
    if crate::text::starts_with_spec(line, "X="@) {
        Rect { x: field_value(line, 2), ..r }
    } else if crate::text::starts_with_spec(line, "Y="@) {
        Rect { y: field_value(line, 2), ..r }
    } else if crate::text::starts_with_spec(line, "WIDTH="@) {
        Rect { w: field_value(line, 6), ..r }
    } else if crate::text::starts_with_spec(line, "HEIGHT="@) {
        Rect { h: field_value(line, 7), ..r }
    } else {
        r
    }
}

/// The geometry after the first `n` characters, with the line in progress.
pub open spec fn geometry_scan(s: Seq<char>, n: int) -> (Rect, Seq<char>)
    decreases n,
{
    if n <= 0 || n > s.len() {
        (zero_rect(), Seq::empty())
    } else {
        let prev = geometry_scan(s, n - 1);
        if s[n - 1] == '\n' {
            (apply_line(prev.0, prev.1), Seq::empty())
        } else {
            (prev.0, prev.1.push(s[n - 1]))
        }
    }
}

/// The window geometry an `xdotool getwindowgeometry --shell` output gives:
/// the last `X=`, `Y=`, `WIDTH=` and `HEIGHT=` line of each, zero for a field
/// missing or unparsable.
pub open spec fn geometry_spec(s: Seq<char>) -> Rect {
    let st = geometry_scan(s, s.len() as int);
    apply_line(st.0, st.1)
}

fn field_value_exec(line: &Vec<char>, prefix_len: usize) -> (r: i32)
    requires
        prefix_len <= line.len(),
    ensures
        r == field_value(line@, prefix_len as int),
{
    let mut rest: Vec<char> = Vec::new();
    let mut i: usize = prefix_len;
    while i < line.len()
        invariant
            prefix_len <= i <= line.len(),
            rest@ == line@.subrange(prefix_len as int, i as int),
        decreases line.len() - i,
    {
        rest.push(line[i]);
        i += 1;
    }
    assert(rest@ =~= line@.skip(prefix_len as int));
    let t = crate::text::trim(rest.as_slice());
    match crate::text::parse_int(t.as_slice(), -0x8000_0000, 0x7fff_ffff) {
        Some(v) => v as i32,
        None => 0,
    }
}

fn apply_line_exec(r: Rect, raw: &Vec<char>) -> (out: Rect)
    ensures
        out == apply_line(r, raw@),
{
    let line = crate::text::trim(raw.as_slice());
    let px = chars_of("X=");
    let py = chars_of("Y=");
    let pw = chars_of("WIDTH=");
    let ph = chars_of("HEIGHT=");
    proof {
        reveal_strlit("X=");
        reveal_strlit("Y=");
        reveal_strlit("WIDTH=");
        reveal_strlit("HEIGHT=");
    }
    if crate::text::starts_with(line.as_slice(), px.as_slice()) {
        Rect { x: field_value_exec(&line, 2), ..r }
    } else if crate::text::starts_with(line.as_slice(), py.as_slice()) {
        Rect { y: field_value_exec(&line, 2), ..r }
    } else if crate::text::starts_with(line.as_slice(), pw.as_slice()) {
        Rect { w: field_value_exec(&line, 6), ..r }
    } else if crate::text::starts_with(line.as_slice(), ph.as_slice()) {
        Rect { h: field_value_exec(&line, 7), ..r }
    } else {
        r
    }
}

/// Read a window's position and size from `getwindowgeometry --shell` output.
pub fn parse_window_geometry(geo: &str) -> (r: Rect)
    ensures
        r == geometry_spec(geo@),
{
    let cs = chars_of(geo);
    let mut r = Rect { x: 0, y: 0, w: 0, h: 0 };
    let mut cur: Vec<char> = Vec::new();
    let mut i: usize = 0;
    while i < cs.len()
        invariant
            i <= cs.len(),
            cs@ == geo@,
            (r, cur@) == geometry_scan(cs@, i as int),
        decreases cs.len() - i,
    {
        if cs[i] == '\n' {
            r = apply_line_exec(r, &cur);
            cur = Vec::new();
        } else {
            cur.push(cs[i]);
        }
        i += 1;
    }
    apply_line_exec(r, &cur)
}

/// A visible window beats the best so far: it has a size and a larger area.
pub open spec fn better_window(r: Rect, best: Option<Rect>) -> bool {
    r.w > 0 && r.h > 0 && match best {
        Some(b) => r.w * r.h > b.w * b.h,
        None => true,
    }
}

proof fn lemma_mul_i32(a: i32, b: i32)
    ensures
        -0x4000_0000_0000_0000 <= a * b <= 0x4000_0000_0000_0000,
{
    assert(-0x8000_0000 <= a <= 0x7fff_ffff);
    assert(-0x4000_0000_0000_0000 <= a * b <= 0x4000_0000_0000_0000) by (nonlinear_arith)
        requires
            -0x8000_0000 <= a <= 0x7fff_ffff,
            -0x8000_0000 <= b <= 0x7fff_ffff,
    ;
}

pub fn is_better_window(r: Rect, best: Option<Rect>) -> (out: bool)
    ensures
        out == better_window(r, best),
{
    proof {
        lemma_mul_i32(r.w, r.h);
        if let Some(b) = best {
            lemma_mul_i32(b.w, b.h);
        }
    }
    r.w > 0 && r.h > 0 && match best {
        Some(b) => (r.w as i64) * (r.h as i64) > (b.w as i64) * (b.h as i64),
        None => true,
    }
}

} // verus!

verus! {

// ============================================
// The open-chat run
// ============================================

/// What the run waits for.
#[derive(Clone, Copy, Debug, PartialEq, Eq, Structural)]
pub enum OpenStage {
    AwaitResolve,
    AwaitWindow,
    Activating,
    Settling,
    AwaitTree,
    Escape1,
    Escape1Pause,
    AwaitEscapeTree1,
    Escape2,
    Escape2Pause,
    AwaitEscapeTree2,
    Clicking,
    ClickPause,
    SelectingAll,
    Deleting,
    Typing,
    TypePause,
    AwaitResults,
    ResultClicking,
    KbTree(bool),
    KbDown(bool),
    KbReturn(bool),
    ConfirmPause,
    AwaitConfirm,
    RetryPause,
    AwaitRetryConfirm,
    Finished,
}

/// The answer to the run's last request.
#[derive(Debug)]
pub enum OpenChatEvent {
    /// The chat's display name and whether it is a group, or an error code.
    Resolved(Result<(String, bool), &'static str>),
    /// The main window's id and rectangle, if one is visible.
    Window(Option<(String, Rect)>),
    /// The input was sent or the pause is over.
    Done,
    /// The accessibility tree, if it could be read.
    Tree(Option<A11yNode>),
}

/// What the run asks for next.
#[derive(Debug)]
pub enum OpenChatAction {
    /// Look up the chat's display name in the decrypted database.
    ResolveTarget(String),
    /// Find the largest visible WeChat window.
    FindMainWindow,
    /// Run `xdotool` with these arguments, ignoring its result.
    Xdotool(Vec<String>),
    /// Pause this many milliseconds.
    Sleep(u64),
    /// Read the accessibility tree.
    ReadTree,
    /// The run is over.
    Finish(OpenChatOutcome),
}

pub enum EventSpec {
    Resolved(Result<(Seq<char>, bool), Seq<char>>),
    Window(Option<(Seq<char>, Rect)>),
    Done,
    Tree(Option<A11yNode>),
}

pub enum ActSpec {
    ResolveTarget(Seq<char>),
    FindMainWindow,
    Xdotool(Seq<Seq<char>>),
    Sleep(nat),
    ReadTree,
    Finish(OutcomeSpec),
}

pub open spec fn event_view(e: OpenChatEvent) -> EventSpec {
    match e {
        OpenChatEvent::Resolved(r) => EventSpec::Resolved(
            match r {
                Ok(p) => Ok((p.0@, p.1)),
                Err(c) => Err(c@),
            },
        ),
        OpenChatEvent::Window(w) => EventSpec::Window(
            match w {
                Some(p) => Some((p.0@, p.1)),
                None => None,
            },
        ),
        OpenChatEvent::Done => EventSpec::Done,
        OpenChatEvent::Tree(t) => EventSpec::Tree(t),
    }
}

pub open spec fn act_view(a: OpenChatAction) -> ActSpec {
    match a {
        OpenChatAction::ResolveTarget(c) => ActSpec::ResolveTarget(c@),
        OpenChatAction::FindMainWindow => ActSpec::FindMainWindow,
        OpenChatAction::Xdotool(v) => ActSpec::Xdotool(crate::plans::strings_view(v@)),
        OpenChatAction::Sleep(ms) => ActSpec::Sleep(ms as nat),
        OpenChatAction::ReadTree => ActSpec::ReadTree,
        OpenChatAction::Finish(o) => ActSpec::Finish(outcome_view(o)),
    }
}

/// The state of an open-chat run.
pub struct OpenChatRun {
    pub stage: OpenStage,
    pub opts: OpenChatOptions,
    pub out: OpenChatOutcome,
    pub name: String,
    pub win: Rect,
    pub search_depth: usize,
    pub search_rect: Option<Rect>,
    pub sx: i64,
    pub sy: i64,
    pub keyboard_fallback: bool,
    pub confirmed: bool,
}

pub struct RunSpec {
    pub stage: OpenStage,
    pub opts: OpenChatOptions,
    pub out: OutcomeSpec,
    pub name: Seq<char>,
    pub win: Rect,
    pub search_depth: nat,
    pub search_rect: Option<Rect>,
    pub sx: int,
    pub sy: int,
    pub keyboard_fallback: bool,
    pub confirmed: bool,
}

pub open spec fn run_view(r: OpenChatRun) -> RunSpec {
    RunSpec {
        stage: r.stage,
        opts: r.opts,
        out: outcome_view(r.out),
        name: r.name@,
        win: r.win,
        search_depth: r.search_depth as nat,
        search_rect: r.search_rect,
        sx: r.sx as int,
        sy: r.sy as int,
        keyboard_fallback: r.keyboard_fallback,
        confirmed: r.confirmed,
    }
}

/// The kind of answer each stage waits for; a finished run waits for none.
pub open spec fn event_fits(stage: OpenStage, e: EventSpec) -> bool {
    match stage {
        OpenStage::AwaitResolve => e is Resolved,
        OpenStage::AwaitWindow => e is Window,
        OpenStage::AwaitTree | OpenStage::AwaitEscapeTree1 | OpenStage::AwaitEscapeTree2
        | OpenStage::AwaitResults | OpenStage::KbTree(_) | OpenStage::AwaitConfirm
        | OpenStage::AwaitRetryConfirm => e is Tree,
        OpenStage::Finished => false,
        _ => e is Done,
    }
}

/// `a / b` rounded toward zero, for `b > 0`.
pub open spec fn trunc_div(a: int, b: int) -> int {
    if a >= 0 {
        a / b
    } else {
        -((-a) / b)
    }
}

/// `xdotool key --clearmodifiers <k>`.
pub open spec fn key_args(k: Seq<char>) -> Seq<Seq<char>> {
    seq!["key"@, "--clearmodifiers"@, k]
}

/// `xdotool mousemove <x> <y> click 1`.
pub open spec fn click_args(x: int, y: int) -> Seq<Seq<char>> {
    seq![
        "mousemove"@,
        crate::text::signed_decimal(x),
        crate::text::signed_decimal(y),
        "click"@,
        "1"@,
    ]
}

/// Where the search box is: from the tree when found, else near the top left
/// of the main window (with an unknown depth, so no results list qualifies).
pub open spec fn locate_search(r: RunSpec, t: A11yNode) -> RunSpec {
    match search_box_spec(t) {
        Some((d, b)) => RunSpec {
            search_depth: d,
            search_rect: Some(b),
            sx: b.x + trunc_div(b.w as int, 2),
            sy: b.y + trunc_div(b.h as int, 2),
            out: OutcomeSpec { search_box_present: true, ..r.out },
            ..r
        },
        None => RunSpec {
            search_depth: usize::MAX as nat,
            search_rect: None,
            sx: r.win.x + trunc_div(12 * r.win.w, 100),
            sy: r.win.y + 45,
            ..r
        },
    }
}

/// After the Escapes: take the search box from the fresh tree when it has
/// one, and go on to click it.
pub open spec fn after_unfocus(r: RunSpec, t: Option<A11yNode>) -> (RunSpec, ActSpec) {
    let r1 = match t {
        Some(tt) => match search_box_spec(tt) {
            Some((d, b)) => RunSpec {
                search_depth: d,
                search_rect: Some(b),
                sx: b.x + trunc_div(b.w as int, 2),
                sy: b.y + trunc_div(b.h as int, 2),
                ..r
            },
            None => r,
        },
        None => r,
    };
    let r2 = RunSpec { out: OutcomeSpec { pre_search_unfocus: true, ..r1.out }, ..r1 };
    (RunSpec { stage: OpenStage::Clicking, ..r2 }, ActSpec::Xdotool(click_args(r2.sx, r2.sy)))
}

pub open spec fn finish_with(r: RunSpec, code: Seq<char>) -> (RunSpec, ActSpec) {
    let out = OutcomeSpec { error: Some(code), ..r.out };
    (RunSpec { stage: OpenStage::Finished, out, ..r }, ActSpec::Finish(out))
}

/// The end: record whether the chat opened, with the matching error if not.
pub open spec fn finalize(r: RunSpec) -> (RunSpec, ActSpec) {
    let out = OutcomeSpec {
        open_confirmed: r.confirmed,
        error: if !r.confirmed {
            Some(
                if r.opts.send_safe {
                    "open_not_confirmed_send_safe"@
                } else {
                    "open_not_confirmed"@
                },
            )
        } else {
            r.out.error
        },
        ..r.out
    };
    (RunSpec { stage: OpenStage::Finished, out, ..r }, ActSpec::Finish(out))
}

pub open spec fn tree_shows_chat(t: Option<A11yNode>) -> bool {
    match t {
        Some(tt) => chat_open_spec(tt),
        None => false,
    }
}

/// The run's next state and request, given the answer to its last request.
pub open spec fn open_chat_next(r: RunSpec, e: EventSpec) -> (RunSpec, ActSpec) {
    match (r.stage, e) {
        (OpenStage::AwaitResolve, EventSpec::Resolved(res)) => match res {
            Err(code) => finish_with(r, code),
            Ok((name, _)) => (
                RunSpec {
                    stage: OpenStage::AwaitWindow,
                    name,
                    out: OutcomeSpec {
                        resolved_name_present: true,
                        resolved_name_length: name.len(),
                        ..r.out
                    },
                    ..r
                },
                ActSpec::FindMainWindow,
            ),
        },
        (OpenStage::AwaitWindow, EventSpec::Window(w)) => match w {
            None => finish_with(r, "xdotool_missing"@),
            Some((id, win)) => (
                RunSpec { stage: OpenStage::Activating, win, ..r },
                ActSpec::Xdotool(seq!["windowactivate"@, id]),
            ),
        },
        (OpenStage::Activating, _) => (RunSpec { stage: OpenStage::Settling, ..r }, ActSpec::Sleep(400)),
        (OpenStage::Settling, _) => (RunSpec { stage: OpenStage::AwaitTree, ..r }, ActSpec::ReadTree),
        (OpenStage::AwaitTree, EventSpec::Tree(t)) => match t {
            None => finish_with(r, "a11y_unavailable"@),
            Some(tt) => {
                let r1 = locate_search(r, tt);
                if r.opts.dry_run {
                    (RunSpec { stage: OpenStage::Finished, ..r1 }, ActSpec::Finish(r1.out))
                } else if r.opts.send_safe && chat_open_spec(tt) {
                    (RunSpec { stage: OpenStage::Escape1, ..r1 }, ActSpec::Xdotool(key_args("Escape"@)))
                } else {
                    (RunSpec { stage: OpenStage::Clicking, ..r1 }, ActSpec::Xdotool(click_args(r1.sx, r1.sy)))
                }
            },
        },
        (OpenStage::Escape1, _) => (RunSpec { stage: OpenStage::Escape1Pause, ..r }, ActSpec::Sleep(350)),
        (OpenStage::Escape1Pause, _) => (RunSpec { stage: OpenStage::AwaitEscapeTree1, ..r }, ActSpec::ReadTree),
        (OpenStage::AwaitEscapeTree1, EventSpec::Tree(t)) => if tree_shows_chat(t) {
            (RunSpec { stage: OpenStage::Escape2, ..r }, ActSpec::Xdotool(key_args("Escape"@)))
        } else {
            after_unfocus(r, t)
        },
        (OpenStage::Escape2, _) => (RunSpec { stage: OpenStage::Escape2Pause, ..r }, ActSpec::Sleep(350)),
        (OpenStage::Escape2Pause, _) => (RunSpec { stage: OpenStage::AwaitEscapeTree2, ..r }, ActSpec::ReadTree),
        (OpenStage::AwaitEscapeTree2, EventSpec::Tree(t)) => after_unfocus(r, t),
        (OpenStage::Clicking, _) => (RunSpec { stage: OpenStage::ClickPause, ..r }, ActSpec::Sleep(300)),
        (OpenStage::ClickPause, _) => (
            RunSpec { stage: OpenStage::SelectingAll, ..r },
            ActSpec::Xdotool(key_args("ctrl+a"@)),
        ),
        (OpenStage::SelectingAll, _) => (
            RunSpec { stage: OpenStage::Deleting, ..r },
            ActSpec::Xdotool(key_args("Delete"@)),
        ),
        (OpenStage::Deleting, _) => (
            RunSpec { stage: OpenStage::Typing, ..r },
            ActSpec::Xdotool(seq!["type"@, "--clearmodifiers"@, "--"@, r.name]),
        ),
        (OpenStage::Typing, _) => (RunSpec { stage: OpenStage::TypePause, ..r }, ActSpec::Sleep(1500)),
        (OpenStage::TypePause, _) => (RunSpec { stage: OpenStage::AwaitResults, ..r }, ActSpec::ReadTree),
        (OpenStage::AwaitResults, EventSpec::Tree(t)) => match t {
            None => finish_with(r, "a11y_unavailable"@),
            Some(tt) => match select_result_spec(with_depth(tt, 0), r.search_depth, r.sy).2 {
                Some((_, _, first)) => (
                    RunSpec {
                        stage: OpenStage::ResultClicking,
                        out: OutcomeSpec { result_clicked: true, ..r.out },
                        ..r
                    },
                    ActSpec::Xdotool(
                        click_args(
                            first.x + trunc_div(first.w as int, 2),
                            first.y + trunc_div(first.h as int, 2),
                        ),
                    ),
                ),
                None => if r.opts.allow_keyboard_fallback {
                    (RunSpec { stage: OpenStage::KbTree(false), ..r }, ActSpec::ReadTree)
                } else {
                    finish_with(r, "keyboard_fallback_suppressed"@)
                },
            },
        },
        (OpenStage::ResultClicking, _) => (RunSpec { stage: OpenStage::ConfirmPause, ..r }, ActSpec::Sleep(1000)),
        (OpenStage::KbTree(retry), EventSpec::Tree(t)) => if t matches Some(tt) && focus_on_search_spec(
            tt,
            r.search_rect,
        ) {
            (RunSpec { stage: OpenStage::KbDown(retry), ..r }, ActSpec::Xdotool(key_args("Down"@)))
        } else if !retry {
            finish_with(r, "keyboard_fallback_unsafe_focus"@)
        } else {
            finalize(r)
        },
        (OpenStage::KbDown(retry), _) => (
            RunSpec { stage: OpenStage::KbReturn(retry), ..r },
            ActSpec::Xdotool(key_args("Return"@)),
        ),
        (OpenStage::KbReturn(retry), _) => if !retry {
            (
                RunSpec {
                    stage: OpenStage::ConfirmPause,
                    keyboard_fallback: true,
                    out: OutcomeSpec { result_clicked: true, ..r.out },
                    ..r
                },
                ActSpec::Sleep(1000),
            )
        } else {
            (RunSpec { stage: OpenStage::RetryPause, keyboard_fallback: true, ..r }, ActSpec::Sleep(1000))
        },
        (OpenStage::ConfirmPause, _) => (RunSpec { stage: OpenStage::AwaitConfirm, ..r }, ActSpec::ReadTree),
        (OpenStage::AwaitConfirm, EventSpec::Tree(t)) => {
            let r1 = RunSpec { confirmed: tree_shows_chat(t), ..r };
            if !r1.confirmed && !r.keyboard_fallback && r.opts.allow_keyboard_fallback {
                (RunSpec { stage: OpenStage::KbTree(true), ..r1 }, ActSpec::ReadTree)
            } else {
                finalize(r1)
            }
        },
        (OpenStage::RetryPause, _) => (RunSpec { stage: OpenStage::AwaitRetryConfirm, ..r }, ActSpec::ReadTree),
        (OpenStage::AwaitRetryConfirm, EventSpec::Tree(t)) => finalize(
            RunSpec { confirmed: tree_shows_chat(t), ..r },
        ),
        _ => (r, ActSpec::Finish(r.out)),
    }
}

/// The stages of the keyboard fallback (arrow down, then Return).
pub open spec fn keyboard_stage(s: OpenStage) -> bool {
    s is KbTree || s is KbDown || s is KbReturn
}

/// A run without the keyboard fallback (the send path) never enters the
/// keyboard stages and never presses Return, so opening a chat cannot send
/// a message from a focused composer; its options never change.
pub proof fn lemma_no_keyboard_without_fallback(r: RunSpec, e: EventSpec)
    requires
        !r.opts.allow_keyboard_fallback,
        !keyboard_stage(r.stage),
    ensures
        !keyboard_stage(open_chat_next(r, e).0.stage),
        open_chat_next(r, e).0.opts == r.opts,
        open_chat_next(r, e).1 != ActSpec::Xdotool(key_args("Return"@)),
{
    reveal_strlit("Return");
    reveal_strlit("Escape");
    reveal_strlit("ctrl+a");
    reveal_strlit("Delete");
    assert("Escape"@[0] != "Return"@[0]);
    assert("ctrl+a"@[0] != "Return"@[0]);
    assert("Delete"@[0] != "Return"@[0]);
    assert(key_args("Escape"@) != key_args("Return"@)) by {
        assert(key_args("Escape"@)[2] != key_args("Return"@)[2]);
    }
    assert(key_args("ctrl+a"@) != key_args("Return"@)) by {
        assert(key_args("ctrl+a"@)[2] != key_args("Return"@)[2]);
    }
    assert(key_args("Delete"@) != key_args("Return"@)) by {
        assert(key_args("Delete"@)[2] != key_args("Return"@)[2]);
    }
    assert(key_args("Return"@).len() == 3);
    assert forall|x: int, y: int| #[trigger] click_args(x, y).len() != 3 by {}
    match e {
        EventSpec::Window(Some((id, _))) => {
            assert(seq!["windowactivate"@, id].len() == 2);
        },
        _ => {},
    }
    assert(seq!["type"@, "--clearmodifiers"@, "--"@, r.name].len() != 3);
}

} // verus!

verus! {

/// `a + trunc(b / 2)`, the centre coordinate of a span.
fn mid(a: i32, b: i32) -> (r: i64)
    ensures
        r == a + trunc_div(b as int, 2),
{
    let w = b as i64;
    let h: i64 = if w >= 0 {
        w / 2
    } else {
        -((-w) / 2)
    };
    a as i64 + h
}

fn strings2(a: &str, b: &str) -> (v: Vec<String>)
    ensures
        crate::plans::strings_view(v@) == seq![a@, b@],
{
    let mut v: Vec<String> = Vec::new();
    v.push(a.to_owned());
    v.push(b.to_owned());
    assert(crate::plans::strings_view(v@) =~= seq![a@, b@]);
    v
}

fn key_args_exec(k: &str) -> (v: Vec<String>)
    ensures
        crate::plans::strings_view(v@) == key_args(k@),
{
    let mut v: Vec<String> = Vec::new();
    v.push("key".to_owned());
    v.push("--clearmodifiers".to_owned());
    v.push(k.to_owned());
    assert(crate::plans::strings_view(v@) =~= key_args(k@));
    v
}

fn click_args_exec(x: i64, y: i64) -> (v: Vec<String>)
    ensures
        crate::plans::strings_view(v@) == click_args(x as int, y as int),
{
    let mut xs = String::new();
    crate::text::push_signed_decimal(x, &mut xs);
    let mut ys = String::new();
    crate::text::push_signed_decimal(y, &mut ys);
    assert(xs@ =~= crate::text::signed_decimal(x as int));
    assert(ys@ =~= crate::text::signed_decimal(y as int));
    let mut v: Vec<String> = Vec::new();
    v.push("mousemove".to_owned());
    v.push(xs);
    v.push(ys);
    v.push("click".to_owned());
    v.push("1".to_owned());
    assert(crate::plans::strings_view(v@) =~= click_args(x as int, y as int));
    v
}

impl OpenChatRun {
    /// Whether the run waits for an answer of this kind.
    pub fn accepts(&self, event: &OpenChatEvent) -> (r: bool)
        ensures
            r == event_fits(self.stage, event_view(*event)),
    {
        match self.stage {
            OpenStage::AwaitResolve => matches!(event, OpenChatEvent::Resolved(_)),
            OpenStage::AwaitWindow => matches!(event, OpenChatEvent::Window(_)),
            OpenStage::AwaitTree | OpenStage::AwaitEscapeTree1 | OpenStage::AwaitEscapeTree2
            | OpenStage::AwaitResults | OpenStage::KbTree(_) | OpenStage::AwaitConfirm
            | OpenStage::AwaitRetryConfirm => matches!(event, OpenChatEvent::Tree(_)),
            OpenStage::Finished => false,
            _ => matches!(event, OpenChatEvent::Done),
        }
    }

    /// Begin a run: ask for the chat's display name.
    pub fn start(chat_id: &str, opts: OpenChatOptions) -> (r: (OpenChatRun, OpenChatAction))
        ensures
            run_view(r.0).stage == OpenStage::AwaitResolve,
            run_view(r.0).opts == opts,
            run_view(r.0).out == (OutcomeSpec { chat_id_present: chat_id@.len() > 0, ..blank_outcome() }),
            run_view(r.0).keyboard_fallback == false,
            run_view(r.0).confirmed == false,
            act_view(r.1) == ActSpec::ResolveTarget(chat_id@),
    {
        let run = OpenChatRun {
            stage: OpenStage::AwaitResolve,
            opts,
            out: OpenChatOutcome {
                method: "a11y_search",
                chat_id_present: !chat_id.is_empty(),
                resolved_name_present: false,
                resolved_name_length: 0,
                search_box_present: false,
                result_clicked: false,
                open_confirmed: false,
                pre_search_unfocus: false,
                error: None,
            },
            name: String::new(),
            win: Rect { x: 0, y: 0, w: 0, h: 0 },
            search_depth: 0,
            search_rect: None,
            sx: 0,
            sy: 0,
            keyboard_fallback: false,
            confirmed: false,
        };
        (run, OpenChatAction::ResolveTarget(chat_id.to_owned()))
    }

    fn locate_search_exec(&mut self, t: &A11yNode)
        ensures
            run_view(*final(self)) == locate_search(run_view(*old(self)), *t),
    {
        match find_search_box_node(t) {
            Some((d, b)) => {
                self.search_depth = d;
                self.search_rect = Some(b);
                self.sx = mid(b.x, b.w);
                self.sy = mid(b.y, b.h);
                self.out.search_box_present = true;
            },
            None => {
                self.search_depth = usize::MAX;
                self.search_rect = None;
                let a: i64 = 12 * (self.win.w as i64);
                let off: i64 = if a >= 0 {
                    a / 100
                } else {
                    -((-a) / 100)
                };
                self.sx = self.win.x as i64 + off;
                self.sy = self.win.y as i64 + 45;
            },
        }
    }

    fn after_unfocus_exec(&mut self, t: &Option<A11yNode>) -> (a: OpenChatAction)
        ensures
            (run_view(*final(self)), act_view(a)) == after_unfocus(run_view(*old(self)), *t),
    {
        if let Some(tt) = t {
            if let Some((d, b)) = find_search_box_node(tt) {
                self.search_depth = d;
                self.search_rect = Some(b);
                self.sx = mid(b.x, b.w);
                self.sy = mid(b.y, b.h);
            }
        }
        self.out.pre_search_unfocus = true;
        self.stage = OpenStage::Clicking;
        OpenChatAction::Xdotool(click_args_exec(self.sx, self.sy))
    }

    fn finish_with_exec(&mut self, code: &'static str) -> (a: OpenChatAction)
        ensures
            (run_view(*final(self)), act_view(a)) == finish_with(run_view(*old(self)), code@),
    {
        self.out.error = Some(code);
        self.stage = OpenStage::Finished;
        OpenChatAction::Finish(self.out)
    }

    fn finalize_exec(&mut self) -> (a: OpenChatAction)
        ensures
            (run_view(*final(self)), act_view(a)) == finalize(run_view(*old(self))),
    {
        self.out.open_confirmed = self.confirmed;
        if !self.confirmed {
            self.out.error = Some(
                if self.opts.send_safe {
                    "open_not_confirmed_send_safe"
                } else {
                    "open_not_confirmed"
                },
            );
        }
        self.stage = OpenStage::Finished;
        OpenChatAction::Finish(self.out)
    }

    fn go(&mut self, stage: OpenStage, a: OpenChatAction) -> (r: OpenChatAction)
        ensures
            run_view(*final(self)) == (RunSpec { stage, ..run_view(*old(self)) }),
            act_view(r) == act_view(a),
    {
        self.stage = stage;
        a
    }

    /// Advance the run with the answer to its last request.
    #[verifier::rlimit(100)]
    #[verifier::spinoff_prover]
    pub fn step(&mut self, event: OpenChatEvent) -> (a: OpenChatAction)
        requires
            event_fits(old(self).stage, event_view(event)),
        ensures
            (run_view(*final(self)), act_view(a)) == open_chat_next(run_view(*old(self)), event_view(event)),
    {
        match (self.stage, event) {
            (OpenStage::AwaitResolve, OpenChatEvent::Resolved(res)) => match res {
                Err(code) => self.finish_with_exec(code),
                Ok((name, _)) => {
                    let cs = chars_of(name.as_str());
                    self.out.resolved_name_present = true;
                    self.out.resolved_name_length = cs.len();
                    self.name = name;
                    self.go(OpenStage::AwaitWindow, OpenChatAction::FindMainWindow)
                },
            },
            (OpenStage::AwaitWindow, OpenChatEvent::Window(w)) => match w {
                None => self.finish_with_exec("xdotool_missing"),
                Some((id, win)) => {
                    self.win = win;
                    let args = strings2("windowactivate", id.as_str());
                    self.go(OpenStage::Activating, OpenChatAction::Xdotool(args))
                },
            },
            (OpenStage::Activating, _) => self.go(OpenStage::Settling, OpenChatAction::Sleep(400)),
            (OpenStage::Settling, _) => self.go(OpenStage::AwaitTree, OpenChatAction::ReadTree),
            (OpenStage::AwaitTree, OpenChatEvent::Tree(t)) => match t {
                None => self.finish_with_exec("a11y_unavailable"),
                Some(tt) => {
                    self.locate_search_exec(&tt);
                    if self.opts.dry_run {
                        self.stage = OpenStage::Finished;
                        OpenChatAction::Finish(self.out)
                    } else if needs_pre_search_unfocus(self.opts.send_safe, chat_is_open(&tt)) {
                        self.go(OpenStage::Escape1, OpenChatAction::Xdotool(key_args_exec("Escape")))
                    } else {
                        let args = click_args_exec(self.sx, self.sy);
                        self.go(OpenStage::Clicking, OpenChatAction::Xdotool(args))
                    }
                },
            },
            (OpenStage::Escape1, _) => self.go(OpenStage::Escape1Pause, OpenChatAction::Sleep(350)),
            (OpenStage::Escape1Pause, _) => self.go(OpenStage::AwaitEscapeTree1, OpenChatAction::ReadTree),
            (OpenStage::AwaitEscapeTree1, OpenChatEvent::Tree(t)) => {
                let open = match &t {
                    Some(tt) => chat_is_open(tt),
                    None => false,
                };
                if open {
                    self.go(OpenStage::Escape2, OpenChatAction::Xdotool(key_args_exec("Escape")))
                } else {
                    self.after_unfocus_exec(&t)
                }
            },
            (OpenStage::Escape2, _) => self.go(OpenStage::Escape2Pause, OpenChatAction::Sleep(350)),
            (OpenStage::Escape2Pause, _) => self.go(OpenStage::AwaitEscapeTree2, OpenChatAction::ReadTree),
            (OpenStage::AwaitEscapeTree2, OpenChatEvent::Tree(t)) => self.after_unfocus_exec(&t),
            (OpenStage::Clicking, _) => self.go(OpenStage::ClickPause, OpenChatAction::Sleep(300)),
            (OpenStage::ClickPause, _) => self.go(
                OpenStage::SelectingAll,
                OpenChatAction::Xdotool(key_args_exec("ctrl+a")),
            ),
            (OpenStage::SelectingAll, _) => self.go(
                OpenStage::Deleting,
                OpenChatAction::Xdotool(key_args_exec("Delete")),
            ),
            (OpenStage::Deleting, _) => {
                let mut v: Vec<String> = Vec::new();
                v.push("type".to_owned());
                v.push("--clearmodifiers".to_owned());
                v.push("--".to_owned());
                v.push(self.name.clone());
                assert(crate::plans::strings_view(v@) =~= seq!["type"@, "--clearmodifiers"@, "--"@, self.name@]);
                self.go(OpenStage::Typing, OpenChatAction::Xdotool(v))
            },
            (OpenStage::Typing, _) => self.go(OpenStage::TypePause, OpenChatAction::Sleep(1500)),
            (OpenStage::TypePause, _) => self.go(OpenStage::AwaitResults, OpenChatAction::ReadTree),
            (OpenStage::AwaitResults, OpenChatEvent::Tree(t)) => match t {
                None => self.finish_with_exec("a11y_unavailable"),
                Some(tt) => {
                    let mut pairs: Vec<DepthNode> = Vec::new();
                    assert(depth_nodes_view(pairs@) =~= Seq::<(nat, A11yNode)>::empty());
                    collect_with_depth(&tt, 0, &mut pairs);
                    assert(depth_nodes_view(pairs@) =~= with_depth(tt, 0));
                    let (_, _, chosen) = select_result_first_item(&pairs, self.search_depth, self.sy);
                    match chosen {
                        Some((_, _, first)) => {
                            self.out.result_clicked = true;
                            let args = click_args_exec(mid(first.x, first.w), mid(first.y, first.h));
                            self.go(OpenStage::ResultClicking, OpenChatAction::Xdotool(args))
                        },
                        None => {
                            if self.opts.allow_keyboard_fallback {
                                self.go(OpenStage::KbTree(false), OpenChatAction::ReadTree)
                            } else {
                                self.finish_with_exec("keyboard_fallback_suppressed")
                            }
                        },
                    }
                },
            },
            (OpenStage::ResultClicking, _) => self.go(OpenStage::ConfirmPause, OpenChatAction::Sleep(1000)),
            (OpenStage::KbTree(retry), OpenChatEvent::Tree(t)) => {
                let safe = match &t {
                    Some(tt) => focused_editable_is_search_box(tt, self.search_rect),
                    None => false,
                };
                if safe {
                    self.go(OpenStage::KbDown(retry), OpenChatAction::Xdotool(key_args_exec("Down")))
                } else if !retry {
                    self.finish_with_exec("keyboard_fallback_unsafe_focus")
                } else {
                    self.finalize_exec()
                }
            },
            (OpenStage::KbDown(retry), _) => self.go(
                OpenStage::KbReturn(retry),
                OpenChatAction::Xdotool(key_args_exec("Return")),
            ),
            (OpenStage::KbReturn(retry), _) => {
                self.keyboard_fallback = true;
                if !retry {
                    self.out.result_clicked = true;
                    self.go(OpenStage::ConfirmPause, OpenChatAction::Sleep(1000))
                } else {
                    self.go(OpenStage::RetryPause, OpenChatAction::Sleep(1000))
                }
            },
            (OpenStage::ConfirmPause, _) => self.go(OpenStage::AwaitConfirm, OpenChatAction::ReadTree),
            (OpenStage::AwaitConfirm, OpenChatEvent::Tree(t)) => {
                self.confirmed = match &t {
                    Some(tt) => chat_is_open(tt),
                    None => false,
                };
                if !self.confirmed && !self.keyboard_fallback && self.opts.allow_keyboard_fallback {
                    self.go(OpenStage::KbTree(true), OpenChatAction::ReadTree)
                } else {
                    self.finalize_exec()
                }
            },
            (OpenStage::RetryPause, _) => self.go(OpenStage::AwaitRetryConfirm, OpenChatAction::ReadTree),
            (OpenStage::AwaitRetryConfirm, OpenChatEvent::Tree(t)) => {
                self.confirmed = match &t {
                    Some(tt) => chat_is_open(tt),
                    None => false,
                };
                self.finalize_exec()
            },
            _ => OpenChatAction::Finish(self.out),
        }
    }
}

} // verus!

verus! {

/// The display-name lookup's answer: without a logged-in user,
/// `not_logged_in`; without the decrypted session and contact databases or
/// without the chat, `chat_not_found_in_db`; with a blank name,
/// `display_name_missing`; else the name and whether the chat is a group.
pub open spec fn resolve_spec(user_known: bool, has_chat_dbs: bool, chat: Option<(Seq<char>, bool)>) -> Result<
    (Seq<char>, bool),
    Seq<char>,
> {
    if !user_known {
        Err("not_logged_in"@)
    } else if !has_chat_dbs {
        Err("chat_not_found_in_db"@)
    } else {
        match chat {
            None => Err("chat_not_found_in_db"@),
            Some((name, group)) => if crate::text::trim_spec(name).len() == 0 {
                Err("display_name_missing"@)
            } else {
                Ok((name, group))
            },
        }
    }
}

/// Decide the display-name lookup from what the session, the stored keys and
/// the chat database said.
pub fn resolve_target_outcome(user_known: bool, has_chat_dbs: bool, chat: Option<(String, bool)>) -> (r:
    Result<(String, bool), &'static str>)
    ensures
        resolve_spec(
            user_known,
            has_chat_dbs,
            match chat {
                Some(c) => Some((c.0@, c.1)),
                None => None,
            },
        ) == match r {
            Ok(p) => Ok((p.0@, p.1)),
            Err(c) => Err(c@),
        },
{
    if !user_known {
        return Err("not_logged_in");
    }
    if !has_chat_dbs {
        return Err("chat_not_found_in_db");
    }
    match chat {
        None => Err("chat_not_found_in_db"),
        Some((name, group)) => {
            let cs = chars_of(name.as_str());
            let t = crate::text::trim(cs.as_slice());
            if t.len() == 0 {
                Err("display_name_missing")
            } else {
                Ok((name, group))
            }
        },
    }
}

} // verus!
