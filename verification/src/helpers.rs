//! Lookups over the accessibility tree that several plans and states share.
use vstd::prelude::*;
use crate::selectors::{deref_opt, query_selector, query_selector_spec};
use crate::text::{chars_of, decimal, seq_eq, str_eq};
use crate::types::{A11yNode, Bounds, FrameHint, FrameSpec, has_state, kids, center_of};

verus! {

// ============================================
// Chat-id hashing
// ============================================

/// The 32 bits of the rolling `h * 31 + c` hash of a string, as an unsigned
/// number (the two's-complement bits of the wrapping `i32` computation).
pub open spec fn hash_bits(s: Seq<char>) -> nat
    decreases s.len(),
{
    if s.len() == 0 {
        0
    } else {
        ((31 * hash_bits(s.drop_last()) + (s.last() as u32) as nat) % 0x1_0000_0000) as nat
    }
}

/// The magnitude of the `i32` whose bits are `h`.
pub open spec fn abs_of_bits(h: nat) -> nat {
    if h < 0x8000_0000 {
        h
    } else {
        (0x1_0000_0000 - h) as nat
    }
}

/// The stable hash of a string, in decimal.
pub open spec fn hash_string_spec(s: Seq<char>) -> Seq<char> {
    decimal(abs_of_bits(hash_bits(s)))
}

/// Stable hash of a string: the magnitude of its wrapping `i32` rolling hash.
pub fn hash_string(s: &str) -> (r: String)
    ensures
        r@ == hash_string_spec(s@),
{
    let cs = chars_of(s);
    let mut h: u64 = 0;
    let mut i: usize = 0;
    while i < cs.len()
        invariant
            i <= cs.len(),
            cs@ == s@,
            h == hash_bits(cs@.take(i as int)),
            h < 0x1_0000_0000,
        decreases cs.len() - i,
    {
        assert(cs@.take(i + 1).drop_last() == cs@.take(i as int));
        assert(cs@.take(i + 1).last() == cs@[i as int]);
        let ch = cs[i];
        let c: u32 = ch as u32;
        h = (31 * h + c as u64) % 0x1_0000_0000;
        i += 1;
    }
    assert(cs@.take(cs.len() as int) == cs@);
    let mag: u64 = if h < 0x8000_0000 {
        h
    } else {
        0x1_0000_0000 - h
    };
    let mut out = String::new();
    crate::text::push_decimal(mag, &mut out);
    out
}

/// The chat id derived from the message view's header label.
pub open spec fn active_chat_id(a11y: A11yNode) -> Option<Seq<char>> {
    match query_selector_spec(a11y, "label[name=/.+/]"@) {
        Some(h) => if h.name@.len() > 0 {
            Some("chat_"@ + hash_string_spec(h.name@))
        } else {
            None
        },
        None => None,
    }
}

/// Extract the active chat id from the message view header.
pub fn extract_active_chat_id(a11y: &A11yNode) -> (r: Option<String>)
    ensures
        match r {
            Some(s) => active_chat_id(*a11y) == Some(s@),
            None => active_chat_id(*a11y) is None,
        },
{
    let header = query_selector(a11y, "label[name=/.+/]");
    match header {
        Some(h) => {
            if !h.name.as_str().is_empty() {
                let hs = hash_string(h.name.as_str());
                let mut out = "chat_".to_owned();
                let hc = chars_of(hs.as_str());
                let mut i: usize = 0;
                while i < hc.len()
                    invariant
                        i <= hc.len(),
                        hc@ == hs@,
                        out@ == "chat_"@ + hc@.take(i as int),
                    decreases hc.len() - i,
                {
                    out.push(hc[i]);
                    i += 1;
                    assert(hc@.take(i as int) == hc@.take(i - 1).push(hc@[i - 1]));
                }
                assert(hc@.take(hc.len() as int) == hc@);
                Some(out)
            } else {
                None
            }
        },
        None => None,
    }
}

// ============================================
// Bounds and states
// ============================================

/// Whether bounds are present and have a non-zero size.
pub fn has_valid_bounds(bounds: &Option<Bounds>) -> (r: bool)
    ensures
        r == (bounds matches Some(b) && b.width > 0 && b.height > 0),
{
    match bounds {
        Some(b) => b.width > 0 && b.height > 0,
        None => false,
    }
}

/// The centre point of bounds, rounded to whole pixels.
pub fn get_bounds_center(bounds: &Bounds) -> (r: (i64, i64))
    ensures
        r.0 == center_of(*bounds).0,
        r.1 == center_of(*bounds).1,
{
    crate::actions::bounds_center(bounds)
}

/// Whether a node carries the given state (e.g. "FOCUSED", "DISABLED").
pub fn node_has_state(node: &A11yNode, state: &str) -> (r: bool)
    ensures
        r == has_state(*node, state@),
{
    match &node.states {
        Some(v) => {
            let mut i: usize = 0;
            while i < v.len()
                invariant
                    i <= v.len(),
                    node.states == Some(*v),
                    forall|j: int| 0 <= j < i ==> v@[j]@ != state@,
                decreases v.len() - i,
            {
                if str_eq(v[i].as_str(), state) {
                    assert(v@[i as int]@ == state@);
                    assert(node.states == Some(*v));
                    assert(node.states.unwrap()@[i as int]@ == state@);
                    assert(has_state(*node, state@));
                    return true;
                }
                i += 1;
            }
            false
        },
        None => false,
    }
}

// ============================================
// Composer lookup
// ============================================

/// The main application frame: a `frame` named "Weixin" or "WeChat".
pub open spec fn is_main_frame(n: A11yNode) -> bool {
    n.role@ == "frame"@ && (n.name@ == "Weixin"@ || n.name@ == "WeChat"@)
}

fn is_main_frame_exec(n: &A11yNode) -> (r: bool)
    ensures
        r == is_main_frame(*n),
{
    str_eq(n.role.as_str(), "frame") && (str_eq(n.name.as_str(), "Weixin") || str_eq(
        n.name.as_str(),
        "WeChat",
    ))
}

pub open spec fn is_send_button(c: A11yNode) -> bool {
    c.role@ == "push-button"@ && c.name@ == "Send(S)"@
}

pub open spec fn is_editable_text(c: A11yNode) -> bool {
    c.role@ == "text"@ && has_state(c, "EDITABLE"@)
}

/// The first index `j >= k` of a send button among `ks`.
pub open spec fn first_send(ks: Seq<A11yNode>, k: int) -> Option<int>
    decreases ks.len() - k,
{
    if k < 0 || k >= ks.len() {
        None
    } else if is_send_button(ks[k]) {
        Some(k)
    } else {
        first_send(ks, k + 1)
    }
}

/// The first index `j >= k` of an editable text among `ks`.
pub open spec fn first_edit(ks: Seq<A11yNode>, k: int) -> Option<int>
    decreases ks.len() - k,
{
    if k < 0 || k >= ks.len() {
        None
    } else if is_editable_text(ks[k]) {
        Some(k)
    } else {
        first_edit(ks, k + 1)
    }
}

/// A candidate composer: editable input, its sibling Send(S) button, and
/// whether it lies under the main frame.
pub struct PairSpec {
    pub edit: A11yNode,
    pub send: A11yNode,
    pub in_main: bool,
}

/// The pair formed directly by a node's children, if any.
pub open spec fn pair_here(n: A11yNode, in_main: bool) -> Seq<PairSpec> {
    match n.children {
        Some(c) => match (first_edit(c@, 0), first_send(c@, 0)) {
            (Some(e), Some(s)) => seq![PairSpec { edit: c@[e], send: c@[s], in_main }],
            _ => Seq::empty(),
        },
        None => Seq::empty(),
    }
}

/// Every composer pair under `n`, in depth-first order.
pub open spec fn edit_send_pairs(n: A11yNode, in_main: bool) -> Seq<PairSpec>
    decreases n, 0int,
{
    let m = in_main || is_main_frame(n);
    match n.children {
        Some(c) => pair_here(n, m) + pairs_in(c@, m, 0),
        None => Seq::empty(),
    }
}

pub open spec fn pairs_in(ks: Seq<A11yNode>, in_main: bool, k: int) -> Seq<PairSpec>
    decreases ks, ks.len() - k,
{
    if k < 0 || k >= ks.len() {
        Seq::empty()
    } else {
        edit_send_pairs(ks[k], in_main) + pairs_in(ks, in_main, k + 1)
    }
}

/// The rank of a pair; lower wins: a focused editor first, then a Send button
/// that is not disabled, then a pair under the main frame.
pub open spec fn pair_rank(p: PairSpec) -> int {
    (if has_state(p.edit, "FOCUSED"@) { 0int } else { 4int }) + (if has_state(
        p.send,
        "DISABLED"@,
    ) {
        2int
    } else {
        0int
    }) + (if p.in_main { 0int } else { 1int })
}

/// The index of the best-ranked pair among the first `n`, the earliest on ties.
pub open spec fn best_pair(s: Seq<PairSpec>, n: int) -> int
    decreases n,
{
    if n <= 1 {
        0
    } else {
        let b = best_pair(s, n - 1);
        if pair_rank(s[n - 1]) < pair_rank(s[b]) {
            n - 1
        } else {
            b
        }
    }
}

/// The composer to operate on: the best-ranked of all edit/send pairs.
pub open spec fn edit_and_send_spec(a11y: A11yNode) -> Option<(A11yNode, A11yNode)> {
    let s = edit_send_pairs(a11y, false);
    if s.len() == 0 {
        None
    } else {
        Some((s[best_pair(s, s.len() as int)].edit, s[best_pair(s, s.len() as int)].send))
    }
}

pub struct ComposerPair<'a> {
    pub edit: &'a A11yNode,
    pub send: &'a A11yNode,
    pub in_main_frame: bool,
}

pub open spec fn pair_view(p: ComposerPair) -> PairSpec {
    PairSpec { edit: *p.edit, send: *p.send, in_main: p.in_main_frame }
}

pub open spec fn pairs_view(s: Seq<ComposerPair>) -> Seq<PairSpec> {
    s.map_values(|p: ComposerPair| pair_view(p))
}

proof fn lemma_child_decreases(n: A11yNode, c: Vec<A11yNode>, k: int)
    requires
        n.children == Some(c),
        0 <= k < c.len(),
    ensures
        decreases_to!(n => c@[k]),
{
    assert(decreases_to!(n => n.children));
    assert(decreases_to!(n.children => n.children->0));
    assert(decreases_to!(c => c@));
    assert(decreases_to!(c@ => c@[k]));
}

fn first_send_exec(ks: &Vec<A11yNode>) -> (r: Option<usize>)
    ensures
        match r {
            Some(j) => first_send(ks@, 0) == Some(j as int) && j < ks.len(),
            None => first_send(ks@, 0) is None,
        },
{
    let mut k: usize = 0;
    while k < ks.len()
        invariant
            k <= ks.len(),
            first_send(ks@, 0) == first_send(ks@, k as int),
        decreases ks.len() - k,
    {
        if str_eq(ks[k].role.as_str(), "push-button") && str_eq(ks[k].name.as_str(), "Send(S)") {
            return Some(k);
        }
        k += 1;
    }
    None
}

fn first_edit_exec(ks: &Vec<A11yNode>) -> (r: Option<usize>)
    ensures
        match r {
            Some(j) => first_edit(ks@, 0) == Some(j as int) && j < ks.len(),
            None => first_edit(ks@, 0) is None,
        },
{
    let mut k: usize = 0;
    while k < ks.len()
        invariant
            k <= ks.len(),
            first_edit(ks@, 0) == first_edit(ks@, k as int),
        decreases ks.len() - k,
    {
        if str_eq(ks[k].role.as_str(), "text") && node_has_state(&ks[k], "EDITABLE") {
            return Some(k);
        }
        k += 1;
    }
    None
}

/// Appends every edit/send pair under `node`, in depth-first order.
fn collect_edit_send_pairs<'a>(node: &'a A11yNode, in_main_frame: bool, out: &mut Vec<ComposerPair<'a>>)
    ensures
        pairs_view(final(out)@) == pairs_view(old(out)@) + edit_send_pairs(*node, in_main_frame),
    decreases *node, 0int,
{
    let ghost start = pairs_view(out@);
    let in_main = in_main_frame || is_main_frame_exec(node);
    match &node.children {
        Some(children) => {
            let e = first_edit_exec(children);
            let s = first_send_exec(children);
            if let (Some(ei), Some(si)) = (e, s) {
                let ghost before = out@;
                out.push(ComposerPair { edit: &children[ei], send: &children[si], in_main_frame: in_main });
                assert(pairs_view(out@) =~= pairs_view(before).push(pair_view(out@.last())));
            }
            assert(pairs_view(out@) == start + pair_here(*node, in_main));
            let ghost mid = pairs_view(out@);
            let mut k: usize = 0;
            while k < children.len()
                invariant
                    k <= children.len(),
                    node.children == Some(*children),
                    pairs_view(out@) + pairs_in(children@, in_main, k as int) == mid + pairs_in(
                        children@,
                        in_main,
                        0,
                    ),
                decreases children.len() - k,
            {
                proof {
                    lemma_child_decreases(*node, *children, k as int);
                }
                let ghost before = pairs_view(out@);
                collect_edit_send_pairs(&children[k], in_main, out);
                assert(pairs_in(children@, in_main, k as int) == edit_send_pairs(
                    children@[k as int],
                    in_main,
                ) + pairs_in(children@, in_main, k + 1));
                assert(pairs_view(out@) + pairs_in(children@, in_main, k + 1) =~= before + pairs_in(
                    children@,
                    in_main,
                    k as int,
                ));
                k += 1;
            }
            assert(pairs_in(children@, in_main, k as int) =~= Seq::<PairSpec>::empty());
            assert(pairs_view(out@) =~= start + edit_send_pairs(*node, in_main_frame));
        },
        None => {
            assert(pairs_view(out@) =~= start + edit_send_pairs(*node, in_main_frame));
        },
    }
}

fn pair_rank_exec(p: &ComposerPair) -> (r: u8)
    ensures
        r == pair_rank(pair_view(*p)),
{
    let a: u8 = if node_has_state(p.edit, "FOCUSED") { 0 } else { 4 };
    let b: u8 = if node_has_state(p.send, "DISABLED") { 2 } else { 0 };
    let c: u8 = if p.in_main_frame { 0 } else { 1 };
    a + b + c
}

/// Find the composer (editable input and its Send(S) button) to operate on.
/// Every candidate pair is ranked: a focused editor first, then a Send button
/// that is not disabled, then a pair under the main application frame; the
/// first pair in depth-first order breaks remaining ties.
pub fn find_edit_and_send_button<'a>(a11y: &'a A11yNode) -> (r: Option<(&'a A11yNode, &'a A11yNode)>)
    ensures
        match r {
            Some((e, s)) => edit_and_send_spec(*a11y) == Some((*e, *s)),
            None => edit_and_send_spec(*a11y) is None,
        },
{
    let mut candidates: Vec<ComposerPair<'a>> = Vec::new();
    assert(pairs_view(candidates@) =~= Seq::<PairSpec>::empty());
    collect_edit_send_pairs(a11y, false, &mut candidates);
    let ghost s = pairs_view(candidates@);
    assert(s =~= edit_send_pairs(*a11y, false));
    if candidates.len() == 0 {
        return None;
    }
    let mut best: usize = 0;
    let mut best_rank: u8 = pair_rank_exec(&candidates[0]);
    let mut k: usize = 1;
    while k < candidates.len()
        invariant
            1 <= k <= candidates.len(),
            s == pairs_view(candidates@),
            best as int == best_pair(s, k as int),
            best < candidates.len(),
            best_rank == pair_rank(s[best as int]),
        decreases candidates.len() - k,
    {
        let rk = pair_rank_exec(&candidates[k]);
        if rk < best_rank {
            best = k;
            best_rank = rk;
        }
        k += 1;
    }
    Some((candidates[best].edit, candidates[best].send))
}

// ============================================
// Frames
// ============================================

/// The frame hint of a node: its bounds, its name unless empty, and its
/// window's process id; none without bounds.
pub open spec fn frame_of(n: A11yNode) -> Option<FrameSpec> {
    match n.bounds {
        Some(b) => Some(
            FrameSpec {
                name: if n.name@.len() == 0 {
                    None
                } else {
                    Some(n.name@)
                },
                bounds: b,
                pid: match n.window {
                    Some(w) => Some(w.pid),
                    None => None,
                },
            },
        ),
        None => None,
    }
}

/// Extract a frame hint from an accessibility frame node.
pub fn frame_hint_from_node(node: &A11yNode) -> (r: Option<FrameHint>)
    ensures
        crate::types::opt_frame_view(r) == frame_of(*node),
{
    match node.bounds {
        Some(b) => Some(
            FrameHint {
                name: if node.name.as_str().is_empty() {
                    None
                } else {
                    Some(node.name.clone())
                },
                bounds: b,
                pid: match &node.window {
                    Some(w) => Some(w.pid),
                    None => None,
                },
            },
        ),
        None => None,
    }
}

/// The innermost `frame` (or `cur`) enclosing a match of `sel` under `n`:
/// none when nothing under `n` matches.
pub open spec fn frame_walk(n: A11yNode, sel: Seq<char>, cur: Option<A11yNode>) -> Option<A11yNode>
    decreases n, 0int,
{
    if query_selector_spec(n, sel) is Some {
        let f = if n.role@ == "frame"@ {
            Some(n)
        } else {
            cur
        };
        match n.children {
            Some(c) => match frame_walk_in(c@, sel, f, 0) {
                Some(d) => Some(d),
                None => f,
            },
            None => f,
        }
    } else {
        None
    }
}

/// The first child from `k` on whose walk finds a frame.
pub open spec fn frame_walk_in(ks: Seq<A11yNode>, sel: Seq<char>, cur: Option<A11yNode>, k: int) -> Option<
    A11yNode,
>
    decreases ks, ks.len() - k,
{
    if k < 0 || k >= ks.len() {
        None
    } else if frame_walk(ks[k], sel, cur) is Some {
        frame_walk(ks[k], sel, cur)
    } else {
        frame_walk_in(ks, sel, cur, k + 1)
    }
}

/// The hint of the innermost frame that encloses a match of `sel`.
pub open spec fn frame_for(a11y: A11yNode, sel: Seq<char>) -> Option<FrameSpec> {
    match frame_walk(a11y, sel, None) {
        Some(f) => frame_of(f),
        None => None,
    }
}

fn frame_walk_exec<'a>(node: &'a A11yNode, selector: &str, cur: Option<&'a A11yNode>) -> (r: Option<
    &'a A11yNode,
>)
    ensures
        deref_opt(r) == frame_walk(*node, selector@, deref_opt(cur)),
    decreases *node, 0int,
{
    if query_selector(node, selector).is_some() {
        let f = if str_eq(node.role.as_str(), "frame") {
            Some(node)
        } else {
            cur
        };
        if let Some(children) = &node.children {
            let mut k: usize = 0;
            while k < children.len()
                invariant
                    k <= children.len(),
                    node.children == Some(*children),
                    frame_walk(*node, selector@, deref_opt(cur)) == match frame_walk_in(
                        children@,
                        selector@,
                        deref_opt(f),
                        k as int,
                    ) {
                        Some(d) => Some(d),
                        None => deref_opt(f),
                    },
                decreases children.len() - k,
            {
                proof {
                    lemma_child_decreases(*node, *children, k as int);
                }
                let deeper = frame_walk_exec(&children[k], selector, f);
                assert(frame_walk_in(children@, selector@, deref_opt(f), k as int) == if frame_walk(
                    children@[k as int],
                    selector@,
                    deref_opt(f),
                ) is Some {
                    frame_walk(children@[k as int], selector@, deref_opt(f))
                } else {
                    frame_walk_in(children@, selector@, deref_opt(f), k + 1)
                });
                if deeper.is_some() {
                    return deeper;
                }
                k += 1;
            }
        }
        f
    } else {
        None
    }
}

/// Find the innermost frame that contains a node matching `selector`, and
/// return its hint.
pub fn find_frame_for(a11y: &A11yNode, selector: &str) -> (r: Option<FrameHint>)
    ensures
        crate::types::opt_frame_view(r) == frame_for(*a11y, selector@),
{
    match frame_walk_exec(a11y, selector, None) {
        Some(f) => frame_hint_from_node(f),
        None => None,
    }
}

} // verus!
