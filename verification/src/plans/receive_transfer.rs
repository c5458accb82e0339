//! Receiving a WeChat transfer: open the chat, click the pending transfer
//! card, press the accept button in the dialog that opens, and close the
//! dialog once it reports success.
use vstd::prelude::*;
use crate::actions;
use crate::helpers::{find_frame_for, frame_for, frame_hint_from_node, frame_of};
use crate::plans::{
    ChatSelectResult, PlanStep, StepSpec, chat_click_target, chat_click_target_exec, dismiss_spec,
    popup_shown, state_is, state_is_exec, step_view, was_skipped,
};
use crate::selectors::{deref_opt, query_selector, query_selector_spec};
use crate::text::{chars_of, contains, contains_spec, str_eq};
use crate::types::{
    A11yNode, Action, ActionSpec, AppState, Bounds, FrameHint, FrameSpec, IdentifiedStates,
    SelectedAction, SelectedSpec, action_view, click_spec, main_frame, main_frame_of,
    main_state_id, main_state_id_of, opt_frame_view, round_half,
};

verus! {

// ============================================
// Lower-casing
// ============================================

/// What `str::to_lowercase` returns for a string.
pub uninterp spec fn lowercase(s: Seq<char>) -> Seq<char>;

/// `str::to_lowercase`: the string with every character mapped to its Unicode
/// lower case; the result is named, not stated.
#[verifier::external_body]
fn to_lowercase(s: &str) -> (r: String)
    ensures
        r@ == lowercase(s@),
{
    s.to_lowercase()
}

// ============================================
// Selectors
// ============================================

pub open spec fn accept_sel() -> Seq<char> {
    "push-button[name=/^(确认收钱|Accept|Receive)$/]"@
}

pub open spec fn success_sel() -> Seq<char> {
    "*[name=/已(收钱|接收|领取)|收款成功|接收成功|领取成功|已存入|Accepted|Received|Success/i]"@
}

pub open spec fn dialog_close_sel() -> Seq<char> {
    "push-button[name=/^(Disable|Close|关闭|完成|Done|OK|确定|确认|好|好的|知道了)$/]"@
}

pub open spec fn window_close_sel() -> Seq<char> {
    "tool-bar push-button[name=\"Disable\"]"@
}

pub open spec fn main_chat_sel() -> Seq<char> {
    "list[name=\"Chats\"]"@
}

pub open spec fn messages_sel() -> Seq<char> {
    "list[name=\"Messages\"]"@
}

pub fn accept_selector() -> (r: &'static str)
    ensures
        r@ == accept_sel(),
{
    "push-button[name=/^(确认收钱|Accept|Receive)$/]"
}

pub fn success_selector() -> (r: &'static str)
    ensures
        r@ == success_sel(),
{
    "*[name=/已(收钱|接收|领取)|收款成功|接收成功|领取成功|已存入|Accepted|Received|Success/i]"
}

pub fn dialog_close_selector() -> (r: &'static str)
    ensures
        r@ == dialog_close_sel(),
{
    "push-button[name=/^(Disable|Close|关闭|完成|Done|OK|确定|确认|好|好的|知道了)$/]"
}

pub fn window_close_selector() -> (r: &'static str)
    ensures
        r@ == window_close_sel(),
{
    "tool-bar push-button[name=\"Disable\"]"
}

// ============================================
// Transfer cards
// ============================================

pub open spec fn is_amount_char(c: char) -> bool {
    ('0' <= c && c <= '9') || c == '.'
}

/// The digits and dots of a text, in order.
pub open spec fn normalize_amount_spec(s: Seq<char>) -> Seq<char> {
    s.filter(|c: char| is_amount_char(c))
}

/// Keep only the ASCII digits and dots of an amount text.
pub fn normalize_amount_text(text: &str) -> (r: Vec<char>)
    ensures
        r@ == normalize_amount_spec(text@),
{
    let cs = chars_of(text);
    let mut out: Vec<char> = Vec::new();
    let mut i: usize = 0;
    while i < cs.len()
        invariant
            i <= cs.len(),
            cs@ == text@,
            out@ == normalize_amount_spec(cs@.take(i as int)),
        decreases cs.len() - i,
    {
        proof {
            reveal_with_fuel(Seq::filter, 1);
            assert(cs@.take(i + 1).drop_last() == cs@.take(i as int));
        }
        let c = cs[i];
        if ('0' <= c && c <= '9') || c == '.' {
            out.push(c);
        }
        i += 1;
    }
    assert(cs@.take(cs.len() as int) == cs@);
    out
}

pub open spec fn transfer_like(name: Seq<char>, lower: Seq<char>) -> bool {
    contains_spec(name, "微信转账"@) || contains_spec(lower, "wechat transfer"@) || contains_spec(
        lower,
        "confirm receipt"@,
    ) || contains_spec(name, "确认收钱"@) || contains_spec(name, "确认收款"@) || contains_spec(
        name,
        "待收钱"@,
    ) || contains_spec(name, "待接收"@) || contains_spec(name, "收钱"@)
}

pub open spec fn received_like(name: Seq<char>, lower: Seq<char>) -> bool {
    contains_spec(lower, "accepted"@) || contains_spec(lower, "received"@) || contains_spec(
        name,
        "已收"@,
    ) || contains_spec(name, "已接收"@) || contains_spec(name, "已领取"@) || contains_spec(
        name,
        "已存入"@,
    )
}

pub open spec fn receivable_like(name: Seq<char>, lower: Seq<char>) -> bool {
    let done = received_like(name, lower);
    contains_spec(lower, "confirm receipt"@) || (contains_spec(lower, "receive"@) && !done)
        || contains_spec(name, "确认收钱"@) || contains_spec(name, "确认收款"@) || contains_spec(
        name,
        "待收钱"@,
    ) || contains_spec(name, "待接收"@) || (contains_spec(name, "收钱"@) && !done)
}

/// A message name is a transfer card still waiting to be received and, when
/// an amount is expected, shows that amount.
pub open spec fn receivable_spec(name: Seq<char>, expected: Option<Seq<char>>) -> bool {
    let lower = lowercase(name);
    &&& transfer_like(name, lower)
    &&& receivable_like(name, lower)
    &&& !received_like(name, lower)
    &&& match expected {
        Some(e) => normalize_amount_spec(e).len() == 0 || contains_spec(
            normalize_amount_spec(name),
            normalize_amount_spec(e),
        ),
        None => true,
    }
}

fn has(h: &Vec<char>, lit: &str) -> (r: bool)
    ensures
        r == contains_spec(h@, lit@),
{
    let n = chars_of(lit);
    contains(h.as_slice(), n.as_slice())
}

/// Whether a message name is a transfer card that can still be received (and,
/// when an amount is expected, shows it).
pub fn is_receivable_transfer_item_name(name: &str, expected_amount: Option<&str>) -> (r: bool)
    ensures
        r == receivable_spec(name@, match expected_amount {
            Some(e) => Some(e@),
            None => None,
        }),
{
    let lower_s = to_lowercase(name);
    let lower = chars_of(lower_s.as_str());
    let nm = chars_of(name);
    let is_transfer = has(&nm, "微信转账") || has(&lower, "wechat transfer") || has(
        &lower,
        "confirm receipt",
    ) || has(&nm, "确认收钱") || has(&nm, "确认收款") || has(&nm, "待收钱") || has(
        &nm,
        "待接收",
    ) || has(&nm, "收钱");
    if !is_transfer {
        return false;
    }
    let done = has(&lower, "accepted") || has(&lower, "received") || has(&nm, "已收") || has(
        &nm,
        "已接收",
    ) || has(&nm, "已领取") || has(&nm, "已存入");
    let receivable = has(&lower, "confirm receipt") || (has(&lower, "receive") && !done) || has(
        &nm,
        "确认收钱",
    ) || has(&nm, "确认收款") || has(&nm, "待收钱") || has(&nm, "待接收") || (has(&nm, "收钱")
        && !done);
    if !receivable || done {
        return false;
    }
    if let Some(e) = expected_amount {
        let hint = normalize_amount_text(e);
        if hint.len() > 0 {
            let digits = normalize_amount_text(name);
            return contains(digits.as_slice(), hint.as_slice());
        }
    }
    true
}

pub open spec fn is_transfer_item(n: A11yNode, expected: Option<Seq<char>>) -> bool {
    n.role@ == "list-item"@ && receivable_spec(n.name@, expected)
}

/// The last of the first `m` messages that is a receivable transfer card.
pub open spec fn last_transfer(ks: Seq<A11yNode>, m: int, expected: Option<Seq<char>>) -> Option<A11yNode>
    decreases m,
{
    if m <= 0 || m > ks.len() {
        None
    } else if is_transfer_item(ks[m - 1], expected) {
        Some(ks[m - 1])
    } else {
        last_transfer(ks, m - 1, expected)
    }
}

/// The latest receivable transfer card of the message list.
pub open spec fn transfer_message(a11y: A11yNode, expected: Option<Seq<char>>) -> Option<A11yNode> {
    match query_selector_spec(a11y, messages_sel()) {
        Some(list) => match list.children {
            Some(c) => last_transfer(c@, c@.len() as int, expected),
            None => None,
        },
        None => None,
    }
}

fn find_transfer_message<'a>(a11y: &'a A11yNode, expected_amount: Option<&str>) -> (r: Option<&'a A11yNode>)
    ensures
        deref_opt(r) == transfer_message(*a11y, match expected_amount {
            Some(e) => Some(e@),
            None => None,
        }),
{
    let ghost exp = match expected_amount {
        Some(e) => Some(e@),
        None => None,
    };
    let list = match query_selector(a11y, "list[name=\"Messages\"]") {
        Some(l) => l,
        None => return None,
    };
    let children = match &list.children {
        Some(c) => c,
        None => return None,
    };
    let mut m: usize = children.len();
    assert(transfer_message(*a11y, exp) == last_transfer(children@, m as int, exp));
    while m > 0
        invariant
            m <= children.len(),
            exp == match expected_amount {
                Some(e) => Some(e@),
                None => None,
            },
            transfer_message(*a11y, exp) == last_transfer(children@, m as int, exp),
        decreases m,
    {
        let node = &children[m - 1];
        if str_eq(node.role.as_str(), "list-item") && is_receivable_transfer_item_name(
            node.name.as_str(),
            expected_amount,
        ) {
            return Some(node);
        }
        m -= 1;
    }
    None
}

/// `x / 100` rounded to the nearest integer, halves away from zero.
pub open spec fn round_hundredths(v: int) -> int {
    if v >= 0 {
        (v + 50) / 100
    } else {
        -((-v + 50) / 100)
    }
}

/// Where to click a transfer card: 24% into the bubble from the sender's
/// side, kept at least 160 pixels in (less on narrow cards) and at most
/// 24 pixels short of the far edge or half the width, vertically centred.
pub open spec fn transfer_click(b: Bounds, is_self: bool) -> ActionSpec {
    let w = b.width as int;
    let max2 = if 2 * w - 48 > w { 2 * w - 48 } else { w };
    let min2 = if 320 < max2 { 320 } else { max2 };
    let off100 = if 24 * w < 50 * min2 {
        50 * min2
    } else if 24 * w > 50 * max2 {
        50 * max2
    } else {
        24 * w
    };
    let x100 = if is_self {
        100 * (b.x + w) - off100
    } else {
        100 * b.x + off100
    };
    ActionSpec::ClickCoords(round_hundredths(x100), round_half(2 * b.y + b.height))
}

/// Click a transfer card on the side of its message bubble.
pub fn click_transfer_card(bounds: &Bounds, is_self: bool) -> (a: Action)
    ensures
        action_view(a) == transfer_click(*bounds, is_self),
{
    let w: i64 = bounds.width as i64;
    let max2: i64 = if 2 * w - 48 > w { 2 * w - 48 } else { w };
    let min2: i64 = if 320 < max2 { 320 } else { max2 };
    let off100: i64 = if 24 * w < 50 * min2 {
        50 * min2
    } else if 24 * w > 50 * max2 {
        50 * max2
    } else {
        24 * w
    };
    let x100: i64 = if is_self {
        100 * (bounds.x as i64 + w) - off100
    } else {
        100 * (bounds.x as i64) + off100
    };
    let x: i64 = if x100 >= 0 {
        (x100 + 50) / 100
    } else {
        -((-x100 + 50) / 100)
    };
    let y = actions::round_half_exec(2 * (bounds.y as i64) + bounds.height as i64);
    actions::click_at(x, y)
}

// ============================================
// Transfer dialogs
// ============================================

/// A frame is not the main chat window: it has neither the chat list nor a
/// message list.
pub open spec fn is_dialog_frame(f: A11yNode) -> bool {
    query_selector_spec(f, main_chat_sel()) is None && query_selector_spec(f, messages_sel()) is None
}

pub open spec fn dialog_here(n: A11yNode, sel: Seq<char>) -> Option<A11yNode> {
    if n.role@ == "frame"@ && query_selector_spec(n, sel) is Some && is_dialog_frame(n) {
        Some(n)
    } else {
        None
    }
}

/// The deepest, last dialog frame under `n` holding a match of `sel`.
pub open spec fn dialog_walk(n: A11yNode, sel: Seq<char>) -> Option<A11yNode>
    decreases n, 0int,
{
    match n.children {
        Some(c) => match dialog_last(c@, sel, c@.len() as int) {
            Some(f) => Some(f),
            None => dialog_here(n, sel),
        },
        None => dialog_here(n, sel),
    }
}

/// The dialog found under the last of the first `m` children that has one.
pub open spec fn dialog_last(ks: Seq<A11yNode>, sel: Seq<char>, m: int) -> Option<A11yNode>
    decreases ks, m,
{
    if m <= 0 || m > ks.len() {
        None
    } else if dialog_walk(ks[m - 1], sel) is Some {
        dialog_walk(ks[m - 1], sel)
    } else {
        dialog_last(ks, sel, m - 1)
    }
}

proof fn lemma_child_decreases(n: A11yNode, c: Vec<A11yNode>, k: int)
    requires
        n.children == Some(c),
        0 <= k < c.len(),
    ensures
        decreases_to!(n => c@[k]),
{
    assert(decreases_to!(n => n.children));
    assert(decreases_to!(n.children => n.children->0));
    assert(decreases_to!(c => c@));
    assert(decreases_to!(c@ => c@[k]));
}

fn is_transfer_dialog_frame(frame: &A11yNode) -> (r: bool)
    ensures
        r == is_dialog_frame(*frame),
{
    query_selector(frame, "list[name=\"Chats\"]").is_none() && query_selector(
        frame,
        "list[name=\"Messages\"]",
    ).is_none()
}

/// Find the transfer dialog frame that holds a match of `selector`: the last
/// one in document order, the innermost on nesting, never the main chat window.
pub fn find_transfer_dialog_frame<'a>(node: &'a A11yNode, selector: &str) -> (r: Option<&'a A11yNode>)
    ensures
        deref_opt(r) == dialog_walk(*node, selector@),
    decreases *node, 0int,
{
    let mut best: Option<&'a A11yNode> = None;
    if let Some(children) = &node.children {
        let mut k: usize = 0;
        while k < children.len()
            invariant
                k <= children.len(),
                node.children == Some(*children),
                deref_opt(best) == dialog_last(children@, selector@, k as int),
            decreases children.len() - k,
        {
            proof {
                lemma_child_decreases(*node, *children, k as int);
            }
            let found = find_transfer_dialog_frame(&children[k], selector);
            if found.is_some() {
                best = found;
            }
            k += 1;
        }
    }
    if best.is_some() {
        return best;
    }
    if str_eq(node.role.as_str(), "frame") && query_selector(node, selector).is_some()
        && is_transfer_dialog_frame(node) {
        return Some(node);
    }
    None
}

/// A button and the frame hint to click it in.
pub open spec fn button_view(r: Option<(&A11yNode, Option<FrameHint>)>) -> Option<(A11yNode, Option<FrameSpec>)> {
    match r {
        Some((b, f)) => Some((*b, opt_frame_view(f))),
        None => None,
    }
}

/// The accept button: inside a transfer dialog if one holds it, else anywhere.
pub open spec fn accept_button(a11y: A11yNode) -> Option<(A11yNode, Option<FrameSpec>)> {
    match dialog_walk(a11y, accept_sel()) {
        Some(f) => match query_selector_spec(f, accept_sel()) {
            Some(b) => Some((b, frame_of(f))),
            None => None,
        },
        None => match query_selector_spec(a11y, accept_sel()) {
            Some(b) => Some((b, frame_for(a11y, accept_sel()))),
            None => None,
        },
    }
}

fn find_accept_button(a11y: &A11yNode) -> (r: Option<(&A11yNode, Option<FrameHint>)>)
    ensures
        button_view(r) == accept_button(*a11y),
{
    let sel = accept_selector();
    if let Some(frame) = find_transfer_dialog_frame(a11y, sel) {
        return match query_selector(frame, sel) {
            Some(btn) => Some((btn, frame_hint_from_node(frame))),
            None => None,
        };
    }
    match query_selector(a11y, sel) {
        Some(btn) => Some((btn, find_frame_for(a11y, sel))),
        None => None,
    }
}

/// A transfer dialog reports success.
pub open spec fn receive_success(a11y: A11yNode) -> bool {
    dialog_walk(a11y, success_sel()) is Some
}

pub open spec fn close_in_frame(f: A11yNode) -> Option<(A11yNode, Option<FrameSpec>)> {
    match query_selector_spec(f, dialog_close_sel()) {
        Some(b) => Some((b, frame_of(f))),
        None => match query_selector_spec(f, window_close_sel()) {
            Some(b) => Some((b, frame_of(f))),
            None => None,
        },
    }
}

fn find_close_button_in_frame(frame: &A11yNode) -> (r: Option<(&A11yNode, Option<FrameHint>)>)
    ensures
        button_view(r) == close_in_frame(*frame),
{
    match query_selector(frame, dialog_close_selector()) {
        Some(b) => Some((b, frame_hint_from_node(frame))),
        None => match query_selector(frame, window_close_selector()) {
            Some(b) => Some((b, frame_hint_from_node(frame))),
            None => None,
        },
    }
}

/// A close button of any transfer dialog.
pub open spec fn any_close(a11y: A11yNode) -> Option<(A11yNode, Option<FrameSpec>)> {
    let first = match dialog_walk(a11y, dialog_close_sel()) {
        Some(f) => close_in_frame(f),
        None => None,
    };
    if first is Some {
        first
    } else {
        match dialog_walk(a11y, window_close_sel()) {
            Some(f) => close_in_frame(f),
            None => None,
        }
    }
}

fn find_any_transfer_dialog_close_button(a11y: &A11yNode) -> (r: Option<(&A11yNode, Option<FrameHint>)>)
    ensures
        button_view(r) == any_close(*a11y),
{
    if let Some(frame) = find_transfer_dialog_frame(a11y, dialog_close_selector()) {
        let b = find_close_button_in_frame(frame);
        if b.is_some() {
            return b;
        }
    }
    match find_transfer_dialog_frame(a11y, window_close_selector()) {
        Some(frame) => find_close_button_in_frame(frame),
        None => None,
    }
}

/// The close button of the dialog that reports success.
pub open spec fn success_close(a11y: A11yNode) -> Option<(A11yNode, Option<FrameSpec>)> {
    match dialog_walk(a11y, success_sel()) {
        Some(f) => close_in_frame(f),
        None => None,
    }
}

fn find_success_close_button(a11y: &A11yNode) -> (r: Option<(&A11yNode, Option<FrameHint>)>)
    ensures
        button_view(r) == success_close(*a11y),
{
    match find_transfer_dialog_frame(a11y, success_selector()) {
        Some(frame) => find_close_button_in_frame(frame),
        None => None,
    }
}

/// The chat shows no accept button and no pending card any more.
pub open spec fn receipt_completed(a11y: A11yNode, id: Option<Seq<char>>, expected: Option<Seq<char>>) -> bool {
    &&& state_is(id, "chat_open"@)
    &&& query_selector_spec(a11y, messages_sel()) is Some
    &&& accept_button(a11y) is None
    &&& transfer_message(a11y, expected) is None
}

fn receipt_completed_in_chat(a11y: &A11yNode, id: &Option<Vec<char>>, expected_amount: Option<&str>) -> (r: bool)
    ensures
        r == receipt_completed(
            *a11y,
            match id {
                Some(v) => Some(v@),
                None => None,
            },
            match expected_amount {
                Some(e) => Some(e@),
                None => None,
            },
        ),
{
    state_is_exec(id, "chat_open") && query_selector(a11y, "list[name=\"Messages\"]").is_some()
        && find_accept_button(a11y).is_none() && find_transfer_message(a11y, expected_amount).is_none()
}

} // verus!

verus! {

// ============================================
// The plan
// ============================================

pub struct ReceiveTransferPlan;

pub struct ReceiveTransferParams {
    pub chat_id: String,
    pub transaction_id: Option<String>,
    pub amount_text: Option<String>,
    pub is_self: bool,
}

#[derive(Clone, Copy, Debug, PartialEq, Eq, Structural)]
pub enum ReceiveTransferPhase {
    OpeningChat,
    ClickingTransfer,
    ClickingReceive,
    WaitingSuccess,
    ClosingSuccess,
    Done,
}

#[derive(Clone, Copy, Debug, PartialEq, Eq, Structural)]
pub struct ReceiveTransferPlanState {
    pub phase: ReceiveTransferPhase,
    pub open_result: Option<ChatSelectResult>,
    pub find_attempts: u32,
    pub receive_attempts: u32,
    pub success_attempts: u32,
    pub close_attempts: u32,
    pub received: bool,
}

pub open spec fn amount_view(p: ReceiveTransferParams) -> Option<Seq<char>> {
    crate::types::opt_str_view(p.amount_text)
}

pub open spec fn wait_in(mf: Option<FrameSpec>) -> StepSpec {
    StepSpec::Act(SelectedSpec { action: ActionSpec::Wait(200), frame: mf })
}

/// Click a button, then wait.
pub open spec fn click_then_wait(b: Bounds) -> ActionSpec {
    ActionSpec::Sequence(seq![click_spec(b), ActionSpec::Wait(200)])
}

pub open spec fn or_frame(a: Option<FrameSpec>, b: Option<FrameSpec>) -> Option<FrameSpec> {
    if a is Some {
        a
    } else {
        b
    }
}

/// A button's bounds and frame, when it has bounds.
pub open spec fn clickable(btn: Option<(A11yNode, Option<FrameSpec>)>) -> Option<(Bounds, Option<FrameSpec>)> {
    match btn {
        Some((b, f)) => match b.bounds {
            Some(bb) => Some((bb, f)),
            None => None,
        },
        None => None,
    }
}

pub open spec fn finished(ps: ReceiveTransferPlanState) -> ReceiveTransferPlanState {
    ReceiveTransferPlanState { received: true, phase: ReceiveTransferPhase::Done, ..ps }
}

pub open spec fn closing_step(
    ps: ReceiveTransferPlanState,
    id: Option<Seq<char>>,
    amount: Option<Seq<char>>,
    mf: Option<FrameSpec>,
    a11y: A11yNode,
) -> (ReceiveTransferPlanState, StepSpec) {
    let btn = if success_close(a11y) is Some {
        success_close(a11y)
    } else {
        any_close(a11y)
    };
    if let Some((bb, f)) = clickable(btn) {
        (finished(ps), StepSpec::Act(SelectedSpec { action: click_then_wait(bb), frame: or_frame(f, mf) }))
    } else if receipt_completed(a11y, id, amount) {
        (finished(ps), wait_in(mf))
    } else {
        let next = ReceiveTransferPlanState { close_attempts: (ps.close_attempts + 1) as u32, ..ps };
        if next.close_attempts > 10 {
            (next, StepSpec::Stop)
        } else {
            (next, wait_in(mf))
        }
    }
}

pub open spec fn waiting_step(
    ps: ReceiveTransferPlanState,
    id: Option<Seq<char>>,
    amount: Option<Seq<char>>,
    mf: Option<FrameSpec>,
    a11y: A11yNode,
) -> (ReceiveTransferPlanState, StepSpec) {
    let closing = ReceiveTransferPlanState { phase: ReceiveTransferPhase::ClosingSuccess, ..ps };
    if receive_success(a11y) {
        closing_step(closing, id, amount, mf, a11y)
    } else if accept_button(a11y) is None && any_close(a11y) is Some {
        closing_step(closing, id, amount, mf, a11y)
    } else if receipt_completed(a11y, id, amount) {
        (finished(ps), wait_in(mf))
    } else {
        let next = ReceiveTransferPlanState { success_attempts: (ps.success_attempts + 1) as u32, ..ps };
        if next.success_attempts > 20 {
            (next, StepSpec::Stop)
        } else {
            (
                next,
                StepSpec::Act(
                    SelectedSpec {
                        action: ActionSpec::Wait(200),
                        frame: or_frame(frame_for(a11y, accept_sel()), mf),
                    },
                ),
            )
        }
    }
}

pub open spec fn receiving_step(
    ps: ReceiveTransferPlanState,
    id: Option<Seq<char>>,
    amount: Option<Seq<char>>,
    mf: Option<FrameSpec>,
    a11y: A11yNode,
) -> (ReceiveTransferPlanState, StepSpec) {
    if receive_success(a11y) {
        closing_step(
            ReceiveTransferPlanState { phase: ReceiveTransferPhase::ClosingSuccess, ..ps },
            id,
            amount,
            mf,
            a11y,
        )
    } else if receipt_completed(a11y, id, amount) {
        (finished(ps), wait_in(mf))
    } else if let Some((bb, f)) = clickable(accept_button(a11y)) {
        if ps.receive_attempts >= 5 {
            (ps, StepSpec::Stop)
        } else {
            (
                ReceiveTransferPlanState {
                    receive_attempts: (ps.receive_attempts + 1) as u32,
                    phase: ReceiveTransferPhase::WaitingSuccess,
                    ..ps
                },
                StepSpec::Act(SelectedSpec { action: click_then_wait(bb), frame: or_frame(f, mf) }),
            )
        }
    } else {
        let next = ReceiveTransferPlanState { receive_attempts: (ps.receive_attempts + 1) as u32, ..ps };
        if next.receive_attempts > 20 {
            (next, StepSpec::Stop)
        } else {
            (next, wait_in(mf))
        }
    }
}

pub open spec fn card_bounds(n: Option<A11yNode>) -> Option<Bounds> {
    match n {
        Some(c) => c.bounds,
        None => None,
    }
}

pub open spec fn clicking_card_step(
    ps: ReceiveTransferPlanState,
    id: Option<Seq<char>>,
    amount: Option<Seq<char>>,
    is_self: bool,
    mf: Option<FrameSpec>,
    a11y: A11yNode,
) -> (ReceiveTransferPlanState, StepSpec) {
    if !state_is(id, "chat_open"@) {
        (ps, StepSpec::Stop)
    } else if let Some(b) = card_bounds(transfer_message(a11y, amount)) {
        (
            ReceiveTransferPlanState { phase: ReceiveTransferPhase::ClickingReceive, ..ps },
            StepSpec::Act(
                SelectedSpec {
                    action: ActionSpec::Sequence(seq![transfer_click(b, is_self), ActionSpec::Wait(200)]),
                    frame: mf,
                },
            ),
        )
    } else {
        let next = ReceiveTransferPlanState { find_attempts: (ps.find_attempts + 1) as u32, ..ps };
        if next.find_attempts > 10 {
            (next, StepSpec::Stop)
        } else {
            (next, wait_in(mf))
        }
    }
}

/// The transfer plan's next state and step.
pub open spec fn receive_transfer_step(
    popup: bool,
    ids: IdentifiedStates,
    chat_id: Seq<char>,
    amount: Option<Seq<char>>,
    is_self: bool,
    ps: ReceiveTransferPlanState,
    a11y: A11yNode,
    opened: Option<ChatSelectResult>,
) -> (ReceiveTransferPlanState, StepSpec) {
    let mf = main_frame(ids);
    let id = main_state_id(ids);
    if popup && (ps.phase == ReceiveTransferPhase::ClickingTransfer || ps.phase
        == ReceiveTransferPhase::OpeningChat) {
        (ps, StepSpec::Act(SelectedSpec { action: dismiss_spec(), frame: mf }))
    } else {
        match ps.phase {
            ReceiveTransferPhase::OpeningChat => if !(state_is(id, "chat"@) || state_is(
                id,
                "chat_open"@,
            )) {
                (ps, StepSpec::Stop)
            } else {
                match opened {
                    None => (ps, StepSpec::OpenChat(chat_id, state_is(id, "chat"@), chat_click_target(a11y))),
                    Some(res) => if !res.ok {
                        (ps, StepSpec::Stop)
                    } else {
                        let next = ReceiveTransferPlanState {
                            open_result: Some(res),
                            phase: ReceiveTransferPhase::ClickingTransfer,
                            ..ps
                        };
                        if !was_skipped(res) {
                            (next, wait_in(mf))
                        } else {
                            clicking_card_step(next, id, amount, is_self, mf, a11y)
                        }
                    },
                }
            },
            ReceiveTransferPhase::ClickingTransfer => clicking_card_step(ps, id, amount, is_self, mf, a11y),
            ReceiveTransferPhase::ClickingReceive => receiving_step(ps, id, amount, mf, a11y),
            ReceiveTransferPhase::WaitingSuccess => waiting_step(ps, id, amount, mf, a11y),
            ReceiveTransferPhase::ClosingSuccess => closing_step(ps, id, amount, mf, a11y),
            ReceiveTransferPhase::Done => (ps, StepSpec::Stop),
        }
    }
}

/// The counters a step of the current phase may add one to are below their
/// maximum: the card search while opening the chat or looking for the card;
/// the accept attempts (and the closing attempts it may go on to) while
/// receiving; the success checks (and closing attempts) while waiting; the
/// closing attempts while closing.
pub open spec fn counters_ok(ps: ReceiveTransferPlanState) -> bool {
    match ps.phase {
        ReceiveTransferPhase::OpeningChat | ReceiveTransferPhase::ClickingTransfer => ps.find_attempts < u32::MAX,
        ReceiveTransferPhase::ClickingReceive => ps.receive_attempts < u32::MAX && ps.close_attempts < u32::MAX,
        ReceiveTransferPhase::WaitingSuccess => ps.success_attempts < u32::MAX && ps.close_attempts < u32::MAX,
        ReceiveTransferPhase::ClosingSuccess => ps.close_attempts < u32::MAX,
        ReceiveTransferPhase::Done => true,
    }
}

fn wait_step(identified: &IdentifiedStates) -> (r: PlanStep)
    ensures
        step_view(r) == wait_in(main_frame(*identified)),
{
    PlanStep::Act(SelectedAction { action: actions::wait_short(), frame: main_frame_of(identified) })
}

fn click_then_wait_exec(b: &Bounds) -> (a: Action)
    ensures
        action_view(a) == click_then_wait(*b),
{
    let mut v: Vec<Action> = Vec::new();
    v.push(actions::click_bounds(b));
    v.push(actions::wait_short());
    proof {
        crate::types::lemma_actions_view_push2(Seq::empty(), v@[0], v@[1]);
        assert(v@ == Seq::<Action>::empty().push(v@[0]).push(v@[1]));
        assert(crate::types::actions_view(Seq::<Action>::empty()) =~= Seq::<ActionSpec>::empty());
        assert(crate::types::actions_view(v@) =~= seq![click_spec(*b), ActionSpec::Wait(200)]);
    }
    actions::sequence(v)
}

fn or_main_frame(f: Option<FrameHint>, identified: &IdentifiedStates) -> (r: Option<FrameHint>)
    ensures
        opt_frame_view(r) == or_frame(opt_frame_view(f), main_frame(*identified)),
{
    if f.is_some() {
        f
    } else {
        main_frame_of(identified)
    }
}

fn closing_exec(
    ps: &mut ReceiveTransferPlanState,
    id: &Option<Vec<char>>,
    params: &ReceiveTransferParams,
    identified: &IdentifiedStates,
    a11y: &A11yNode,
) -> (r: PlanStep)
    requires
        old(ps).close_attempts < u32::MAX,
        match id {
            Some(v) => main_state_id(*identified) == Some(v@),
            None => main_state_id(*identified) is None,
        },
    ensures
        (*final(ps), step_view(r)) == closing_step(
            *old(ps),
            main_state_id(*identified),
            amount_view(*params),
            main_frame(*identified),
            *a11y,
        ),
{
    let first = find_success_close_button(a11y);
    let btn = if first.is_some() {
        first
    } else {
        find_any_transfer_dialog_close_button(a11y)
    };
    if let Some((b, f)) = btn {
        if let Some(bounds) = &b.bounds {
            ps.received = true;
            ps.phase = ReceiveTransferPhase::Done;
            return PlanStep::Act(
                SelectedAction { action: click_then_wait_exec(bounds), frame: or_main_frame(f, identified) },
            );
        }
    }
    let amount = match &params.amount_text {
        Some(s) => Some(s.as_str()),
        None => None,
    };
    if receipt_completed_in_chat(a11y, id, amount) {
        ps.received = true;
        ps.phase = ReceiveTransferPhase::Done;
        return wait_step(identified);
    }
    ps.close_attempts = ps.close_attempts + 1;
    if ps.close_attempts > 10 {
        return PlanStep::Stop;
    }
    wait_step(identified)
}

fn waiting_exec(
    ps: &mut ReceiveTransferPlanState,
    id: &Option<Vec<char>>,
    params: &ReceiveTransferParams,
    identified: &IdentifiedStates,
    a11y: &A11yNode,
) -> (r: PlanStep)
    requires
        old(ps).success_attempts < u32::MAX,
        old(ps).close_attempts < u32::MAX,
        match id {
            Some(v) => main_state_id(*identified) == Some(v@),
            None => main_state_id(*identified) is None,
        },
    ensures
        (*final(ps), step_view(r)) == waiting_step(
            *old(ps),
            main_state_id(*identified),
            amount_view(*params),
            main_frame(*identified),
            *a11y,
        ),
{
    if find_transfer_dialog_frame(a11y, success_selector()).is_some() {
        ps.phase = ReceiveTransferPhase::ClosingSuccess;
        return closing_exec(ps, id, params, identified, a11y);
    }
    if find_accept_button(a11y).is_none() && find_any_transfer_dialog_close_button(a11y).is_some() {
        ps.phase = ReceiveTransferPhase::ClosingSuccess;
        return closing_exec(ps, id, params, identified, a11y);
    }
    let amount = match &params.amount_text {
        Some(s) => Some(s.as_str()),
        None => None,
    };
    if receipt_completed_in_chat(a11y, id, amount) {
        ps.received = true;
        ps.phase = ReceiveTransferPhase::Done;
        return wait_step(identified);
    }
    ps.success_attempts = ps.success_attempts + 1;
    if ps.success_attempts > 20 {
        return PlanStep::Stop;
    }
    PlanStep::Act(
        SelectedAction {
            action: actions::wait_short(),
            frame: or_main_frame(find_frame_for(a11y, accept_selector()), identified),
        },
    )
}

fn receiving_exec(
    ps: &mut ReceiveTransferPlanState,
    id: &Option<Vec<char>>,
    params: &ReceiveTransferParams,
    identified: &IdentifiedStates,
    a11y: &A11yNode,
) -> (r: PlanStep)
    requires
        old(ps).receive_attempts < u32::MAX,
        old(ps).close_attempts < u32::MAX,
        match id {
            Some(v) => main_state_id(*identified) == Some(v@),
            None => main_state_id(*identified) is None,
        },
    ensures
        (*final(ps), step_view(r)) == receiving_step(
            *old(ps),
            main_state_id(*identified),
            amount_view(*params),
            main_frame(*identified),
            *a11y,
        ),
{
    if find_transfer_dialog_frame(a11y, success_selector()).is_some() {
        ps.phase = ReceiveTransferPhase::ClosingSuccess;
        return closing_exec(ps, id, params, identified, a11y);
    }
    let amount = match &params.amount_text {
        Some(s) => Some(s.as_str()),
        None => None,
    };
    if receipt_completed_in_chat(a11y, id, amount) {
        ps.received = true;
        ps.phase = ReceiveTransferPhase::Done;
        return wait_step(identified);
    }
    if let Some((btn, f)) = find_accept_button(a11y) {
        if let Some(bounds) = &btn.bounds {
            if ps.receive_attempts >= 5 {
                return PlanStep::Stop;
            }
            ps.receive_attempts = ps.receive_attempts + 1;
            ps.phase = ReceiveTransferPhase::WaitingSuccess;
            return PlanStep::Act(
                SelectedAction { action: click_then_wait_exec(bounds), frame: or_main_frame(f, identified) },
            );
        }
    }
    ps.receive_attempts = ps.receive_attempts + 1;
    if ps.receive_attempts > 20 {
        return PlanStep::Stop;
    }
    wait_step(identified)
}

fn clicking_card_exec(
    ps: &mut ReceiveTransferPlanState,
    id: &Option<Vec<char>>,
    params: &ReceiveTransferParams,
    identified: &IdentifiedStates,
    a11y: &A11yNode,
) -> (r: PlanStep)
    requires
        old(ps).find_attempts < u32::MAX,
        match id {
            Some(v) => main_state_id(*identified) == Some(v@),
            None => main_state_id(*identified) is None,
        },
    ensures
        (*final(ps), step_view(r)) == clicking_card_step(
            *old(ps),
            main_state_id(*identified),
            amount_view(*params),
            params.is_self,
            main_frame(*identified),
            *a11y,
        ),
{
    if !state_is_exec(id, "chat_open") {
        return PlanStep::Stop;
    }
    let amount = match &params.amount_text {
        Some(s) => Some(s.as_str()),
        None => None,
    };
    if let Some(node) = find_transfer_message(a11y, amount) {
        if let Some(bounds) = &node.bounds {
            ps.phase = ReceiveTransferPhase::ClickingReceive;
            let mut v: Vec<Action> = Vec::new();
            v.push(click_transfer_card(bounds, params.is_self));
            v.push(actions::wait_short());
            proof {
                crate::types::lemma_actions_view_push2(Seq::empty(), v@[0], v@[1]);
                assert(v@ == Seq::<Action>::empty().push(v@[0]).push(v@[1]));
                assert(crate::types::actions_view(Seq::<Action>::empty()) =~= Seq::<ActionSpec>::empty());
            }
            return PlanStep::Act(
                SelectedAction { action: actions::sequence(v), frame: main_frame_of(identified) },
            );
        }
    }
    ps.find_attempts = ps.find_attempts + 1;
    if ps.find_attempts > 10 {
        return PlanStep::Stop;
    }
    wait_step(identified)
}

impl ReceiveTransferPlan {
    pub fn id(&self) -> (r: &'static str)
        ensures
            r@ == "receive_transfer"@,
    {
        "receive_transfer"
    }

    pub fn initial_plan_state(&self) -> (s: ReceiveTransferPlanState)
        ensures
            s == (ReceiveTransferPlanState {
                phase: ReceiveTransferPhase::OpeningChat,
                open_result: None,
                find_attempts: 0,
                receive_attempts: 0,
                success_attempts: 0,
                close_attempts: 0,
                received: false,
            }),
    {
        ReceiveTransferPlanState {
            phase: ReceiveTransferPhase::OpeningChat,
            open_result: None,
            find_attempts: 0,
            receive_attempts: 0,
            success_attempts: 0,
            close_attempts: 0,
            received: false,
        }
    }

    /// Done only once the transfer was received.
    pub fn is_goal_reached(&self, state: &AppState, plan_state: &ReceiveTransferPlanState) -> (r: bool)
        ensures
            r == (plan_state.phase == ReceiveTransferPhase::Done && plan_state.received),
    {
        plan_state.phase == ReceiveTransferPhase::Done && plan_state.received
    }

    /// The next step. While opening the chat or looking for the card a shown
    /// popup is dismissed first. Opening asks for the chat to be opened (call
    /// again with the selector's answer in `opened`); then the card is
    /// clicked, the accept button pressed and the success dialog closed, each
    /// phase retried a bounded number of times.
    pub fn select_action(
        &self,
        state: &AppState,
        params: &ReceiveTransferParams,
        identified: &IdentifiedStates,
        plan_state: &mut ReceiveTransferPlanState,
        a11y: &A11yNode,
        session_id: &str,
        opened: Option<ChatSelectResult>,
    ) -> (r: PlanStep)
        requires
            counters_ok(*old(plan_state)),
        ensures
            (*final(plan_state), step_view(r)) == receive_transfer_step(
                popup_shown(*state, *identified),
                *identified,
                params.chat_id@,
                amount_view(*params),
                params.is_self,
                *old(plan_state),
                *a11y,
                opened,
            ),
    {
        let id = main_state_id_of(identified);
        if state.popup.is_some() && identified.popup.is_some() && (plan_state.phase
            == ReceiveTransferPhase::ClickingTransfer || plan_state.phase
            == ReceiveTransferPhase::OpeningChat) {
            return PlanStep::Act(
                SelectedAction { action: actions::dismiss_popup(), frame: main_frame_of(identified) },
            );
        }
        match plan_state.phase {
            ReceiveTransferPhase::OpeningChat => {
                if !state_is_exec(&id, "chat") && !state_is_exec(&id, "chat_open") {
                    return PlanStep::Stop;
                }
                match opened {
                    None => PlanStep::OpenChat {
                        chat_id: params.chat_id.clone(),
                        force: state_is_exec(&id, "chat"),
                        click_xy: chat_click_target_exec(a11y),
                    },
                    Some(res) => {
                        if !res.ok {
                            return PlanStep::Stop;
                        }
                        let skipped = match res.skipped {
                            Some(v) => v,
                            None => false,
                        };
                        plan_state.open_result = Some(res);
                        plan_state.phase = ReceiveTransferPhase::ClickingTransfer;
                        if !skipped {
                            return wait_step(identified);
                        }
                        clicking_card_exec(plan_state, &id, params, identified, a11y)
                    },
                }
            },
            ReceiveTransferPhase::ClickingTransfer => clicking_card_exec(plan_state, &id, params, identified, a11y),
            ReceiveTransferPhase::ClickingReceive => receiving_exec(plan_state, &id, params, identified, a11y),
            ReceiveTransferPhase::WaitingSuccess => waiting_exec(plan_state, &id, params, identified, a11y),
            ReceiveTransferPhase::ClosingSuccess => closing_exec(plan_state, &id, params, identified, a11y),
            ReceiveTransferPhase::Done => PlanStep::Stop,
        }
    }
}

} // verus!
