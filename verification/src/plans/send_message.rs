//! Sending a message: open the chat, focus the composer, paste or type the
//! content and press Return, then wait for the Send button to go disabled.
use vstd::prelude::*;
use crate::actions;
use crate::helpers::node_has_state;
use crate::plans::{
    ChatSelectResult, PlanStep, StepSpec, chat_click_target, chat_click_target_exec, dismiss_spec,
    popup_shown, state_is, state_is_exec, step_view, strings_view, was_skipped,
};
use crate::selectors::deref_opt;
use crate::text::str_eq;
use crate::types::{
    A11yNode, Action, ActionSpec, AppState, FrameSpec, IdentifiedStates, SelectedAction,
    SelectedSpec, action_view, click_spec, has_state, main_frame, main_frame_of, main_state_id,
    main_state_id_of,
};

verus! {

// ============================================
// Composer lookup
// ============================================

pub open spec fn is_send(c: A11yNode) -> bool {
    c.role@ == "push-button"@ && (c.name@ == "Send(S)"@ || c.name@ == "Send"@)
}

pub open spec fn is_editor(c: A11yNode) -> bool {
    c.role@ == "text"@ && has_state(c, "EDITABLE"@)
}

pub open spec fn first_where_send(ks: Seq<A11yNode>, k: int) -> Option<int>
    decreases ks.len() - k,
{
    if k < 0 || k >= ks.len() {
        None
    } else if is_send(ks[k]) {
        Some(k)
    } else {
        first_where_send(ks, k + 1)
    }
}

pub open spec fn first_where_editor(ks: Seq<A11yNode>, k: int) -> Option<int>
    decreases ks.len() - k,
{
    if k < 0 || k >= ks.len() {
        None
    } else if is_editor(ks[k]) {
        Some(k)
    } else {
        first_where_editor(ks, k + 1)
    }
}

/// The editors (`want_editor`) or the Send buttons at or below `n`, in
/// depth-first order.
pub open spec fn collect_spec(n: A11yNode, want_editor: bool) -> Seq<A11yNode>
    decreases n, 0int,
{
    (if (want_editor && is_editor(n)) || (!want_editor && is_send(n)) {
        seq![n]
    } else {
        Seq::empty()
    }) + match n.children {
        Some(c) => collect_in(c@, want_editor, 0),
        None => Seq::empty(),
    }
}

pub open spec fn collect_in(ks: Seq<A11yNode>, want_editor: bool, k: int) -> Seq<A11yNode>
    decreases ks, ks.len() - k,
{
    if k < 0 || k >= ks.len() {
        Seq::empty()
    } else {
        collect_spec(ks[k], want_editor) + collect_in(ks, want_editor, k + 1)
    }
}

/// A Send button sits just below an editor (a gap of -8 to 120 pixels) and
/// overlaps it horizontally; both have a size.
pub open spec fn composer_geometry(e: A11yNode, s: A11yNode) -> bool {
    match (e.bounds, s.bounds) {
        (Some(eb), Some(sb)) => {
            let gap = sb.y - (eb.y + eb.height);
            &&& eb.width > 0 && eb.height > 0 && sb.width > 0 && sb.height > 0
            &&& -8 <= gap <= 120
            &&& sb.x < eb.x + eb.width
            &&& sb.x + sb.width > eb.x
        },
        _ => false,
    }
}

/// The composer found through the subtree of `n` when the editor and its
/// button are in separate branches: exactly one of each, well placed.
pub open spec fn split_composer(n: A11yNode) -> Option<(A11yNode, A11yNode)> {
    let es = collect_spec(n, true);
    let ss = collect_spec(n, false);
    if es.len() == 1 && ss.len() == 1 && composer_geometry(es[0], ss[0]) {
        Some((es[0], ss[0]))
    } else {
        None
    }
}

/// The composer (editor and Send button) at or below `n`: a sibling pair among
/// `n`'s children first, else the first one found below a child, else a split
/// composer in `n`'s subtree.
pub open spec fn pair_search(n: A11yNode) -> Option<(A11yNode, A11yNode)>
    decreases n, 1int,
{
    match n.children {
        None => None,
        Some(c) => match (first_where_editor(c@, 0), first_where_send(c@, 0)) {
            (Some(e), Some(s)) => Some((c@[e], c@[s])),
            _ => match search_in(c@, 0) {
                Some(r) => Some(r),
                None => split_composer(n),
            },
        },
    }
}

pub open spec fn search_in(ks: Seq<A11yNode>, k: int) -> Option<(A11yNode, A11yNode)>
    decreases ks, ks.len() - k,
{
    if k < 0 || k >= ks.len() {
        None
    } else if pair_search(ks[k]) is Some {
        pair_search(ks[k])
    } else {
        search_in(ks, k + 1)
    }
}

proof fn lemma_child_decreases(n: A11yNode, c: Vec<A11yNode>, k: int)
    requires
        n.children == Some(c),
        0 <= k < c.len(),
    ensures
        decreases_to!(n => c@[k]),
{
    assert(decreases_to!(n => n.children));
    assert(decreases_to!(n.children => n.children->0));
    assert(decreases_to!(c => c@));
    assert(decreases_to!(c@ => c@[k]));
}

fn is_send_exec(c: &A11yNode) -> (r: bool)
    ensures
        r == is_send(*c),
{
    str_eq(c.role.as_str(), "push-button") && (str_eq(c.name.as_str(), "Send(S)") || str_eq(
        c.name.as_str(),
        "Send",
    ))
}

fn is_editor_exec(c: &A11yNode) -> (r: bool)
    ensures
        r == is_editor(*c),
{
    str_eq(c.role.as_str(), "text") && node_has_state(c, "EDITABLE")
}

fn first_where_exec(ks: &Vec<A11yNode>, want_editor: bool) -> (r: Option<usize>)
    ensures
        match r {
            Some(j) => j < ks.len() && (if want_editor {
                first_where_editor(ks@, 0)
            } else {
                first_where_send(ks@, 0)
            }) == Some(j as int),
            None => (if want_editor {
                first_where_editor(ks@, 0)
            } else {
                first_where_send(ks@, 0)
            }) is None,
        },
{
    let mut k: usize = 0;
    while k < ks.len()
        invariant
            k <= ks.len(),
            want_editor ==> first_where_editor(ks@, 0) == first_where_editor(ks@, k as int),
            !want_editor ==> first_where_send(ks@, 0) == first_where_send(ks@, k as int),
        decreases ks.len() - k,
    {
        let hit = if want_editor {
            is_editor_exec(&ks[k])
        } else {
            is_send_exec(&ks[k])
        };
        if hit {
            return Some(k);
        }
        k += 1;
    }
    None
}

fn collect_exec<'a>(node: &'a A11yNode, want_editor: bool, out: &mut Vec<&'a A11yNode>)
    ensures
        crate::selectors::deref_seq(final(out)@) == crate::selectors::deref_seq(old(out)@)
            + collect_spec(*node, want_editor),
    decreases *node, 0int,
{
    let ghost start = crate::selectors::deref_seq(out@);
    let hit = if want_editor {
        is_editor_exec(node)
    } else {
        is_send_exec(node)
    };
    if hit {
        let ghost before = out@;
        out.push(node);
        assert(crate::selectors::deref_seq(out@) =~= crate::selectors::deref_seq(before).push(*node));
    }
    let ghost mid = crate::selectors::deref_seq(out@);
    assert(mid =~= start + (if hit {
        seq![*node]
    } else {
        Seq::<A11yNode>::empty()
    }));
    if let Some(children) = &node.children {
        let mut k: usize = 0;
        while k < children.len()
            invariant
                k <= children.len(),
                node.children == Some(*children),
                crate::selectors::deref_seq(out@) + collect_in(children@, want_editor, k as int) == mid
                    + collect_in(children@, want_editor, 0),
            decreases children.len() - k,
        {
            proof {
                lemma_child_decreases(*node, *children, k as int);
            }
            let ghost before = crate::selectors::deref_seq(out@);
            collect_exec(&children[k], want_editor, out);
            assert(collect_in(children@, want_editor, k as int) == collect_spec(
                children@[k as int],
                want_editor,
            ) + collect_in(children@, want_editor, k + 1));
            assert(crate::selectors::deref_seq(out@) + collect_in(children@, want_editor, k + 1)
                =~= before + collect_in(children@, want_editor, k as int));
            k += 1;
        }
        assert(collect_in(children@, want_editor, k as int) =~= Seq::<A11yNode>::empty());
    }
    assert(crate::selectors::deref_seq(out@) =~= start + collect_spec(*node, want_editor));
}

fn geometry_exec(e: &A11yNode, s: &A11yNode) -> (r: bool)
    ensures
        r == composer_geometry(*e, *s),
{
    match (&e.bounds, &s.bounds) {
        (Some(eb), Some(sb)) => {
            let gap: i64 = sb.y as i64 - (eb.y as i64 + eb.height as i64);
            eb.width > 0 && eb.height > 0 && sb.width > 0 && sb.height > 0 && -8 <= gap && gap
                <= 120 && (sb.x as i64) < eb.x as i64 + eb.width as i64 && sb.x as i64
                + sb.width as i64 > eb.x as i64
        },
        _ => false,
    }
}

fn split_composer_exec<'a>(node: &'a A11yNode) -> (r: Option<(&'a A11yNode, &'a A11yNode)>)
    ensures
        match r {
            Some((e, s)) => split_composer(*node) == Some((*e, *s)),
            None => split_composer(*node) is None,
        },
{
    let mut edits: Vec<&'a A11yNode> = Vec::new();
    let mut sends: Vec<&'a A11yNode> = Vec::new();
    assert(crate::selectors::deref_seq(edits@) =~= Seq::<A11yNode>::empty());
    assert(crate::selectors::deref_seq(sends@) =~= Seq::<A11yNode>::empty());
    collect_exec(node, true, &mut edits);
    collect_exec(node, false, &mut sends);
    assert(crate::selectors::deref_seq(edits@) =~= collect_spec(*node, true));
    assert(crate::selectors::deref_seq(sends@) =~= collect_spec(*node, false));
    if edits.len() == 1 && sends.len() == 1 {
        let e = edits[0];
        let s = sends[0];
        if geometry_exec(e, s) {
            return Some((e, s));
        }
    }
    None
}

/// Find the composer: the editable text input and its Send button.
pub fn find_edit_send_pair<'a>(node: &'a A11yNode) -> (r: Option<(&'a A11yNode, &'a A11yNode)>)
    ensures
        match r {
            Some((e, s)) => pair_search(*node) == Some((*e, *s)),
            None => pair_search(*node) is None,
        },
    decreases *node, 1int,
{
    match &node.children {
        None => None,
        Some(children) => {
            let e = first_where_exec(children, true);
            let s = first_where_exec(children, false);
            if let (Some(ei), Some(si)) = (e, s) {
                return Some((&children[ei], &children[si]));
            }
            assert(pair_search(*node) == match search_in(children@, 0) {
                Some(r) => Some(r),
                None => split_composer(*node),
            });
            let mut k: usize = 0;
            while k < children.len()
                invariant
                    k <= children.len(),
                    node.children == Some(*children),
                    pair_search(*node) == match search_in(children@, k as int) {
                        Some(r) => Some(r),
                        None => split_composer(*node),
                    },
                decreases children.len() - k,
            {
                proof {
                    lemma_child_decreases(*node, *children, k as int);
                }
                let found = find_edit_send_pair(&children[k]);
                assert(search_in(children@, k as int) == if pair_search(children@[k as int]) is Some {
                    pair_search(children@[k as int])
                } else {
                    search_in(children@, k + 1)
                });
                if found.is_some() {
                    return found;
                }
                k += 1;
            }
            split_composer_exec(node)
        },
    }
}

// ============================================
// The plan
// ============================================

pub struct SendMessagePlan;

pub struct SendMessageParams {
    pub chat_id: String,
    pub message: Option<String>,
    pub image_path: Option<String>,
    pub image_mime: Option<String>,
    pub file_path: Option<String>,
}

pub struct SendParamsSpec {
    pub chat_id: Seq<char>,
    pub message: Option<Seq<char>>,
    pub image_path: Option<Seq<char>>,
    pub image_mime: Option<Seq<char>>,
    pub file_path: Option<Seq<char>>,
}

pub open spec fn send_params_view(p: SendMessageParams) -> SendParamsSpec {
    SendParamsSpec {
        chat_id: p.chat_id@,
        message: crate::types::opt_str_view(p.message),
        image_path: crate::types::opt_str_view(p.image_path),
        image_mime: crate::types::opt_str_view(p.image_mime),
        file_path: crate::types::opt_str_view(p.file_path),
    }
}

#[derive(Clone, Copy, Debug, PartialEq, Eq, Structural)]
pub enum SendMessagePhase {
    Opening,
    Focusing,
    Inputting,
    Confirming,
    Done,
}

#[derive(Clone, Copy, Debug, PartialEq, Eq, Structural)]
pub struct SendMessagePlanState {
    pub phase: SendMessagePhase,
    pub open_result: Option<ChatSelectResult>,
    pub confirm_attempts: u32,
}

/// Press Return a moment after a paste.
pub open spec fn paste_then_return() -> ActionSpec {
    ActionSpec::Sequence(seq![ActionSpec::Wait(100), ActionSpec::Key("Return"@)])
}

/// Select the composer's text, type the message over it, and press Return.
pub open spec fn type_then_return(msg: Seq<char>) -> ActionSpec {
    ActionSpec::Sequence(
        seq![
            ActionSpec::Key("ctrl+a"@),
            ActionSpec::Type(msg, None),
            ActionSpec::Wait(100),
            ActionSpec::Key("Return"@),
        ],
    )
}

pub open spec fn inputting_step(ps: SendMessagePlanState, p: SendParamsSpec, mf: Option<FrameSpec>, a11y: A11yNode) -> (
    SendMessagePlanState,
    StepSpec,
) {
    if pair_search(a11y) is None {
        (ps, StepSpec::Stop)
    } else {
        let next = SendMessagePlanState { phase: SendMessagePhase::Confirming, ..ps };
        if let Some(fp) = p.file_path {
            (
                next,
                StepSpec::RunThenAct(
                    "paste-file"@,
                    seq![fp],
                    SelectedSpec { action: paste_then_return(), frame: mf },
                ),
            )
        } else if let Some(ip) = p.image_path {
            (
                next,
                StepSpec::RunThenAct(
                    "paste-image"@,
                    match p.image_mime {
                        Some(m) => seq![ip, m],
                        None => seq![ip],
                    },
                    SelectedSpec { action: paste_then_return(), frame: mf },
                ),
            )
        } else if let Some(msg) = p.message {
            (next, StepSpec::Act(SelectedSpec { action: type_then_return(msg), frame: mf }))
        } else {
            (next, StepSpec::Stop)
        }
    }
}

pub open spec fn focusing_step(
    ps: SendMessagePlanState,
    id: Option<Seq<char>>,
    p: SendParamsSpec,
    mf: Option<FrameSpec>,
    a11y: A11yNode,
) -> (SendMessagePlanState, StepSpec) {
    if !state_is(id, "chat_open"@) {
        (ps, StepSpec::Stop)
    } else {
        match pair_search(a11y) {
            None => (ps, StepSpec::Stop),
            Some((e, _)) => {
                let next = SendMessagePlanState { phase: SendMessagePhase::Inputting, ..ps };
                if has_state(e, "FOCUSED"@) {
                    inputting_step(next, p, mf, a11y)
                } else {
                    match e.bounds {
                        Some(b) => (next, StepSpec::Act(SelectedSpec { action: click_spec(b), frame: mf })),
                        None => (next, StepSpec::Stop),
                    }
                }
            },
        }
    }
}

/// The send plan's next state and step.
pub open spec fn send_message_step(
    popup: bool,
    ids: IdentifiedStates,
    p: SendParamsSpec,
    ps: SendMessagePlanState,
    a11y: A11yNode,
    opened: Option<ChatSelectResult>,
) -> (SendMessagePlanState, StepSpec) {
    let mf = main_frame(ids);
    let id = main_state_id(ids);
    if popup {
        (ps, StepSpec::Act(SelectedSpec { action: dismiss_spec(), frame: mf }))
    } else {
        match ps.phase {
            SendMessagePhase::Opening => if !(state_is(id, "chat"@) || state_is(id, "chat_open"@)) {
                (ps, StepSpec::Stop)
            } else {
                match opened {
                    None => (ps, StepSpec::OpenChat(p.chat_id, state_is(id, "chat"@), chat_click_target(a11y))),
                    Some(res) => if !res.ok {
                        (ps, StepSpec::Stop)
                    } else {
                        let next = SendMessagePlanState {
                            phase: SendMessagePhase::Focusing,
                            open_result: Some(res),
                            ..ps
                        };
                        if !was_skipped(res) {
                            (next, StepSpec::Act(SelectedSpec { action: ActionSpec::Wait(200), frame: mf }))
                        } else {
                            focusing_step(next, id, p, mf, a11y)
                        }
                    },
                }
            },
            SendMessagePhase::Focusing => focusing_step(ps, id, p, mf, a11y),
            SendMessagePhase::Inputting => inputting_step(ps, p, mf, a11y),
            SendMessagePhase::Confirming => match pair_search(a11y) {
                None => (ps, StepSpec::Stop),
                Some((_, s)) => if has_state(s, "DISABLED"@) {
                    (
                        SendMessagePlanState { phase: SendMessagePhase::Done, ..ps },
                        StepSpec::Act(SelectedSpec { action: ActionSpec::Wait(200), frame: mf }),
                    )
                } else {
                    let next = SendMessagePlanState {
                        confirm_attempts: (ps.confirm_attempts + 1) as u32,
                        ..ps
                    };
                    if next.confirm_attempts >= 5 {
                        (next, StepSpec::Stop)
                    } else {
                        (next, StepSpec::Act(SelectedSpec { action: ActionSpec::Wait(200), frame: mf }))
                    }
                },
            },
            SendMessagePhase::Done => (ps, StepSpec::Stop),
        }
    }
}

fn key(combo: &str) -> (a: Action)
    ensures
        action_view(a) == ActionSpec::Key(combo@),
{
    Action::Key { combo: combo.to_owned() }
}

fn paste_then_return_exec() -> (a: Action)
    ensures
        action_view(a) == paste_then_return(),
{
    let mut v: Vec<Action> = Vec::new();
    v.push(Action::Wait { ms: 100 });
    v.push(key("Return"));
    proof {
        crate::types::lemma_actions_view_push2(Seq::empty(), v@[0], v@[1]);
        assert(v@ == Seq::<Action>::empty().push(v@[0]).push(v@[1]));
        assert(crate::types::actions_view(Seq::<Action>::empty()) =~= Seq::<ActionSpec>::empty());
        assert(crate::types::actions_view(v@) =~= seq![ActionSpec::Wait(100), ActionSpec::Key("Return"@)]);
    }
    actions::sequence(v)
}

fn type_then_return_exec(msg: &String) -> (a: Action)
    ensures
        action_view(a) == type_then_return(msg@),
{
    let mut v: Vec<Action> = Vec::new();
    v.push(key("ctrl+a"));
    v.push(Action::Type { text: msg.clone(), selector: None });
    let ghost first = v@;
    v.push(Action::Wait { ms: 100 });
    v.push(key("Return"));
    proof {
        crate::types::lemma_actions_view_push2(Seq::empty(), v@[0], v@[1]);
        assert(first == Seq::<Action>::empty().push(v@[0]).push(v@[1]));
        crate::types::lemma_actions_view_push2(first, v@[2], v@[3]);
        assert(v@ == first.push(v@[2]).push(v@[3]));
        assert(crate::types::actions_view(Seq::<Action>::empty()) =~= Seq::<ActionSpec>::empty());
        assert(crate::types::actions_view(v@) =~= seq![
            ActionSpec::Key("ctrl+a"@),
            ActionSpec::Type(msg@, None),
            ActionSpec::Wait(100),
            ActionSpec::Key("Return"@),
        ]);
    }
    actions::sequence(v)
}

fn inputting_exec(
    ps: &mut SendMessagePlanState,
    params: &SendMessageParams,
    identified: &IdentifiedStates,
    a11y: &A11yNode,
) -> (r: PlanStep)
    ensures
        (*final(ps), step_view(r)) == inputting_step(
            *old(ps),
            send_params_view(*params),
            main_frame(*identified),
            *a11y,
        ),
{
    if find_edit_send_pair(a11y).is_none() {
        return PlanStep::Stop;
    }
    ps.phase = SendMessagePhase::Confirming;
    if let Some(fp) = &params.file_path {
        let mut args: Vec<String> = Vec::new();
        args.push(fp.clone());
        assert(strings_view(args@) =~= seq![fp@]);
        return PlanStep::RunThenAct {
            command: "paste-file".to_owned(),
            args,
            then: SelectedAction { action: paste_then_return_exec(), frame: main_frame_of(identified) },
        };
    }
    if let Some(ip) = &params.image_path {
        let mut args: Vec<String> = Vec::new();
        args.push(ip.clone());
        if let Some(m) = &params.image_mime {
            args.push(m.clone());
            assert(strings_view(args@) =~= seq![ip@, m@]);
        } else {
            assert(strings_view(args@) =~= seq![ip@]);
        }
        return PlanStep::RunThenAct {
            command: "paste-image".to_owned(),
            args,
            then: SelectedAction { action: paste_then_return_exec(), frame: main_frame_of(identified) },
        };
    }
    if let Some(msg) = &params.message {
        return PlanStep::Act(
            SelectedAction { action: type_then_return_exec(msg), frame: main_frame_of(identified) },
        );
    }
    PlanStep::Stop
}

fn focusing_exec(
    ps: &mut SendMessagePlanState,
    id: &Option<Vec<char>>,
    params: &SendMessageParams,
    identified: &IdentifiedStates,
    a11y: &A11yNode,
) -> (r: PlanStep)
    requires
        match id {
            Some(v) => main_state_id(*identified) == Some(v@),
            None => main_state_id(*identified) is None,
        },
    ensures
        (*final(ps), step_view(r)) == focusing_step(
            *old(ps),
            main_state_id(*identified),
            send_params_view(*params),
            main_frame(*identified),
            *a11y,
        ),
{
    if !state_is_exec(id, "chat_open") {
        return PlanStep::Stop;
    }
    match find_edit_send_pair(a11y) {
        None => PlanStep::Stop,
        Some((edit, _)) => {
            ps.phase = SendMessagePhase::Inputting;
            if node_has_state(edit, "FOCUSED") {
                return inputting_exec(ps, params, identified, a11y);
            }
            match &edit.bounds {
                Some(b) => PlanStep::Act(
                    SelectedAction { action: actions::click_bounds(b), frame: main_frame_of(identified) },
                ),
                None => PlanStep::Stop,
            }
        },
    }
}

impl SendMessagePlan {
    pub fn id(&self) -> (r: &'static str)
        ensures
            r@ == "send_message"@,
    {
        "send_message"
    }

    pub fn initial_plan_state(&self) -> (s: SendMessagePlanState)
        ensures
            s == (SendMessagePlanState {
                phase: SendMessagePhase::Opening,
                open_result: None,
                confirm_attempts: 0,
            }),
    {
        SendMessagePlanState { phase: SendMessagePhase::Opening, open_result: None, confirm_attempts: 0 }
    }

    pub fn is_goal_reached(&self, state: &AppState, plan_state: &SendMessagePlanState) -> (r: bool)
        ensures
            r == (plan_state.phase == SendMessagePhase::Done),
    {
        plan_state.phase == SendMessagePhase::Done
    }

    /// The next step. A shown popup is dismissed first. Opening asks for the
    /// chat to be opened (call again with the selector's answer in `opened`);
    /// then the composer is focused, the file, image or text is pasted or
    /// typed and sent with Return, and the plan waits, at most five times,
    /// for the Send button to go disabled.
    pub fn select_action(
        &self,
        state: &AppState,
        params: &SendMessageParams,
        identified: &IdentifiedStates,
        plan_state: &mut SendMessagePlanState,
        a11y: &A11yNode,
        session_id: &str,
        opened: Option<ChatSelectResult>,
    ) -> (r: PlanStep)
        requires
            old(plan_state).confirm_attempts < u32::MAX,
        ensures
            (*final(plan_state), step_view(r)) == send_message_step(
                popup_shown(*state, *identified),
                *identified,
                send_params_view(*params),
                *old(plan_state),
                *a11y,
                opened,
            ),
    {
        if state.popup.is_some() && identified.popup.is_some() {
            return PlanStep::Act(
                SelectedAction { action: actions::dismiss_popup(), frame: main_frame_of(identified) },
            );
        }
        let id = main_state_id_of(identified);
        match plan_state.phase {
            SendMessagePhase::Opening => {
                if !state_is_exec(&id, "chat") && !state_is_exec(&id, "chat_open") {
                    return PlanStep::Stop;
                }
                match opened {
                    None => PlanStep::OpenChat {
                        chat_id: params.chat_id.clone(),
                        force: state_is_exec(&id, "chat"),
                        click_xy: chat_click_target_exec(a11y),
                    },
                    Some(res) => {
                        if !res.ok {
                            return PlanStep::Stop;
                        }
                        let skipped = match res.skipped {
                            Some(v) => v,
                            None => false,
                        };
                        plan_state.open_result = Some(res);
                        plan_state.phase = SendMessagePhase::Focusing;
                        if !skipped {
                            return PlanStep::Act(
                                SelectedAction { action: actions::wait_short(), frame: main_frame_of(identified) },
                            );
                        }
                        focusing_exec(plan_state, &id, params, identified, a11y)
                    },
                }
            },
            SendMessagePhase::Focusing => focusing_exec(plan_state, &id, params, identified, a11y),
            SendMessagePhase::Inputting => inputting_exec(plan_state, params, identified, a11y),
            SendMessagePhase::Confirming => {
                match find_edit_send_pair(a11y) {
                    None => PlanStep::Stop,
                    Some((_, send_btn)) => {
                        if node_has_state(send_btn, "DISABLED") {
                            plan_state.phase = SendMessagePhase::Done;
                            return PlanStep::Act(
                                SelectedAction { action: actions::wait_short(), frame: main_frame_of(identified) },
                            );
                        }
                        plan_state.confirm_attempts = plan_state.confirm_attempts + 1;
                        if plan_state.confirm_attempts >= 5 {
                            return PlanStep::Stop;
                        }
                        PlanStep::Act(
                            SelectedAction { action: actions::wait_short(), frame: main_frame_of(identified) },
                        )
                    },
                }
            },
            SendMessagePhase::Done => PlanStep::Stop,
        }
    }
}

} // verus!
