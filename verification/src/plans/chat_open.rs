//! Opening a chat, and optionally clearing its unread voice messages: focus
//! the composer, then play every unplayed voice message.
use vstd::prelude::*;
use crate::actions;
use crate::helpers::{edit_and_send_spec, find_edit_and_send_button};
use crate::plans::{
    ChatSelectResult, PlanStep, StepSpec, chat_click_target, chat_click_target_exec, dismiss_spec,
    popup_shown, state_is, state_is_exec, step_view, was_skipped,
};
use crate::selectors::{deref_seq, query_selector_all, query_selector_all_spec};
use crate::types::{
    A11yNode, Action, ActionSpec, AppState, FrameSpec, IdentifiedStates, SelectedAction,
    SelectedSpec, action_view, actions_view, click_spec, main_frame, main_frame_of, main_state_id,
    main_state_id_of, round_half,
};

verus! {

pub struct ChatOpenPlan;

pub struct ChatOpenParams {
    pub chat_id: String,
    pub clear_unreads: bool,
}

#[derive(Clone, Copy, Debug, PartialEq, Eq, Structural)]
pub enum ChatOpenPhase {
    Opening,
    Focusing,
    ClickingAudio,
    Done,
}

#[derive(Clone, Copy, Debug, PartialEq, Eq, Structural)]
pub struct ChatOpenPlanState {
    pub phase: ChatOpenPhase,
    pub result: Option<ChatSelectResult>,
}

/// The selector of the unplayed voice messages of the open chat.
pub open spec fn unplayed_selector() -> Seq<char> {
    "list[name=\"Messages\"] > list-item[name=/^Audio.*Unplay/s]"@
}

/// A click near the left edge of each voice message that has bounds, each
/// followed by a half-second wait.
pub open spec fn audio_clicks(nodes: Seq<A11yNode>) -> Seq<ActionSpec>
    decreases nodes.len(),
{
    if nodes.len() == 0 {
        Seq::empty()
    } else {
        audio_clicks(nodes.drop_last()) + match nodes.last().bounds {
            Some(b) => seq![
                ActionSpec::ClickCoords(b.x + 100, round_half(2 * b.y + b.height)),
                ActionSpec::Wait(500),
            ],
            None => Seq::empty(),
        }
    }
}

pub open spec fn audio_step(ps: ChatOpenPlanState, id: Option<Seq<char>>, mf: Option<FrameSpec>, a11y: A11yNode) -> (
    ChatOpenPlanState,
    StepSpec,
) {
    if !state_is(id, "chat_open"@) {
        (ps, StepSpec::Stop)
    } else {
        let clicks = audio_clicks(query_selector_all_spec(a11y, unplayed_selector()));
        (
            ChatOpenPlanState { phase: ChatOpenPhase::Done, ..ps },
            StepSpec::Act(
                SelectedSpec {
                    action: if clicks.len() == 0 {
                        ActionSpec::Wait(200)
                    } else {
                        ActionSpec::Sequence(clicks)
                    },
                    frame: mf,
                },
            ),
        )
    }
}

pub open spec fn focusing_step(ps: ChatOpenPlanState, id: Option<Seq<char>>, mf: Option<FrameSpec>, a11y: A11yNode) -> (
    ChatOpenPlanState,
    StepSpec,
) {
    if !state_is(id, "chat_open"@) {
        (ps, StepSpec::Stop)
    } else {
        match edit_and_send_spec(a11y) {
            None => (ps, StepSpec::Stop),
            Some((e, _)) => {
                let next = ChatOpenPlanState { phase: ChatOpenPhase::ClickingAudio, ..ps };
                match e.bounds {
                    Some(b) => (next, StepSpec::Act(SelectedSpec { action: click_spec(b), frame: mf })),
                    None => audio_step(next, id, mf, a11y),
                }
            },
        }
    }
}

/// The chat-open plan's next state and step.
pub open spec fn chat_open_step(
    popup: bool,
    ids: IdentifiedStates,
    chat_id: Seq<char>,
    clear_unreads: bool,
    ps: ChatOpenPlanState,
    a11y: A11yNode,
    opened: Option<ChatSelectResult>,
) -> (ChatOpenPlanState, StepSpec) {
    let mf = main_frame(ids);
    let id = main_state_id(ids);
    if popup {
        (ps, StepSpec::Act(SelectedSpec { action: dismiss_spec(), frame: mf }))
    } else {
        match ps.phase {
            ChatOpenPhase::Opening => if !(state_is(id, "chat"@) || state_is(id, "chat_open"@)) {
                (ps, StepSpec::Stop)
            } else {
                match opened {
                    None => (ps, StepSpec::OpenChat(chat_id, state_is(id, "chat"@), chat_click_target(a11y))),
                    Some(res) => if !res.ok {
                        (ChatOpenPlanState { result: Some(res), ..ps }, StepSpec::Stop)
                    } else if clear_unreads {
                        let next = ChatOpenPlanState { phase: ChatOpenPhase::Focusing, result: Some(res) };
                        if !was_skipped(res) {
                            (next, StepSpec::Act(SelectedSpec { action: ActionSpec::Wait(200), frame: mf }))
                        } else {
                            focusing_step(next, id, mf, a11y)
                        }
                    } else {
                        (
                            ChatOpenPlanState { phase: ChatOpenPhase::Done, result: Some(res) },
                            StepSpec::Act(SelectedSpec { action: ActionSpec::Wait(200), frame: mf }),
                        )
                    },
                }
            },
            ChatOpenPhase::Focusing => focusing_step(ps, id, mf, a11y),
            ChatOpenPhase::ClickingAudio => audio_step(ps, id, mf, a11y),
            ChatOpenPhase::Done => (ps, StepSpec::Stop),
        }
    }
}

fn audio_exec(
    ps: &mut ChatOpenPlanState,
    id: &Option<Vec<char>>,
    identified: &IdentifiedStates,
    a11y: &A11yNode,
) -> (r: PlanStep)
    requires
        match id {
            Some(v) => main_state_id(*identified) == Some(v@),
            None => main_state_id(*identified) is None,
        },
    ensures
        (*final(ps), step_view(r)) == audio_step(*old(ps), main_state_id(*identified), main_frame(*identified), *a11y),
{
    if !state_is_exec(id, "chat_open") {
        return PlanStep::Stop;
    }
    let unplayed = query_selector_all(a11y, "list[name=\"Messages\"] > list-item[name=/^Audio.*Unplay/s]");
    let ghost nodes = deref_seq(unplayed@);
    let mut seq: Vec<Action> = Vec::new();
    let mut k: usize = 0;
    while k < unplayed.len()
        invariant
            k <= unplayed.len(),
            nodes == deref_seq(unplayed@),
            actions_view(seq@) == audio_clicks(nodes.take(k as int)),
        decreases unplayed.len() - k,
    {
        assert(nodes.take(k + 1).drop_last() == nodes.take(k as int));
        assert(nodes.take(k + 1).last() == *unplayed@[k as int]);
        let node = unplayed[k];
        if let Some(b) = &node.bounds {
            let ghost before = seq@;
            seq.push(actions::click_at(b.x as i64 + 100, actions::round_half_exec(2 * (b.y as i64) + b.height as i64)));
            seq.push(Action::Wait { ms: 500 });
            proof {
                crate::types::lemma_actions_view_push2(before, seq@[before.len() as int], seq@[before.len() as int + 1]);
                assert(seq@ == before.push(seq@[before.len() as int]).push(seq@[before.len() as int + 1]));
            }
        }
        k += 1;
    }
    assert(nodes.take(unplayed.len() as int) == nodes);
    assert(nodes =~= query_selector_all_spec(*a11y, "list[name=\"Messages\"] > list-item[name=/^Audio.*Unplay/s]"@));
    ps.phase = ChatOpenPhase::Done;
    let frame = main_frame_of(identified);
    if seq.len() == 0 {
        PlanStep::Act(SelectedAction { action: actions::wait_short(), frame })
    } else {
        PlanStep::Act(SelectedAction { action: actions::sequence(seq), frame })
    }
}


fn focusing_exec(
    ps: &mut ChatOpenPlanState,
    id: &Option<Vec<char>>,
    identified: &IdentifiedStates,
    a11y: &A11yNode,
) -> (r: PlanStep)
    requires
        match id {
            Some(v) => main_state_id(*identified) == Some(v@),
            None => main_state_id(*identified) is None,
        },
    ensures
        (*final(ps), step_view(r)) == focusing_step(*old(ps), main_state_id(*identified), main_frame(*identified), *a11y),
{
    if !state_is_exec(id, "chat_open") {
        return PlanStep::Stop;
    }
    match find_edit_and_send_button(a11y) {
        None => PlanStep::Stop,
        Some((edit, _)) => {
            ps.phase = ChatOpenPhase::ClickingAudio;
            match &edit.bounds {
                Some(b) => PlanStep::Act(
                    SelectedAction { action: actions::click_bounds(b), frame: main_frame_of(identified) },
                ),
                None => audio_exec(ps, id, identified, a11y),
            }
        },
    }
}

impl ChatOpenPlan {
    pub fn id(&self) -> (r: &'static str)
        ensures
            r@ == "chat_open"@,
    {
        "chat_open"
    }

    pub fn initial_plan_state(&self) -> (s: ChatOpenPlanState)
        ensures
            s == (ChatOpenPlanState { phase: ChatOpenPhase::Opening, result: None }),
    {
        ChatOpenPlanState { phase: ChatOpenPhase::Opening, result: None }
    }

    pub fn is_goal_reached(&self, state: &AppState, plan_state: &ChatOpenPlanState) -> (r: bool)
        ensures
            r == (plan_state.phase == ChatOpenPhase::Done),
    {
        plan_state.phase == ChatOpenPhase::Done
    }

    /// The next step. A shown popup is dismissed first. Opening asks for the
    /// chat to be opened (call again with the selector's answer in `opened`);
    /// with `clear_unreads` the composer is then focused and every unplayed
    /// voice message clicked.
    pub fn select_action(
        &self,
        state: &AppState,
        params: &ChatOpenParams,
        identified: &IdentifiedStates,
        plan_state: &mut ChatOpenPlanState,
        a11y: &A11yNode,
        session_id: &str,
        opened: Option<ChatSelectResult>,
    ) -> (r: PlanStep)
        ensures
            (*final(plan_state), step_view(r)) == chat_open_step(
                popup_shown(*state, *identified),
                *identified,
                params.chat_id@,
                params.clear_unreads,
                *old(plan_state),
                *a11y,
                opened,
            ),
    {
        if state.popup.is_some() && identified.popup.is_some() {
            return PlanStep::Act(
                SelectedAction { action: actions::dismiss_popup(), frame: main_frame_of(identified) },
            );
        }
        let id = main_state_id_of(identified);
        match plan_state.phase {
            ChatOpenPhase::Opening => {
                if !state_is_exec(&id, "chat") && !state_is_exec(&id, "chat_open") {
                    return PlanStep::Stop;
                }
                match opened {
                    None => PlanStep::OpenChat {
                        chat_id: params.chat_id.clone(),
                        force: state_is_exec(&id, "chat"),
                        click_xy: chat_click_target_exec(a11y),
                    },
                    Some(res) => {
                        plan_state.result = Some(res);
                        if !res.ok {
                            return PlanStep::Stop;
                        }
                        let skipped = match res.skipped {
                            Some(v) => v,
                            None => false,
                        };
                        if params.clear_unreads {
                            plan_state.phase = ChatOpenPhase::Focusing;
                            if !skipped {
                                return PlanStep::Act(
                                    SelectedAction { action: actions::wait_short(), frame: main_frame_of(identified) },
                                );
                            }
                            focusing_exec(plan_state, &id, identified, a11y)
                        } else {
                            plan_state.phase = ChatOpenPhase::Done;
                            PlanStep::Act(
                                SelectedAction { action: actions::wait_short(), frame: main_frame_of(identified) },
                            )
                        }
                    },
                }
            },
            ChatOpenPhase::Focusing => focusing_exec(plan_state, &id, identified, a11y),
            ChatOpenPhase::ClickingAudio => audio_exec(plan_state, &id, identified, a11y),
            ChatOpenPhase::Done => PlanStep::Stop,
        }
    }
}

} // verus!
