//! Goal-oriented plans: each turns the observed window state into the next
//! action, one step at a time. Where a plan must wait on work outside the
//! window (opening a chat, pasting a file), its step names that work and the
//! caller performs it and, where the plan needs the answer, hands it back.
use vstd::prelude::*;
use crate::selectors::{query_selector, query_selector_spec};
use crate::types::{A11yNode, SelectedAction, SelectedSpec, center_of, selected_view};

pub mod auth_status;
pub mod logout;
pub mod chat_open;
pub mod send_message;
pub mod receive_transfer;
pub mod login;

verus! {

/// What the chat selector reported after opening a chat.
#[derive(Clone, Copy, Debug, PartialEq, Eq, Structural)]
pub struct ChatSelectResult {
    pub ok: bool,
    /// The chat was already open, so nothing had to change on screen.
    pub skipped: Option<bool>,
}

/// The next step of a plan.
#[derive(Debug)]
pub enum PlanStep {
    /// Perform this action.
    Act(SelectedAction),
    /// No action: the plan waits for another state, is done, or gave up.
    Stop,
    /// Open this chat, then call the plan again with the result.
    OpenChat { chat_id: String, force: bool, click_xy: Option<(i64, i64)> },
    /// Run this helper command, then perform the action.
    RunThenAct { command: String, args: Vec<String>, then: SelectedAction },
}

pub enum StepSpec {
    Act(SelectedSpec),
    Stop,
    OpenChat(Seq<char>, bool, Option<(int, int)>),
    RunThenAct(Seq<char>, Seq<Seq<char>>, SelectedSpec),
}

pub open spec fn strings_view(v: Seq<String>) -> Seq<Seq<char>> {
    v.map_values(|s: String| s@)
}

pub open spec fn step_view(s: PlanStep) -> StepSpec {
    match s {
        PlanStep::Act(a) => StepSpec::Act(selected_view(a)),
        PlanStep::Stop => StepSpec::Stop,
        PlanStep::OpenChat { chat_id, force, click_xy } => StepSpec::OpenChat(
            chat_id@,
            force,
            match click_xy {
                Some(p) => Some((p.0 as int, p.1 as int)),
                None => None,
            },
        ),
        PlanStep::RunThenAct { command, args, then } => StepSpec::RunThenAct(
            command@,
            strings_view(args@),
            selected_view(then),
        ),
    }
}

/// The selector of the first row of the chat list.
pub open spec fn chat_row_selector() -> Seq<char> {
    "list[name=\"Chats\"] > list-item"@
}

/// Where to click to reach the chat list: the centre of its first row.
pub open spec fn chat_click_target(a11y: A11yNode) -> Option<(int, int)> {
    match query_selector_spec(a11y, chat_row_selector()) {
        Some(item) => match item.bounds {
            Some(b) => Some(center_of(b)),
            None => None,
        },
        None => None,
    }
}

pub fn chat_click_target_exec(a11y: &A11yNode) -> (r: Option<(i64, i64)>)
    ensures
        match r {
            Some(p) => chat_click_target(*a11y) == Some((p.0 as int, p.1 as int)),
            None => chat_click_target(*a11y) is None,
        },
{
    match query_selector(a11y, "list[name=\"Chats\"] > list-item") {
        Some(item) => match &item.bounds {
            Some(b) => Some(crate::actions::bounds_center(b)),
            None => None,
        },
        None => None,
    }
}

/// Whether the recognised main-window state is the given one.
pub open spec fn state_is(id: Option<Seq<char>>, want: Seq<char>) -> bool {
    id == Some(want)
}

pub fn state_is_exec(id: &Option<Vec<char>>, want: &str) -> (r: bool)
    ensures
        r == match id {
            Some(v) => v@ == want@,
            None => false,
        },
{
    match id {
        Some(v) => {
            let w = crate::text::chars_of(want);
            crate::text::seq_eq(v.as_slice(), w.as_slice())
        },
        None => false,
    }
}

} // verus!

verus! {

/// A popup is both modelled and recognised on screen.
pub open spec fn popup_shown(state: crate::types::AppState, ids: crate::types::IdentifiedStates) -> bool {
    state.popup is Some && ids.popup is Some
}

/// Whether the chat selector reported that nothing had to change.
pub open spec fn was_skipped(r: ChatSelectResult) -> bool {
    r.skipped == Some(true)
}

/// The action that dismisses a popup.
pub open spec fn dismiss_spec() -> crate::types::ActionSpec {
    crate::types::ActionSpec::ClickSelector("push-button[name=/OK|Confirm|确定|确认/i]"@)
}

} // verus!
