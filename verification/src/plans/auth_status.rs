//! A plan that only observes: its goal holds at once and it never acts.
use vstd::prelude::*;
use crate::types::{A11yNode, AppState, IdentifiedStates, SelectedAction};

verus! {

pub struct AuthStatusPlan;

pub struct AuthStatusParams;

impl AuthStatusPlan {
    pub fn id(&self) -> (r: &'static str)
        ensures
            r@ == "auth_status"@,
    {
        "auth_status"
    }

    /// Goal reached immediately: one observation is all it needs.
    pub fn is_goal_reached(&self, state: &AppState, plan_state: &()) -> (r: bool)
        ensures
            r,
    {
        true
    }

    /// No action is ever needed.
    pub fn select_action(
        &self,
        state: &AppState,
        params: &AuthStatusParams,
        identified: &IdentifiedStates,
        plan_state: &mut (),
        a11y: &A11yNode,
        session_id: &str,
    ) -> (r: Option<SelectedAction>)
        ensures
            r is None,
    {
        None
    }
}

} // verus!
