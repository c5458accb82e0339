//! Logging out: open the settings through the "More" menu, go to the account
//! page, press "Log Out" and confirm.
use vstd::prelude::*;
use crate::actions::{click_bounds, wait_short};
use crate::types::{
    A11yNode, ActionSpec, AppState, IdentifiedStates, SelectedAction, SelectedSpec, click_spec,
    main_frame, main_frame_of, opt_selected_view, state_frame, state_frame_of,
};

verus! {

pub struct LogoutPlan;

pub struct LogoutParams;

/// The logout plan's choice for a state.
pub open spec fn logout_choice(state: AppState, ids: IdentifiedStates) -> Option<SelectedSpec> {
    let settings_frame = state_frame(ids.settings);
    match state.settings {
        Some(s) => if let Some(b) = s.modal_ok_bounds {
            Some(SelectedSpec { action: click_spec(b), frame: settings_frame })
        } else if let Some(b) = s.logout_button_bounds {
            Some(SelectedSpec { action: click_spec(b), frame: settings_frame })
        } else if let Some(b) = s.my_account_bounds {
            Some(SelectedSpec { action: click_spec(b), frame: settings_frame })
        } else {
            Some(SelectedSpec { action: ActionSpec::Wait(200), frame: None })
        },
        None => if let Some(b) = state.main_window.settings_menu_item_bounds {
            Some(SelectedSpec { action: click_spec(b), frame: main_frame(ids) })
        } else if let Some(b) = state.main_window.more_button_bounds {
            Some(SelectedSpec { action: click_spec(b), frame: main_frame(ids) })
        } else {
            None
        },
    }
}

impl LogoutPlan {
    pub fn id(&self) -> (r: &'static str)
        ensures
            r@ == "logout"@,
    {
        "logout"
    }

    /// Done once the window no longer shows a logged-in account.
    pub fn is_goal_reached(&self, state: &AppState, plan_state: &()) -> (r: bool)
        ensures
            r == !state.main_window.is_logged_in,
    {
        !state.main_window.is_logged_in
    }

    /// In the settings: confirm the modal, else press "Log Out", else open "My
    /// Account", else wait. Outside them: pick "Settings" from the open "More"
    /// menu, else open the "More" menu, else nothing.
    pub fn select_action(
        &self,
        state: &AppState,
        params: &LogoutParams,
        identified: &IdentifiedStates,
        plan_state: &mut (),
        a11y: &A11yNode,
        session_id: &str,
    ) -> (r: Option<SelectedAction>)
        ensures
            opt_selected_view(r) == logout_choice(*state, *identified),
    {
        if let Some(settings) = &state.settings {
            if let Some(b) = &settings.modal_ok_bounds {
                return Some(
                    SelectedAction { action: click_bounds(b), frame: state_frame_of(&identified.settings) },
                );
            }
            if let Some(b) = &settings.logout_button_bounds {
                return Some(
                    SelectedAction { action: click_bounds(b), frame: state_frame_of(&identified.settings) },
                );
            }
            if let Some(b) = &settings.my_account_bounds {
                return Some(
                    SelectedAction { action: click_bounds(b), frame: state_frame_of(&identified.settings) },
                );
            }
            return Some(SelectedAction { action: wait_short(), frame: None });
        }
        if let Some(b) = &state.main_window.settings_menu_item_bounds {
            return Some(SelectedAction { action: click_bounds(b), frame: main_frame_of(identified) });
        }
        if let Some(b) = &state.main_window.more_button_bounds {
            return Some(SelectedAction { action: click_bounds(b), frame: main_frame_of(identified) });
        }
        None
    }
}

} // verus!
