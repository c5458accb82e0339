//! Logging in: leave the proxy settings page, show each new QR code to the
//! subscribers, press "Log In" (or "Switch Account"), then, once the chat view
//! is up, maximise the window, find out which account logged in and fetch its
//! database keys.
use vstd::prelude::*;
use crate::actions;
use crate::plans::{dismiss_spec, popup_shown};
use crate::text::str_eq;
use crate::types::{
    A11yNode, Action, ActionSpec, AppState, FrameHint, FrameSpec, IdentifiedStates, MainWindowView,
    SelectedAction, SelectedSpec, SubscriptionEvent, action_view, main_frame, main_frame_of,
    opt_frame_view, opt_str_view, selected_view,
};

verus! {

pub struct LoginPlan;

pub struct LoginParams {
    pub new_account: bool,
}

#[derive(Clone, Copy, Debug, PartialEq, Eq, Structural)]
pub enum LoginPhase {
    Initializing,
    Authenticating,
    Maximizing,
    DetectingUser,
    ExtractingKeys,
    Done,
}

pub struct LoginPlanState {
    pub phase: LoginPhase,
    pub account_dir: Option<String>,
    pub last_emitted_qr: Option<String>,
    pub emitted_phone_confirm: bool,
    pub detect_retries: u32,
}

pub struct LoginStateSpec {
    pub phase: LoginPhase,
    pub account_dir: Option<Seq<char>>,
    pub last_emitted_qr: Option<Seq<char>>,
    pub emitted_phone_confirm: bool,
    pub detect_retries: nat,
}

pub open spec fn login_state_view(s: LoginPlanState) -> LoginStateSpec {
    LoginStateSpec {
        phase: s.phase,
        account_dir: opt_str_view(s.account_dir),
        last_emitted_qr: opt_str_view(s.last_emitted_qr),
        emitted_phone_confirm: s.emitted_phone_confirm,
        detect_retries: s.detect_retries as nat,
    }
}

/// The next step of the login plan.
#[derive(Debug)]
pub enum LoginStep {
    /// Perform this action.
    Act(SelectedAction),
    /// Find out which account is logged in, then call `after_detect`.
    DetectUser,
    /// Extract the database keys of the account, then call `after_extract`.
    ExtractKeys,
}

pub enum LoginStepSpec {
    Act(SelectedSpec),
    DetectUser,
    ExtractKeys,
}

pub open spec fn login_step_view(s: LoginStep) -> LoginStepSpec {
    match s {
        LoginStep::Act(a) => LoginStepSpec::Act(selected_view(a)),
        LoginStep::DetectUser => LoginStepSpec::DetectUser,
        LoginStep::ExtractKeys => LoginStepSpec::ExtractKeys,
    }
}

/// An event with one string field, emitted before a wait.
pub open spec fn emit_then_wait(kind: Seq<char>, fields: Seq<(Seq<char>, Seq<char>)>, ms: nat) -> ActionSpec {
    ActionSpec::Sequence(seq![ActionSpec::Emit(kind, fields), ActionSpec::Wait(ms)])
}

pub open spec fn act(a: ActionSpec, f: Option<FrameSpec>) -> LoginStepSpec {
    LoginStepSpec::Act(SelectedSpec { action: a, frame: f })
}

/// Leave the proxy settings page: discard a failed save, else go back.
pub open spec fn leave_proxy_page(state: AppState) -> ActionSpec {
    if state.main_window.proxy_save_failed == Some(true) {
        ActionSpec::ClickSelector("push-button[name=\"Discard\"]"@)
    } else {
        ActionSpec::ClickSelector("push-button[name=\"Back\"]"@)
    }
}

pub open spec fn authenticating_step(
    state: AppState,
    new_account: bool,
    ps: LoginStateSpec,
    mf: Option<FrameSpec>,
) -> (LoginStateSpec, LoginStepSpec) {
    match state.main_window.view {
        MainWindowView::LoginQr => match opt_str_view(state.main_window.qr_data) {
            Some(qr) => if ps.last_emitted_qr != Some(qr) {
                (
                    LoginStateSpec { last_emitted_qr: Some(qr), ..ps },
                    act(emit_then_wait("qr"@, seq![("qrData"@, qr)], 500), mf),
                )
            } else {
                (ps, act(ActionSpec::Wait(500), None))
            },
            None => (ps, act(ActionSpec::Wait(500), None)),
        },
        MainWindowView::LoginAccount => (
            ps,
            act(
                if new_account {
                    ActionSpec::ClickSelector("push-button[name=\"Switch Account\"]"@)
                } else {
                    ActionSpec::ClickSelector("push-button[name=/^(Log In|Open WeChat)$/]"@)
                },
                mf,
            ),
        ),
        MainWindowView::LoginPhoneConfirm => if !ps.emitted_phone_confirm {
            (
                LoginStateSpec { emitted_phone_confirm: true, ..ps },
                act(
                    emit_then_wait(
                        "phone_confirm"@,
                        seq![("message"@, "Please confirm login on your phone"@)],
                        500,
                    ),
                    mf,
                ),
            )
        } else {
            (ps, act(ActionSpec::Wait(500), None))
        },
        MainWindowView::LoginLoading => (ps, act(ActionSpec::Wait(500), None)),
        MainWindowView::Chat | MainWindowView::ChatOpen => (
            LoginStateSpec { phase: LoginPhase::Maximizing, ..ps },
            act(
                ActionSpec::Sequence(
                    seq![
                        ActionSpec::Wait(1000),
                        ActionSpec::ClickSelector("tool-bar push-button[name=\"Maximize\"]"@),
                        ActionSpec::Wait(500),
                    ],
                ),
                mf,
            ),
        ),
        MainWindowView::NetworkProxySettings => (ps, act(leave_proxy_page(state), mf)),
    }
}

/// The login plan's next state and step.
pub open spec fn login_step(
    popup: bool,
    state: AppState,
    new_account: bool,
    ids: IdentifiedStates,
    ps: LoginStateSpec,
) -> (LoginStateSpec, LoginStepSpec) {
    let mf = main_frame(ids);
    let in_chat = state.main_window.view == MainWindowView::Chat || state.main_window.view
        == MainWindowView::ChatOpen;
    if popup {
        (ps, act(dismiss_spec(), mf))
    } else {
        match ps.phase {
            LoginPhase::Initializing => if state.main_window.view
                == MainWindowView::NetworkProxySettings {
                (ps, act(leave_proxy_page(state), mf))
            } else {
                authenticating_step(
                    state,
                    new_account,
                    LoginStateSpec { phase: LoginPhase::Authenticating, ..ps },
                    mf,
                )
            },
            LoginPhase::Authenticating => authenticating_step(state, new_account, ps, mf),
            LoginPhase::Maximizing => (
                LoginStateSpec { phase: LoginPhase::DetectingUser, ..ps },
                act(ActionSpec::Wait(500), None),
            ),
            LoginPhase::DetectingUser => if !in_chat {
                (ps, act(ActionSpec::Wait(500), None))
            } else {
                (ps, LoginStepSpec::DetectUser)
            },
            LoginPhase::ExtractingKeys => (ps, LoginStepSpec::ExtractKeys),
            LoginPhase::Done => (ps, act(ActionSpec::Wait(200), None)),
        }
    }
}

fn event(kind: &str, fields: Vec<(String, String)>) -> (a: Action)
    ensures
        action_view(a) == ActionSpec::Emit(kind@, crate::types::pairs_view(fields@)),
{
    Action::Emit { event: SubscriptionEvent { event_type: kind.to_owned(), data: fields } }
}

fn one_field(key: &str, value: String) -> (r: Vec<(String, String)>)
    ensures
        crate::types::pairs_view(r@) == seq![(key@, value@)],
{
    let mut v: Vec<(String, String)> = Vec::new();
    v.push((key.to_owned(), value));
    assert(crate::types::pairs_view(v@) =~= seq![(key@, value@)]);
    v
}

fn emit_then_wait_exec(kind: &str, fields: Vec<(String, String)>, ms: u64) -> (a: Action)
    ensures
        action_view(a) == emit_then_wait(kind@, crate::types::pairs_view(fields@), ms as nat),
{
    let ghost fv = crate::types::pairs_view(fields@);
    let mut v: Vec<Action> = Vec::new();
    v.push(event(kind, fields));
    v.push(actions::wait(ms));
    proof {
        crate::types::lemma_actions_view_push2(Seq::empty(), v@[0], v@[1]);
        assert(v@ == Seq::<Action>::empty().push(v@[0]).push(v@[1]));
        assert(crate::types::actions_view(Seq::<Action>::empty()) =~= Seq::<ActionSpec>::empty());
        assert(crate::types::actions_view(v@) =~= seq![ActionSpec::Emit(kind@, fv), ActionSpec::Wait(ms as nat)]);
    }
    actions::sequence(v)
}

fn leave_proxy_page_exec(state: &AppState) -> (a: Action)
    ensures
        action_view(a) == leave_proxy_page(*state),
{
    if state.main_window.proxy_save_failed == Some(true) {
        actions::click_selector("push-button[name=\"Discard\"]")
    } else {
        actions::click_back()
    }
}

fn maximize_sequence() -> (a: Action)
    ensures
        action_view(a) == ActionSpec::Sequence(
            seq![
                ActionSpec::Wait(1000),
                ActionSpec::ClickSelector("tool-bar push-button[name=\"Maximize\"]"@),
                ActionSpec::Wait(500),
            ],
        ),
{
    let mut v: Vec<Action> = Vec::new();
    v.push(actions::wait_long());
    v.push(actions::maximize());
    let ghost two = v@;
    v.push(actions::wait(500));
    proof {
        crate::types::lemma_actions_view_push2(Seq::empty(), v@[0], v@[1]);
        assert(two == Seq::<Action>::empty().push(v@[0]).push(v@[1]));
        crate::types::lemma_actions_view_push(two, v@[2]);
        assert(v@ == two.push(v@[2]));
        assert(crate::types::actions_view(Seq::<Action>::empty()) =~= Seq::<ActionSpec>::empty());
        assert(crate::types::actions_view(v@) =~= seq![
            ActionSpec::Wait(1000),
            ActionSpec::ClickSelector("tool-bar push-button[name=\"Maximize\"]"@),
            ActionSpec::Wait(500),
        ]);
    }
    actions::sequence(v)
}

fn act_exec(a: Action, f: Option<FrameHint>) -> (r: LoginStep)
    ensures
        login_step_view(r) == act(action_view(a), opt_frame_view(f)),
{
    LoginStep::Act(SelectedAction { action: a, frame: f })
}

fn opt_str_eq(a: &Option<String>, b: &String) -> (r: bool)
    ensures
        r == (opt_str_view(*a) == Some(b@)),
{
    match a {
        Some(x) => str_eq(x.as_str(), b.as_str()),
        None => false,
    }
}

fn authenticating_exec(
    state: &AppState,
    params: &LoginParams,
    ps: &mut LoginPlanState,
    identified: &IdentifiedStates,
) -> (r: LoginStep)
    ensures
        (login_state_view(*final(ps)), login_step_view(r)) == authenticating_step(
            *state,
            params.new_account,
            login_state_view(*old(ps)),
            main_frame(*identified),
        ),
{
    match state.main_window.view {
        MainWindowView::LoginQr => {
            if let Some(qr) = &state.main_window.qr_data {
                if !opt_str_eq(&ps.last_emitted_qr, qr) {
                    ps.last_emitted_qr = Some(qr.clone());
                    let fields = one_field("qrData", qr.clone());
                    return act_exec(emit_then_wait_exec("qr", fields, 500), main_frame_of(identified));
                }
            }
            act_exec(actions::wait(500), None)
        },
        MainWindowView::LoginAccount => {
            let a = if params.new_account {
                actions::click_switch_account()
            } else {
                actions::click_login()
            };
            act_exec(a, main_frame_of(identified))
        },
        MainWindowView::LoginPhoneConfirm => {
            if !ps.emitted_phone_confirm {
                ps.emitted_phone_confirm = true;
                let fields = one_field("message", "Please confirm login on your phone".to_owned());
                return act_exec(
                    emit_then_wait_exec("phone_confirm", fields, 500),
                    main_frame_of(identified),
                );
            }
            act_exec(actions::wait(500), None)
        },
        MainWindowView::LoginLoading => act_exec(actions::wait(500), None),
        MainWindowView::Chat | MainWindowView::ChatOpen => {
            ps.phase = LoginPhase::Maximizing;
            act_exec(maximize_sequence(), main_frame_of(identified))
        },
        MainWindowView::NetworkProxySettings => act_exec(
            leave_proxy_page_exec(state),
            main_frame_of(identified),
        ),
    }
}

/// The state after the account was looked for: `account_dir` and
/// `wechat_pid` as found, `needs_keys` whether its keys are still missing.
pub open spec fn detect_outcome(
    ps: LoginStateSpec,
    wechat_pid: Option<i64>,
    account_dir: Option<Seq<char>>,
    needs_keys: bool,
    mf: Option<FrameSpec>,
) -> (LoginStateSpec, SelectedSpec) {
    if wechat_pid is Some && account_dir is Some {
        let acct = account_dir->0;
        let found = LoginStateSpec { account_dir: Some(acct), ..ps };
        if !needs_keys {
            (
                LoginStateSpec { phase: LoginPhase::Done, ..found },
                SelectedSpec {
                    action: emit_then_wait("login_success"@, seq![("userId"@, acct)], 200),
                    frame: mf,
                },
            )
        } else {
            (
                LoginStateSpec { phase: LoginPhase::ExtractingKeys, ..found },
                SelectedSpec {
                    action: emit_then_wait(
                        "status"@,
                        seq![("message"@, "Getting your WeChat messages..."@)],
                        200,
                    ),
                    frame: mf,
                },
            )
        }
    } else {
        let next = LoginStateSpec { detect_retries: ps.detect_retries + 1, ..ps };
        if next.detect_retries >= 10 {
            (
                LoginStateSpec { phase: LoginPhase::Done, ..next },
                SelectedSpec { action: emit_then_wait("login_success"@, Seq::empty(), 200), frame: mf },
            )
        } else {
            (next, SelectedSpec { action: ActionSpec::Wait(2000), frame: None })
        }
    }
}

/// The state after key extraction: done, announcing the account if known.
pub open spec fn extract_outcome(ps: LoginStateSpec, mf: Option<FrameSpec>) -> (LoginStateSpec, SelectedSpec) {
    (
        LoginStateSpec { phase: LoginPhase::Done, ..ps },
        SelectedSpec {
            action: emit_then_wait(
                "login_success"@,
                match ps.account_dir {
                    Some(a) => seq![("userId"@, a)],
                    None => Seq::empty(),
                },
                200,
            ),
            frame: mf,
        },
    )
}

/// Whether the session's data belongs to another account than the one that
/// logged in, and must be cleared.
pub open spec fn must_clear_session(previous: Option<Seq<char>>, acct: Seq<char>) -> bool {
    previous is Some && previous != Some(acct)
}

pub fn should_clear_session(previous: &Option<String>, acct: &str) -> (r: bool)
    ensures
        r == must_clear_session(opt_str_view(*previous), acct@),
{
    match previous {
        Some(p) => !str_eq(p.as_str(), acct),
        None => false,
    }
}

impl LoginPlan {
    pub fn id(&self) -> (r: &'static str)
        ensures
            r@ == "login"@,
    {
        "login"
    }

    pub fn initial_plan_state(&self) -> (s: LoginPlanState)
        ensures
            login_state_view(s) == (LoginStateSpec {
                phase: LoginPhase::Initializing,
                account_dir: None,
                last_emitted_qr: None,
                emitted_phone_confirm: false,
                detect_retries: 0,
            }),
    {
        LoginPlanState {
            phase: LoginPhase::Initializing,
            account_dir: None,
            last_emitted_qr: None,
            emitted_phone_confirm: false,
            detect_retries: 0,
        }
    }

    /// Done once the chat view shows without a popup and the plan finished.
    pub fn is_goal_reached(&self, state: &AppState, plan_state: &LoginPlanState) -> (r: bool)
        ensures
            r == ((state.main_window.view == MainWindowView::Chat || state.main_window.view
                == MainWindowView::ChatOpen) && state.popup is None && plan_state.phase
                == LoginPhase::Done),
    {
        (state.main_window.view == MainWindowView::Chat || state.main_window.view
            == MainWindowView::ChatOpen) && state.popup.is_none() && plan_state.phase
            == LoginPhase::Done
    }

    /// The next step. A shown popup is dismissed first; the login pages are
    /// driven as `authenticating_step` says; account detection and key
    /// extraction are handed to the caller.
    pub fn select_action(
        &self,
        state: &AppState,
        params: &LoginParams,
        identified: &IdentifiedStates,
        plan_state: &mut LoginPlanState,
        a11y: &A11yNode,
        session_id: &str,
    ) -> (r: LoginStep)
        ensures
            (login_state_view(*final(plan_state)), login_step_view(r)) == login_step(
                popup_shown(*state, *identified),
                *state,
                params.new_account,
                *identified,
                login_state_view(*old(plan_state)),
            ),
    {
        if state.popup.is_some() && identified.popup.is_some() {
            return act_exec(actions::dismiss_popup(), main_frame_of(identified));
        }
        match plan_state.phase {
            LoginPhase::Initializing => {
                if state.main_window.view == MainWindowView::NetworkProxySettings {
                    return act_exec(leave_proxy_page_exec(state), main_frame_of(identified));
                }
                plan_state.phase = LoginPhase::Authenticating;
                authenticating_exec(state, params, plan_state, identified)
            },
            LoginPhase::Authenticating => authenticating_exec(state, params, plan_state, identified),
            LoginPhase::Maximizing => {
                plan_state.phase = LoginPhase::DetectingUser;
                act_exec(actions::wait(500), None)
            },
            LoginPhase::DetectingUser => {
                if !(state.main_window.view == MainWindowView::Chat || state.main_window.view
                    == MainWindowView::ChatOpen) {
                    return act_exec(actions::wait(500), None);
                }
                LoginStep::DetectUser
            },
            LoginPhase::ExtractingKeys => LoginStep::ExtractKeys,
            LoginPhase::Done => act_exec(actions::wait_short(), None),
        }
    }

    /// What to do once the account was looked for: announce it and finish
    /// when its keys are stored, else announce the key extraction; when no
    /// account was found, retry up to ten times, then finish anyway.
    pub fn after_detect(
        &self,
        plan_state: &mut LoginPlanState,
        wechat_pid: Option<i64>,
        account_dir: Option<String>,
        needs_keys: bool,
        identified: &IdentifiedStates,
    ) -> (r: SelectedAction)
        requires
            old(plan_state).detect_retries < u32::MAX,
        ensures
            (login_state_view(*final(plan_state)), selected_view(r)) == detect_outcome(
                login_state_view(*old(plan_state)),
                wechat_pid,
                opt_str_view(account_dir),
                needs_keys,
                main_frame(*identified),
            ),
    {
        if wechat_pid.is_some() {
            if let Some(acct) = account_dir {
                plan_state.account_dir = Some(acct.clone());
                if !needs_keys {
                    plan_state.phase = LoginPhase::Done;
                    let fields = one_field("userId", acct);
                    return SelectedAction {
                        action: emit_then_wait_exec("login_success", fields, 200),
                        frame: main_frame_of(identified),
                    };
                }
                plan_state.phase = LoginPhase::ExtractingKeys;
                let fields = one_field("message", "Getting your WeChat messages...".to_owned());
                return SelectedAction {
                    action: emit_then_wait_exec("status", fields, 200),
                    frame: main_frame_of(identified),
                };
            }
        }
        plan_state.detect_retries = plan_state.detect_retries + 1;
        if plan_state.detect_retries >= 10 {
            plan_state.phase = LoginPhase::Done;
            let fields: Vec<(String, String)> = Vec::new();
            assert(crate::types::pairs_view(fields@) =~= Seq::<(Seq<char>, Seq<char>)>::empty());
            return SelectedAction {
                action: emit_then_wait_exec("login_success", fields, 200),
                frame: main_frame_of(identified),
            };
        }
        SelectedAction { action: actions::wait(2000), frame: None }
    }

    /// What to do once key extraction ran (whatever it yielded): finish and
    /// announce the account.
    pub fn after_extract(&self, plan_state: &mut LoginPlanState, identified: &IdentifiedStates) -> (r:
        SelectedAction)
        ensures
            (login_state_view(*final(plan_state)), selected_view(r)) == extract_outcome(
                login_state_view(*old(plan_state)),
                main_frame(*identified),
            ),
    {
        plan_state.phase = LoginPhase::Done;
        let fields = match &plan_state.account_dir {
            Some(a) => one_field("userId", a.clone()),
            None => {
                let v: Vec<(String, String)> = Vec::new();
                assert(crate::types::pairs_view(v@) =~= Seq::<(Seq<char>, Seq<char>)>::empty());
                v
            },
        };
        SelectedAction {
            action: emit_then_wait_exec("login_success", fields, 200),
            frame: main_frame_of(identified),
        }
    }
}

} // verus!
