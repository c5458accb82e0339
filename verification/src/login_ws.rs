//! The login subscription: how a plan's events become the typed events a
//! client sees, how the socket loop reacts to each thing that happens, and
//! which final event is owed when the plan ends without one.
use vstd::prelude::*;
use crate::text::{chars_of, starts_with, starts_with_spec, str_eq};
use crate::types::{opt_str_view, LoginSubscriptionEvent, SubscriptionEvent};

verus! {

/// A login event as plain values.
pub enum LoginEventSpec {
    Status(Seq<char>),
    Qr(Seq<char>, Option<Seq<u8>>, Option<Seq<char>>),
    PhoneConfirm(Option<Seq<char>>),
    LoginSuccess(Option<Seq<char>>),
    LoginTimeout,
    Error(Seq<char>),
}

pub open spec fn login_event_view(e: LoginSubscriptionEvent) -> LoginEventSpec {
    match e {
        LoginSubscriptionEvent::Status { message } => LoginEventSpec::Status(message@),
        LoginSubscriptionEvent::Qr { qr_data, qr_binary_data, qr_data_url } => LoginEventSpec::Qr(
            qr_data@,
            match qr_binary_data {
                Some(b) => Some(b@),
                None => None,
            },
            opt_str_view(qr_data_url),
        ),
        LoginSubscriptionEvent::PhoneConfirm { message } => LoginEventSpec::PhoneConfirm(
            opt_str_view(message),
        ),
        LoginSubscriptionEvent::LoginSuccess { user_id } => LoginEventSpec::LoginSuccess(
            opt_str_view(user_id),
        ),
        LoginSubscriptionEvent::LoginTimeout => LoginEventSpec::LoginTimeout,
        LoginSubscriptionEvent::Error { message } => LoginEventSpec::Error(message@),
    }
}

/// The events after which the subscription owes the client nothing more.
pub open spec fn terminal_spec(e: LoginEventSpec) -> bool {
    e is LoginSuccess || e is LoginTimeout || e is Error
}

/// Whether an event ends the login subscription: success, timeout or error.
pub fn is_terminal_login_event(event: &LoginSubscriptionEvent) -> (r: bool)
    ensures
        r == terminal_spec(login_event_view(*event)),
{
    match event {
        LoginSubscriptionEvent::LoginSuccess { .. } => true,
        LoginSubscriptionEvent::LoginTimeout => true,
        LoginSubscriptionEvent::Error { .. } => true,
        _ => false,
    }
}

/// The value of the first field of an event's data with the given key.
pub open spec fn field_spec(data: Seq<(Seq<char>, Seq<char>)>, key: Seq<char>) -> Option<Seq<char>>
    decreases data.len(),
{
    if data.len() == 0 {
        None
    } else if data[0].0 == key {
        Some(data[0].1)
    } else {
        field_spec(data.drop_first(), key)
    }
}

/// The value an event's data holds under a key, when it holds one.
pub fn event_field(event: &SubscriptionEvent, key: &str) -> (r: Option<String>)
    ensures
        opt_str_view(r) == field_spec(crate::types::pairs_view(event.data@), key@),
{
    let ghost d = crate::types::pairs_view(event.data@);
    let mut i: usize = 0;
    assert(d.skip(0) == d);
    while i < event.data.len()
        invariant
            i <= event.data.len(),
            d == crate::types::pairs_view(event.data@),
            field_spec(d, key@) == field_spec(d.skip(i as int), key@),
        decreases event.data.len() - i,
    {
        assert(d.skip(i as int).drop_first() == d.skip(i + 1));
        assert(d.skip(i as int)[0] == d[i as int]);
        if str_eq(event.data[i].0.as_str(), key) {
            return Some(event.data[i].1.clone());
        }
        i += 1;
    }
    None
}

pub open spec fn or_text(v: Option<Seq<char>>, d: Seq<char>) -> Seq<char> {
    match v {
        Some(s) => s,
        None => d,
    }
}

/// How a plan's event is shown to a login subscriber. A QR event carries the
/// data URL the caller made of its `qrData`.
pub open spec fn to_login_event_spec(
    kind: Seq<char>,
    data: Seq<(Seq<char>, Seq<char>)>,
    qr_data_url: Option<Seq<char>>,
) -> LoginEventSpec {
    if kind == "status"@ {
        LoginEventSpec::Status(or_text(field_spec(data, "message"@), ""@))
    } else if kind == "qr"@ {
        LoginEventSpec::Qr(or_text(field_spec(data, "qrData"@), ""@), None, qr_data_url)
    } else if kind == "phone_confirm"@ {
        LoginEventSpec::PhoneConfirm(field_spec(data, "message"@))
    } else if kind == "login_success"@ {
        LoginEventSpec::LoginSuccess(field_spec(data, "userId"@))
    } else if kind == "login_timeout"@ {
        LoginEventSpec::LoginTimeout
    } else if kind == "error"@ {
        LoginEventSpec::Error(or_text(field_spec(data, "message"@), "Unknown error"@))
    } else {
        LoginEventSpec::Status("Unknown event: "@ + kind)
    }
}

fn text_or(v: Option<String>, d: &str) -> (r: String)
    ensures
        r@ == or_text(opt_str_view(v), d@),
{
    match v {
        Some(s) => s,
        None => String::from_str(d),
    }
}

/// Converts a plan's event into the typed event sent over the login socket.
pub fn subscription_event_to_login_event(event: SubscriptionEvent, qr_data_url: Option<String>) -> (r:
    LoginSubscriptionEvent)
    ensures
        login_event_view(r) == to_login_event_spec(
            event.event_type@,
            crate::types::pairs_view(event.data@),
            opt_str_view(qr_data_url),
        ),
{
    let kind = event.event_type.as_str();
    if str_eq(kind, "status") {
        LoginSubscriptionEvent::Status { message: text_or(event_field(&event, "message"), "") }
    } else if str_eq(kind, "qr") {
        LoginSubscriptionEvent::Qr {
            qr_data: text_or(event_field(&event, "qrData"), ""),
            qr_binary_data: None,
            qr_data_url,
        }
    } else if str_eq(kind, "phone_confirm") {
        LoginSubscriptionEvent::PhoneConfirm { message: event_field(&event, "message") }
    } else if str_eq(kind, "login_success") {
        LoginSubscriptionEvent::LoginSuccess { user_id: event_field(&event, "userId") }
    } else if str_eq(kind, "login_timeout") {
        LoginSubscriptionEvent::LoginTimeout
    } else if str_eq(kind, "error") {
        LoginSubscriptionEvent::Error {
            message: text_or(event_field(&event, "message"), "Unknown error"),
        }
    } else {
        let mut m = String::from_str("Unknown event: ");
        let k = chars_of(kind);
        let mut i: usize = 0;
        proof {
            reveal_strlit("Unknown event: ");
        }
        while i < k.len()
            invariant
                i <= k.len(),
                k@ == event.event_type@,
                m@ == "Unknown event: "@ + k@.take(i as int),
            decreases k.len() - i,
        {
            m.push(k[i]);
            i += 1;
            assert(k@.take(i as int) == k@.take(i - 1).push(k@[i - 1]));
        }
        assert(k@.take(k.len() as int) == k@);
        LoginSubscriptionEvent::Status { message: m }
    }
}

/// What the socket loop has seen so far.
#[derive(Clone, Copy, Debug, PartialEq, Eq, Structural)]
pub struct LoginWsState {
    /// A terminal event went to the client, or the server timed out.
    pub sent_terminal: bool,
    pub client_disconnected: bool,
    pub server_timeout: bool,
}

/// The loop's state before anything happened.
pub fn login_ws_start() -> (s: LoginWsState)
    ensures
        !s.sent_terminal && !s.client_disconnected && !s.server_timeout,
{
    LoginWsState { sent_terminal: false, client_disconnected: false, server_timeout: false }
}

/// Something the socket loop waited for.
pub enum LoginWsEvent {
    /// The plan emitted an event, already converted.
    Plan(LoginSubscriptionEvent),
    /// The plan's event channel closed: the plan finished.
    PlanFinished,
    /// The subscription's time ran out.
    Timeout,
    /// The client sent a message.
    ClientMessage,
    /// The client closed the socket or it failed.
    ClientGone,
    /// Sending the last event to the client failed.
    SendFailed,
}

/// What the loop does next.
pub enum LoginWsAction {
    /// Send the event and keep waiting.
    Send(LoginSubscriptionEvent),
    /// Keep waiting.
    Wait,
    /// Cancel the plan when asked, and leave the loop.
    Stop { cancel: bool },
    /// Cancel the plan, send the event and leave the loop.
    CancelSendStop(LoginSubscriptionEvent),
}

/// The loop's reaction, as plain values.
pub enum LoginWsActionSpec {
    Send(LoginEventSpec),
    Wait,
    Stop(bool),
    CancelSendStop(LoginEventSpec),
}

pub open spec fn ws_action_view(a: LoginWsAction) -> LoginWsActionSpec {
    match a {
        LoginWsAction::Send(e) => LoginWsActionSpec::Send(login_event_view(e)),
        LoginWsAction::Wait => LoginWsActionSpec::Wait,
        LoginWsAction::Stop { cancel } => LoginWsActionSpec::Stop(cancel),
        LoginWsAction::CancelSendStop(e) => LoginWsActionSpec::CancelSendStop(login_event_view(e)),
    }
}

/// The loop's next state and reaction to one thing that happened.
pub open spec fn login_ws_next(s: LoginWsState, e: LoginWsEvent) -> (LoginWsState, LoginWsActionSpec) {
    match e {
        LoginWsEvent::Plan(ev) => (
            LoginWsState {
                sent_terminal: s.sent_terminal || terminal_spec(login_event_view(ev)),
                ..s
            },
            LoginWsActionSpec::Send(login_event_view(ev)),
        ),
        LoginWsEvent::PlanFinished => (s, LoginWsActionSpec::Stop(false)),
        LoginWsEvent::Timeout => (
            LoginWsState { sent_terminal: true, server_timeout: true, ..s },
            LoginWsActionSpec::CancelSendStop(LoginEventSpec::LoginTimeout),
        ),
        LoginWsEvent::ClientMessage => (s, LoginWsActionSpec::Wait),
        LoginWsEvent::ClientGone => (
            LoginWsState { client_disconnected: true, ..s },
            LoginWsActionSpec::Stop(true),
        ),
        LoginWsEvent::SendFailed => (
            LoginWsState { client_disconnected: true, ..s },
            LoginWsActionSpec::Stop(true),
        ),
    }
}

/// One turn of the login socket loop.
pub fn login_ws_step(s: LoginWsState, e: LoginWsEvent) -> (r: (LoginWsState, LoginWsAction))
    ensures
        (r.0, ws_action_view(r.1)) == login_ws_next(s, e),
{
    match e {
        LoginWsEvent::Plan(ev) => {
            let t = is_terminal_login_event(&ev);
            (LoginWsState { sent_terminal: s.sent_terminal || t, ..s }, LoginWsAction::Send(ev))
        },
        LoginWsEvent::PlanFinished => (s, LoginWsAction::Stop { cancel: false }),
        LoginWsEvent::Timeout => (
            LoginWsState { sent_terminal: true, server_timeout: true, ..s },
            LoginWsAction::CancelSendStop(LoginSubscriptionEvent::LoginTimeout),
        ),
        LoginWsEvent::ClientMessage => (s, LoginWsAction::Wait),
        LoginWsEvent::ClientGone => (
            LoginWsState { client_disconnected: true, ..s },
            LoginWsAction::Stop { cancel: true },
        ),
        LoginWsEvent::SendFailed => (
            LoginWsState { client_disconnected: true, ..s },
            LoginWsAction::Stop { cancel: true },
        ),
    }
}

/// A terminal event once sent stays sent, and a client once gone stays gone.
pub proof fn lemma_login_ws_monotone(s: LoginWsState, e: LoginWsEvent)
    ensures
        s.sent_terminal ==> login_ws_next(s, e).0.sent_terminal,
        s.client_disconnected ==> login_ws_next(s, e).0.client_disconnected,
        s.server_timeout ==> login_ws_next(s, e).0.server_timeout,
{
}

/// How the plan's run ended, as the socket loop learns it.
pub enum PlanOutcome {
    /// The plan's task did not return.
    Lost,
    /// The plan returned, successfully or with its error.
    Finished { success: bool, error: Option<String> },
}

/// A plan error that means the flow ran out of time.
pub open spec fn timeout_like(message: Seq<char>, server_timeout: bool) -> bool {
    starts_with_spec(message, "Unknown state for"@) || starts_with_spec(
        message,
        "Execution timeout after"@,
    ) || (server_timeout && message == "Aborted"@)
}

/// The final event owed to a client that is still there and has had none:
/// success, a timeout for errors that mean one, else the plan's error.
pub open spec fn fallback_spec(s: LoginWsState, outcome: PlanOutcome) -> Option<LoginEventSpec> {
    if s.client_disconnected || s.sent_terminal {
        None
    } else {
        match outcome {
            PlanOutcome::Lost => Some(LoginEventSpec::Error("Login execution task failed"@)),
            PlanOutcome::Finished { success, error } => if success {
                Some(LoginEventSpec::LoginSuccess(None))
            } else {
                let m = or_text(opt_str_view(error), "Login failed"@);
                if timeout_like(m, s.server_timeout) {
                    Some(LoginEventSpec::LoginTimeout)
                } else {
                    Some(LoginEventSpec::Error(m))
                }
            },
        }
    }
}

fn text_starts(m: &String, p: &str) -> (r: bool)
    ensures
        r == starts_with_spec(m@, p@),
{
    let a = chars_of(m.as_str());
    let b = chars_of(p);
    starts_with(a.as_slice(), b.as_slice())
}

/// The event sent after the loop, when the client is owed one.
pub fn fallback_event(s: LoginWsState, outcome: PlanOutcome) -> (r: Option<LoginSubscriptionEvent>)
    ensures
        match r {
            Some(e) => fallback_spec(s, outcome) == Some(login_event_view(e)),
            None => fallback_spec(s, outcome) is None,
        },
{
    if s.client_disconnected || s.sent_terminal {
        return None;
    }
    match outcome {
        PlanOutcome::Lost => Some(
            LoginSubscriptionEvent::Error {
                message: String::from_str("Login execution task failed"),
            },
        ),
        PlanOutcome::Finished { success, error } => {
            if success {
                return Some(LoginSubscriptionEvent::LoginSuccess { user_id: None });
            }
            let m = text_or(error, "Login failed");
            if text_starts(&m, "Unknown state for") || text_starts(&m, "Execution timeout after") || (
            s.server_timeout && str_eq(m.as_str(), "Aborted")) {
                Some(LoginSubscriptionEvent::LoginTimeout)
            } else {
                Some(LoginSubscriptionEvent::Error { message: m })
            }
        },
    }
}

/// After the server's own timeout the client is never sent a second final
/// event: the timeout already counted as one.
pub proof fn lemma_timeout_owes_no_fallback(s: LoginWsState, outcome: PlanOutcome)
    ensures
        fallback_spec(login_ws_next(s, LoginWsEvent::Timeout).0, outcome) is None,
{
}

/// The options of a login subscription.
pub struct LoginWsParams {
    pub timeout_ms: u64,
    pub new_account: bool,
}

/// The default time a login subscription waits, in milliseconds.
pub fn default_timeout() -> (r: u64)
    ensures
        r == 300000,
{
    300000
}

} // verus!
