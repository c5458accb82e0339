//! The accessibility tree, the state model of the WeChat window, and the actions
//! the planner emits.
use vstd::prelude::*;

verus! {

// ============================================
// Accessibility tree
// ============================================

/// A screen rectangle in whole pixels.
#[derive(Clone, Copy, Debug, PartialEq, Eq, Structural)]
pub struct Bounds {
    pub x: i32,
    pub y: i32,
    pub width: i32,
    pub height: i32,
}

/// The toolkit window a node belongs to.
#[derive(Clone, Debug)]
pub struct A11yWindowInfo {
    pub pid: i64,
    pub id: Option<i64>,
    pub attributes: Option<Vec<(String, String)>>,
}

/// One node of the accessibility tree.
#[derive(Debug)]
pub struct A11yNode {
    pub role: String,
    pub name: String,
    pub bounds: Option<Bounds>,
    pub children: Option<Vec<A11yNode>>,
    pub parent_index: Option<usize>,
    pub window: Option<A11yWindowInfo>,
    pub states: Option<Vec<String>>,
}

/// The children of a node, empty when it has none.
pub open spec fn kids(n: A11yNode) -> Seq<A11yNode> {
    match n.children {
        Some(c) => c@,
        None => Seq::empty(),
    }
}

/// Whether the node carries the given state.
pub open spec fn has_state(n: A11yNode, st: Seq<char>) -> bool {
    match n.states {
        Some(v) => exists|i: int| 0 <= i < v@.len() && #[trigger] v@[i]@ == st,
        None => false,
    }
}

/// `x / 2` rounded to the nearest integer, halves away from zero.
pub open spec fn round_half(x: int) -> int {
    if x >= 0 {
        (x + 1) / 2
    } else {
        -((-x + 1) / 2)
    }
}

/// The centre of a rectangle, rounded to whole pixels.
pub open spec fn center_of(b: Bounds) -> (int, int) {
    (round_half(2 * b.x + b.width), round_half(2 * b.y + b.height))
}

// ============================================
// Actions
// ============================================

#[derive(Clone, Copy, Debug, PartialEq, Eq, Structural)]
pub enum ScrollDirection {
    Up,
    Down,
}

/// An event handed to the subscribers of a running plan: its type and its
/// string-valued fields.
#[derive(Debug)]
pub struct SubscriptionEvent {
    pub event_type: String,
    pub data: Vec<(String, String)>,
}

/// One step the executor performs on the desktop.
#[derive(Debug)]
pub enum Action {
    ClickSelector { selector: String },
    ClickCoords { x: i64, y: i64 },
    Type { text: String, selector: Option<String> },
    Key { combo: String },
    Scroll {
        direction: ScrollDirection,
        x: Option<i64>,
        y: Option<i64>,
        amount: Option<i32>,
    },
    Wait { ms: u64 },
    Emit { event: SubscriptionEvent },
    Sequence { actions: Vec<Action> },
}

/// What an action is, with strings as character sequences.
pub enum ActionSpec {
    ClickSelector(Seq<char>),
    ClickCoords(int, int),
    Type(Seq<char>, Option<Seq<char>>),
    Key(Seq<char>),
    Scroll(ScrollDirection, Option<int>, Option<int>, Option<int>),
    Wait(nat),
    Emit(Seq<char>, Seq<(Seq<char>, Seq<char>)>),
    Sequence(Seq<ActionSpec>),
}

pub open spec fn opt_str_view(s: Option<String>) -> Option<Seq<char>> {
    match s {
        Some(v) => Some(v@),
        None => None,
    }
}

pub open spec fn opt_int_view(v: Option<i64>) -> Option<int> {
    match v {
        Some(x) => Some(x as int),
        None => None,
    }
}

pub open spec fn pairs_view(d: Seq<(String, String)>) -> Seq<(Seq<char>, Seq<char>)> {
    d.map_values(|p: (String, String)| (p.0@, p.1@))
}

pub open spec fn action_view(a: Action) -> ActionSpec
    decreases a,
{
    match a {
        Action::ClickSelector { selector } => ActionSpec::ClickSelector(selector@),
        Action::ClickCoords { x, y } => ActionSpec::ClickCoords(x as int, y as int),
        Action::Type { text, selector } => ActionSpec::Type(text@, opt_str_view(selector)),
        Action::Key { combo } => ActionSpec::Key(combo@),
        Action::Scroll { direction, x, y, amount } => ActionSpec::Scroll(
            direction,
            opt_int_view(x),
            opt_int_view(y),
            match amount {
                Some(v) => Some(v as int),
                None => None,
            },
        ),
        Action::Wait { ms } => ActionSpec::Wait(ms as nat),
        Action::Emit { event } => ActionSpec::Emit(event.event_type@, pairs_view(event.data@)),
        Action::Sequence { actions } => ActionSpec::Sequence(actions_view(actions@)),
    }
}

pub open spec fn actions_view(s: Seq<Action>) -> Seq<ActionSpec>
    decreases s,
{
    if s.len() == 0 {
        Seq::empty()
    } else {
        seq![action_view(s[0])] + actions_view(s.subrange(1, s.len() as int))
    }
}

// ============================================
// Window state model
// ============================================

#[derive(Clone, Copy, Debug, PartialEq, Eq, Structural)]
pub enum MainWindowView {
    LoginQr,
    LoginAccount,
    LoginPhoneConfirm,
    LoginLoading,
    NetworkProxySettings,
    Chat,
    ChatOpen,
}

#[derive(Clone, Debug)]
pub struct SearchResult {
    pub name: String,
    pub bounds: Option<Bounds>,
}

#[derive(Clone, Debug)]
pub struct MainWindowState {
    pub view: MainWindowView,
    pub is_logged_in: bool,
    pub qr_data: Option<String>,
    pub qr_binary_data: Option<Vec<u8>>,
    pub account_name: Option<String>,
    pub selected_chat_id: Option<String>,
    pub search_query: Option<String>,
    pub search_results: Option<Vec<SearchResult>>,
    pub opened_chat_name: Option<String>,
    pub opened_chat_is_group: Option<bool>,
    pub selected_chat_bounds: Option<Bounds>,
    pub close_button_bounds: Option<Bounds>,
    pub minimize_button_bounds: Option<Bounds>,
    pub maximize_button_bounds: Option<Bounds>,
    pub more_button_bounds: Option<Bounds>,
    pub settings_menu_item_bounds: Option<Bounds>,
    pub proxy_enabled: Option<bool>,
    pub proxy_save_failed: Option<bool>,
}

#[derive(Clone, Copy, Debug, PartialEq, Eq, Structural)]
pub enum PopupType {
    Error,
    Confirm,
    Info,
}

#[derive(Clone, Debug)]
pub struct PopupState {
    pub popup_type: PopupType,
    pub message: Option<String>,
}

#[derive(Clone, Debug)]
pub struct ContactCardState {
    pub wechat_id: Option<String>,
    pub contact_name: Option<String>,
}

#[derive(Clone, Copy, Debug, PartialEq, Eq, Structural)]
pub struct SettingsState {
    pub logout_button_bounds: Option<Bounds>,
    pub my_account_bounds: Option<Bounds>,
    pub modal_ok_bounds: Option<Bounds>,
    pub modal_cancel_bounds: Option<Bounds>,
}

#[derive(Clone, Debug)]
pub struct AppState {
    pub main_window: MainWindowState,
    pub popup: Option<PopupState>,
    pub contact_card: Option<ContactCardState>,
    pub settings: Option<SettingsState>,
}

impl AppState {
    /// The state before anything was observed: the QR login page, logged out.
    pub fn initial() -> (s: AppState)
        ensures
            s.main_window.view == MainWindowView::LoginQr,
            !s.main_window.is_logged_in,
            s.main_window.qr_data is None,
            s.main_window.settings_menu_item_bounds is None,
            s.main_window.more_button_bounds is None,
            s.popup is None,
            s.contact_card is None,
            s.settings is None,
    {
        AppState {
            main_window: MainWindowState {
                view: MainWindowView::LoginQr,
                is_logged_in: false,
                qr_data: None,
                qr_binary_data: None,
                account_name: None,
                selected_chat_id: None,
                search_query: None,
                search_results: None,
                opened_chat_name: None,
                opened_chat_is_group: None,
                selected_chat_bounds: None,
                close_button_bounds: None,
                minimize_button_bounds: None,
                maximize_button_bounds: None,
                more_button_bounds: None,
                settings_menu_item_bounds: None,
                proxy_enabled: None,
                proxy_save_failed: None,
            },
            popup: None,
            contact_card: None,
            settings: None,
        }
    }
}

// ============================================
// Identified states and frames
// ============================================

/// The window to activate before an action runs.
#[derive(Debug)]
pub struct FrameHint {
    pub name: Option<String>,
    pub bounds: Bounds,
    pub pid: Option<i64>,
}

pub struct FrameSpec {
    pub name: Option<Seq<char>>,
    pub bounds: Bounds,
    pub pid: Option<i64>,
}

pub open spec fn frame_view(f: FrameHint) -> FrameSpec {
    FrameSpec { name: opt_str_view(f.name), bounds: f.bounds, pid: f.pid }
}

pub open spec fn opt_frame_view(f: Option<FrameHint>) -> Option<FrameSpec> {
    match f {
        Some(h) => Some(frame_view(h)),
        None => None,
    }
}

/// A copy of a frame hint.
pub fn clone_frame(f: &FrameHint) -> (r: FrameHint)
    ensures
        frame_view(r) == frame_view(*f),
{
    FrameHint {
        name: match &f.name {
            Some(s) => Some(s.clone()),
            None => None,
        },
        bounds: f.bounds,
        pid: f.pid,
    }
}

/// A copy of an optional frame hint.
pub fn clone_opt_frame(f: &Option<FrameHint>) -> (r: Option<FrameHint>)
    ensures
        opt_frame_view(r) == opt_frame_view(*f),
{
    match f {
        Some(h) => Some(clone_frame(h)),
        None => None,
    }
}

/// A window state the identifier recognised, with the frame it lives in.
#[derive(Debug)]
pub struct IdentifiedState {
    pub state_id: String,
    pub fsm: String,
    pub frame: Option<FrameHint>,
}

#[derive(Debug)]
pub struct IdentifiedStates {
    pub main_window: Option<IdentifiedState>,
    pub popup: Option<IdentifiedState>,
    pub contact_card: Option<IdentifiedState>,
    pub settings: Option<IdentifiedState>,
}

/// The id of the recognised main-window state, if any.
pub open spec fn main_state_id(ids: IdentifiedStates) -> Option<Seq<char>> {
    match ids.main_window {
        Some(m) => Some(m.state_id@),
        None => None,
    }
}

/// The frame of the recognised main window, if any.
pub open spec fn main_frame(ids: IdentifiedStates) -> Option<FrameSpec> {
    match ids.main_window {
        Some(m) => opt_frame_view(m.frame),
        None => None,
    }
}

/// A copy of the main window's frame hint.
pub fn main_frame_of(ids: &IdentifiedStates) -> (r: Option<FrameHint>)
    ensures
        opt_frame_view(r) == main_frame(*ids),
{
    match &ids.main_window {
        Some(m) => clone_opt_frame(&m.frame),
        None => None,
    }
}

/// The main-window state id, as characters.
pub fn main_state_id_of(ids: &IdentifiedStates) -> (r: Option<Vec<char>>)
    ensures
        match r {
            Some(v) => main_state_id(*ids) == Some(v@),
            None => main_state_id(*ids) is None,
        },
{
    match &ids.main_window {
        Some(m) => Some(crate::text::chars_of(m.state_id.as_str())),
        None => None,
    }
}

/// An action together with the window it targets.
#[derive(Debug)]
pub struct SelectedAction {
    pub action: Action,
    pub frame: Option<FrameHint>,
}

pub struct SelectedSpec {
    pub action: ActionSpec,
    pub frame: Option<FrameSpec>,
}

pub open spec fn selected_view(s: SelectedAction) -> SelectedSpec {
    SelectedSpec { action: action_view(s.action), frame: opt_frame_view(s.frame) }
}

pub open spec fn opt_selected_view(s: Option<SelectedAction>) -> Option<SelectedSpec> {
    match s {
        Some(a) => Some(selected_view(a)),
        None => None,
    }
}

#[derive(Clone, Copy, Debug, PartialEq, Eq, Structural)]
pub enum ExecutionStatus {
    Running,
    Succeeded,
    Failed,
    Aborted,
}

} // verus!

verus! {

/// The frame of a recognised state, if any.
pub open spec fn state_frame(s: Option<IdentifiedState>) -> Option<FrameSpec> {
    match s {
        Some(m) => opt_frame_view(m.frame),
        None => None,
    }
}

/// A copy of the frame hint of a recognised state.
pub fn state_frame_of(s: &Option<IdentifiedState>) -> (r: Option<FrameHint>)
    ensures
        opt_frame_view(r) == state_frame(*s),
{
    match s {
        Some(m) => clone_opt_frame(&m.frame),
        None => None,
    }
}

/// A click at the centre of a rectangle.
pub open spec fn click_spec(b: Bounds) -> ActionSpec {
    ActionSpec::ClickCoords(center_of(b).0, center_of(b).1)
}

/// Viewing a pushed list of actions pushes the view.
pub proof fn lemma_actions_view_push(s: Seq<Action>, a: Action)
    ensures
        actions_view(s.push(a)) == actions_view(s).push(action_view(a)),
    decreases s.len(),
{
    if s.len() == 0 {
        assert(s.push(a).subrange(1, 1) =~= Seq::<Action>::empty());
        assert(actions_view(s.push(a).subrange(1, 1)) == Seq::<ActionSpec>::empty());
        assert(s.push(a)[0] == a);
        assert(actions_view(s.push(a)) =~= seq![action_view(a)]);
        assert(actions_view(s).push(action_view(a)) =~= seq![action_view(a)]);
    } else {
        let t = s.subrange(1, s.len() as int);
        assert(s.push(a).subrange(1, s.len() as int + 1) =~= t.push(a));
        lemma_actions_view_push(t, a);
        assert(s.push(a)[0] == s[0]);
        assert(actions_view(s.push(a)) == seq![action_view(s[0])] + actions_view(t).push(
            action_view(a),
        ));
        assert(seq![action_view(s[0])] + actions_view(t).push(action_view(a)) =~= (seq![
            action_view(s[0]),
        ] + actions_view(t)).push(action_view(a)));
    }
}

/// Viewing a list with two actions pushed appends both views.
pub proof fn lemma_actions_view_push2(s: Seq<Action>, a: Action, b: Action)
    ensures
        actions_view(s.push(a).push(b)) == actions_view(s) + seq![action_view(a), action_view(b)],
{
    lemma_actions_view_push(s, a);
    lemma_actions_view_push(s.push(a), b);
    assert(actions_view(s).push(action_view(a)).push(action_view(b)) =~= actions_view(s) + seq![
        action_view(a),
        action_view(b),
    ]);
}

} // verus!

verus! {

// ============================================
// Records served by the API
// ============================================

#[derive(Clone, Debug)]
pub struct Session {
    pub id: String,
    pub name: String,
    pub linux_user: String,
    pub display: String,
    pub dbus_address: Option<String>,
    pub vnc_port: i32,
    pub status: String,
    pub login_state: String,
    pub logged_in_user: Option<String>,
    pub wechat_pid: Option<i64>,
    pub xvfb_pid: Option<i64>,
    pub dbus_pid: Option<i64>,
    pub error_message: Option<String>,
    pub created_at: String,
    pub updated_at: String,
}

#[derive(Clone, Debug)]
pub struct Chat {
    pub id: String,
    pub username: String,
    pub name: String,
    pub remark: Option<String>,
    pub last_message_preview: Option<String>,
    pub last_message_sender: Option<String>,
    pub last_activity_at: Option<String>,
    pub unread_count: i32,
    pub is_group: bool,
    pub last_msg_local_id: Option<i64>,
}

#[derive(Clone, Debug)]
pub struct Contact {
    pub username: String,
    pub nick_name: String,
    pub remark: Option<String>,
    pub alias: Option<String>,
    pub small_head_url: Option<String>,
    /// "individual", "official", "chatroom" or "openim".
    pub contact_type: String,
}

#[derive(Clone, Debug)]
pub struct ReplyInfo {
    pub sender: Option<String>,
    pub content: String,
}

#[derive(Clone, Debug)]
pub struct Message {
    pub local_id: i64,
    pub server_id: i64,
    pub chat_id: String,
    pub sender: Option<String>,
    pub sender_name: Option<String>,
    pub msg_type: i32,
    pub content: String,
    pub timestamp: String,
    pub is_mentioned: Option<bool>,
    pub is_self: Option<bool>,
    pub reply: Option<ReplyInfo>,
}

#[derive(Clone, Debug)]
pub struct SendParams {
    pub chat_id: String,
    pub text: Option<String>,
    pub image: Option<ImageData>,
    pub file: Option<FileData>,
}

#[derive(Clone, Debug)]
pub struct ImageData {
    pub data: String,
    pub mime_type: String,
}

#[derive(Clone, Debug)]
pub struct FileData {
    pub data: String,
    pub filename: String,
}

#[derive(Clone, Debug)]
pub struct SendResult {
    pub success: bool,
    pub error: Option<String>,
}

/// A message's media, or what stands in for it.
#[derive(Clone, Debug)]
pub struct MediaResult {
    pub media_type: String,
    pub data: Option<String>,
    pub url: Option<String>,
    pub format: String,
    pub filename: String,
    /// The image variant served, where one was chosen among several.
    pub quality: Option<String>,
}

#[derive(Clone, Debug)]
pub struct OpenChatResult {
    pub ok: bool,
    pub username: Option<String>,
    pub index: Option<i32>,
    pub error: Option<String>,
}

/// An event a login subscriber receives.
#[derive(Clone, Debug)]
pub enum LoginSubscriptionEvent {
    Status { message: String },
    Qr { qr_data: String, qr_binary_data: Option<Vec<u8>>, qr_data_url: Option<String> },
    PhoneConfirm { message: Option<String> },
    LoginSuccess { user_id: Option<String> },
    LoginTimeout,
    Error { message: String },
}

} // verus!

verus! {

/// Two optional texts are equal: both absent, or both present with the same characters.
pub fn opt_string_eq(a: &Option<String>, b: &Option<String>) -> (r: bool)
    ensures
        r == (opt_str_view(*a) == opt_str_view(*b)),
{
    match (a, b) {
        (Some(x), Some(y)) => crate::text::str_eq(x.as_str(), y.as_str()),
        (None, None) => true,
        _ => false,
    }
}

} // verus!
