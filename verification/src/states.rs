//! The screens the client can show, recognised from the accessibility tree,
//! and what each adds to the observed application state: the login screens,
//! the settings window and the contact card.
use vstd::prelude::*;
use crate::helpers::{find_frame_for, frame_for, frame_hint_from_node, frame_of};
use crate::selectors::{query_selector, query_selector_spec};
use crate::text::{chars_of, replace_spec, starts_with_spec, trim_spec};
use crate::types::{
    has_state, opt_frame_view, AppState, Bounds, ContactCardState, FrameHint, FrameSpec,
    MainWindowState, MainWindowView, SettingsState,
};

verus! {

/// Whether a screen was recognised, and the frame it was found in.
pub struct IdentifyResult {
    pub identified: bool,
    pub frame: Option<FrameHint>,
}

pub open spec fn found(a11y: crate::types::A11yNode, sel: Seq<char>) -> bool {
    query_selector_spec(a11y, sel) is Some
}

fn present(a11y: &crate::types::A11yNode, sel: &str) -> (r: bool)
    ensures
        r == found(*a11y, sel@),
{
    query_selector(a11y, sel).is_some()
}

fn not_found() -> (r: IdentifyResult)
    ensures
        !r.identified && r.frame is None,
{
    IdentifyResult { identified: false, frame: None }
}

fn bounds_of(a11y: &crate::types::A11yNode, sel: &str) -> (r: Option<Bounds>)
    ensures
        r == match query_selector_spec(*a11y, sel@) {
            Some(n) => n.bounds,
            None => None,
        },
{
    match query_selector(a11y, sel) {
        Some(n) => n.bounds,
        None => None,
    }
}

// ============================================
// Settings
// ============================================

/// The Settings window.
pub open spec fn settings_frame(a11y: crate::types::A11yNode) -> Option<crate::types::A11yNode> {
    query_selector_spec(a11y, "frame[name=\"Settings\"]"@)
}

/// Whether the Settings window shows a confirmation (OK and Cancel).
pub open spec fn has_modal(frame: crate::types::A11yNode) -> (bool, bool) {
    (found(frame, "push-button[name=\"OK\"]"@), found(frame, "push-button[name=\"Cancel\"]"@))
}

/// The Settings window with a confirmation dialog: both OK and Cancel.
pub fn settings_modal_identify(a11y: &crate::types::A11yNode) -> (r: IdentifyResult)
    ensures
        match settings_frame(*a11y) {
            None => !r.identified && r.frame is None,
            Some(f) => r.identified == (has_modal(f).0 && has_modal(f).1) && opt_frame_view(r.frame)
                == frame_of(f),
        },
{
    match query_selector(a11y, "frame[name=\"Settings\"]") {
        None => not_found(),
        Some(frame) => {
            let ok = present(frame, "push-button[name=\"OK\"]");
            let cancel = present(frame, "push-button[name=\"Cancel\"]");
            IdentifyResult { identified: ok && cancel, frame: frame_hint_from_node(frame) }
        },
    }
}

/// The Settings window without a confirmation: neither OK nor Cancel.
pub fn settings_identify(a11y: &crate::types::A11yNode) -> (r: IdentifyResult)
    ensures
        match settings_frame(*a11y) {
            None => !r.identified && r.frame is None,
            Some(f) => r.identified == (!has_modal(f).0 && !has_modal(f).1) && opt_frame_view(r.frame)
                == frame_of(f),
        },
{
    match query_selector(a11y, "frame[name=\"Settings\"]") {
        None => not_found(),
        Some(frame) => {
            let ok = present(frame, "push-button[name=\"OK\"]");
            let cancel = present(frame, "push-button[name=\"Cancel\"]");
            IdentifyResult { identified: !ok && !cancel, frame: frame_hint_from_node(frame) }
        },
    }
}

pub open spec fn selected_bounds(frame: crate::types::A11yNode, sel: Seq<char>) -> Option<Bounds> {
    match query_selector_spec(frame, sel) {
        Some(n) => n.bounds,
        None => None,
    }
}

/// What the Settings window adds to the state: its buttons' bounds, the
/// confirmation's only when `with_modal`. Without the window nothing changes.
pub open spec fn settings_reduce_spec(prev: AppState, a11y: crate::types::A11yNode, with_modal: bool) -> AppState {
    match settings_frame(a11y) {
        None => prev,
        Some(f) => AppState {
            settings: Some(
                SettingsState {
                    logout_button_bounds: selected_bounds(f, "push-button[name=\"Log Out\"]"@),
                    my_account_bounds: selected_bounds(f, "push-button[name=\"My Account\"]"@),
                    modal_ok_bounds: if with_modal {
                        selected_bounds(f, "push-button[name=\"OK\"]"@)
                    } else {
                        None
                    },
                    modal_cancel_bounds: if with_modal {
                        selected_bounds(f, "push-button[name=\"Cancel\"]"@)
                    } else {
                        None
                    },
                },
            ),
            ..prev
        },
    }
}

/// Records the Settings window's buttons; `with_modal` for the confirmation screen.
pub fn settings_reduce(prev: AppState, a11y: &crate::types::A11yNode, with_modal: bool) -> (r: AppState)
    ensures
        r == settings_reduce_spec(prev, *a11y, with_modal),
{
    let mut state = prev;
    if let Some(frame) = query_selector(a11y, "frame[name=\"Settings\"]") {
        let ok = if with_modal {
            bounds_of(frame, "push-button[name=\"OK\"]")
        } else {
            None
        };
        let cancel = if with_modal {
            bounds_of(frame, "push-button[name=\"Cancel\"]")
        } else {
            None
        };
        state.settings = Some(
            SettingsState {
                logout_button_bounds: bounds_of(frame, "push-button[name=\"Log Out\"]"),
                my_account_bounds: bounds_of(frame, "push-button[name=\"My Account\"]"),
                modal_ok_bounds: ok,
                modal_cancel_bounds: cancel,
            },
        );
    }
    state
}

// ============================================
// Contact card
// ============================================

/// A contact card shows its WeChat ID label.
pub fn contact_card_identify(a11y: &crate::types::A11yNode) -> (r: IdentifyResult)
    ensures
        r.identified == found(*a11y, "label[name=/^(WeChat ID:|微信号:)$/]"@),
        r.frame is None,
{
    IdentifyResult { identified: present(a11y, "label[name=/^(WeChat ID:|微信号:)$/]"), frame: None }
}

/// What a contact card adds: its contact's name (the WeChat ID is not read).
pub open spec fn contact_card_reduce_spec(prev: AppState, a11y: crate::types::A11yNode) -> (AppState, Option<Seq<char>>) {
    (prev, match query_selector_spec(a11y, "filler filler filler filler filler label"@) {
        Some(n) => Some(n.name@),
        None => None,
    })
}

/// Records the contact card: no WeChat ID, the name from the card's label.
pub fn contact_card_reduce(prev: AppState, a11y: &crate::types::A11yNode) -> (r: AppState)
    ensures
        r.main_window == prev.main_window,
        r.popup == prev.popup,
        r.settings == prev.settings,
        match r.contact_card {
            Some(c) => c.wechat_id is None && crate::types::opt_str_view(c.contact_name)
                == contact_card_reduce_spec(prev, *a11y).1,
            None => false,
        },
{
    let name = match query_selector(a11y, "filler filler filler filler filler label") {
        Some(n) => Some(n.name.clone()),
        None => None,
    };
    let mut state = prev;
    state.contact_card = Some(ContactCardState { wechat_id: None, contact_name: name });
    state
}

// ============================================
// Login screens
// ============================================

/// The QR login screen: the scan label, the transfer-only button, and a
/// screenshot QR code (decoded by the caller) that is a WeChat login link.
pub open spec fn login_qr_spec(a11y: crate::types::A11yNode, qr: Option<Seq<char>>) -> bool {
    found(a11y, "label[name*=\"Scan to log in\"]"@) && found(
        a11y,
        "push-button[name*=\"Transfer files only\"]"@,
    ) && match qr {
        Some(q) => starts_with_spec(q, "http://weixin.qq.com/x/"@),
        None => false,
    }
}

/// Recognises the QR login screen; `qr` is the text of the QR code in the screenshot.
pub fn login_qr_identify(a11y: &crate::types::A11yNode, qr: Option<&str>) -> (r: IdentifyResult)
    ensures
        r.identified == login_qr_spec(
            *a11y,
            match qr {
                Some(q) => Some(q@),
                None => None,
            },
        ),
        r.identified ==> opt_frame_view(r.frame) == frame_for(*a11y, "label[name*=\"Scan to log in\"]"@),
        !r.identified ==> r.frame is None,
{
    if !present(a11y, "label[name*=\"Scan to log in\"]") {
        return not_found();
    }
    if !present(a11y, "push-button[name*=\"Transfer files only\"]") {
        return not_found();
    }
    let ok = match qr {
        Some(q) => crate::text::starts_with(
            chars_of(q).as_slice(),
            chars_of("http://weixin.qq.com/x/").as_slice(),
        ),
        None => false,
    };
    if !ok {
        return not_found();
    }
    IdentifyResult {
        identified: true,
        frame: find_frame_for(a11y, "label[name*=\"Scan to log in\"]"),
    }
}

/// The window buttons of a login screen.
pub struct WindowButtons {
    pub close: Option<Bounds>,
    pub minimize: Option<Bounds>,
    pub maximize: Option<Bounds>,
}

/// Records the QR login screen: logged out, the QR code's text and bytes when
/// one was decoded, and the window buttons.
pub fn login_qr_reduce(prev: AppState, qr: Option<(String, Vec<u8>)>, buttons: WindowButtons) -> (r:
    AppState)
    ensures
        r.main_window.view == MainWindowView::LoginQr,
        !r.main_window.is_logged_in,
        match qr {
            Some((t, b)) => r.main_window.qr_data == Some(t) && r.main_window.qr_binary_data == Some(b),
            None => r.main_window.qr_data == prev.main_window.qr_data
                && r.main_window.qr_binary_data == prev.main_window.qr_binary_data,
        },
        r.main_window.close_button_bounds == buttons.close,
        r.main_window.minimize_button_bounds == buttons.minimize,
        r.main_window.maximize_button_bounds == buttons.maximize,
        r.main_window.account_name == prev.main_window.account_name,
        r.popup == prev.popup,
        r.settings == prev.settings,
{
    let mut state = prev;
    state.main_window.view = MainWindowView::LoginQr;
    state.main_window.is_logged_in = false;
    if let Some((t, b)) = qr {
        state.main_window.qr_data = Some(t);
        state.main_window.qr_binary_data = Some(b);
    }
    state.main_window.close_button_bounds = buttons.close;
    state.main_window.minimize_button_bounds = buttons.minimize;
    state.main_window.maximize_button_bounds = buttons.maximize;
    state
}

/// The saved-account screen: a Log In (or Open WeChat) button and Switch Account.
pub open spec fn login_account_spec(a11y: crate::types::A11yNode) -> bool {
    (found(a11y, "push-button[name=\"Log In\"]"@) || found(a11y, "push-button[name=\"Open WeChat\"]"@))
        && found(a11y, "push-button[name=\"Switch Account\"]"@)
}

/// Recognises the saved-account login screen.
pub fn login_account_identify(a11y: &crate::types::A11yNode) -> (r: IdentifyResult)
    ensures
        r.identified == login_account_spec(*a11y),
        r.identified ==> opt_frame_view(r.frame) == frame_for(
            *a11y,
            "push-button[name=\"Switch Account\"]"@,
        ),
        !r.identified ==> r.frame is None,
{
    let log_in = present(a11y, "push-button[name=\"Log In\"]") || present(
        a11y,
        "push-button[name=\"Open WeChat\"]",
    );
    if !log_in {
        return not_found();
    }
    if !present(a11y, "push-button[name=\"Switch Account\"]") {
        return not_found();
    }
    IdentifyResult {
        identified: true,
        frame: find_frame_for(a11y, "push-button[name=\"Switch Account\"]"),
    }
}

/// The account shown on the saved-account screen: the label's name without
/// "Current User", trimmed, when anything is left.
pub open spec fn account_name_spec(a11y: crate::types::A11yNode) -> Option<Seq<char>> {
    match query_selector_spec(a11y, "label[name*=\"Current User\"]"@) {
        Some(n) => {
            let t = trim_spec(replace_spec(n.name@, "Current User"@, Seq::empty()));
            if t.len() > 0 {
                Some(t)
            } else {
                None
            }
        },
        None => None,
    }
}

/// Records the saved-account screen: logged out, and the account's name.
pub fn login_account_reduce(prev: AppState, a11y: &crate::types::A11yNode) -> (r: AppState)
    ensures
        r.main_window.view == MainWindowView::LoginAccount,
        !r.main_window.is_logged_in,
        crate::types::opt_str_view(r.main_window.account_name) == account_name_spec(*a11y),
        r.main_window.qr_data == prev.main_window.qr_data,
        r.popup == prev.popup,
        r.settings == prev.settings,
{
    let name = match query_selector(a11y, "label[name*=\"Current User\"]") {
        Some(n) => {
            let cs = chars_of(n.name.as_str());
            let pat = chars_of("Current User");
            let empty: Vec<char> = Vec::new();
            proof {
                assert(empty@ == Seq::<char>::empty());
                reveal_strlit("Current User");
            }
            let replaced = crate::text::replace_all(cs.as_slice(), pat.as_slice(), empty.as_slice());
            let t = crate::text::trim(replaced.as_slice());
            if t.len() > 0 {
                Some(crate::text::string_of(t.as_slice()))
            } else {
                None
            }
        },
        None => None,
    };
    let mut state = prev;
    state.main_window.view = MainWindowView::LoginAccount;
    state.main_window.is_logged_in = false;
    state.main_window.account_name = name;
    state
}

/// The phone-confirmation screen's label.
pub open spec fn phone_confirm_sel() -> Seq<char> {
    "label[name=/Comfirm on phone|Confirm.*phone|手机确认/i]"@
}

/// Recognises the screen asking to confirm the login on the phone.
pub fn login_phone_confirm_identify(a11y: &crate::types::A11yNode) -> (r: IdentifyResult)
    ensures
        r.identified == found(*a11y, phone_confirm_sel()),
        r.identified ==> opt_frame_view(r.frame) == frame_for(*a11y, phone_confirm_sel()),
        !r.identified ==> r.frame is None,
{
    let sel = "label[name=/Comfirm on phone|Confirm.*phone|手机确认/i]";
    if present(a11y, sel) {
        IdentifyResult { identified: true, frame: find_frame_for(a11y, sel) }
    } else {
        not_found()
    }
}

/// The loading screen: an "Entering" or "Loading" label, or the navigation
/// buttons without the chat list yet. The frame is that of the first sign found.
pub open spec fn login_loading_spec(a11y: crate::types::A11yNode) -> Option<Option<FrameSpec>> {
    if found(a11y, "label[name=\"Entering\"]"@) {
        Some(frame_for(a11y, "label[name=\"Entering\"]"@))
    } else if found(a11y, "label[name*=\"Loading\"]"@) {
        Some(frame_for(a11y, "label[name*=\"Loading\"]"@))
    } else if (found(a11y, "push-button[name=\"Weixin\"]"@) || found(a11y, "push-button[name=\"WeChat\"]"@))
        && found(a11y, "push-button[name=\"Contacts\"]"@) && !found(a11y, "list[name=\"Chats\"]"@) {
        Some(frame_for(a11y, "push-button[name=\"Contacts\"]"@))
    } else {
        None
    }
}

/// Recognises the screen shown while logging in.
pub fn login_loading_identify(a11y: &crate::types::A11yNode) -> (r: IdentifyResult)
    ensures
        match login_loading_spec(*a11y) {
            Some(f) => r.identified && opt_frame_view(r.frame) == f,
            None => !r.identified && r.frame is None,
        },
{
    if present(a11y, "label[name=\"Entering\"]") {
        return IdentifyResult { identified: true, frame: find_frame_for(a11y, "label[name=\"Entering\"]") };
    }
    if present(a11y, "label[name*=\"Loading\"]") {
        return IdentifyResult {
            identified: true,
            frame: find_frame_for(a11y, "label[name*=\"Loading\"]"),
        };
    }
    let main_btn = present(a11y, "push-button[name=\"Weixin\"]") || present(
        a11y,
        "push-button[name=\"WeChat\"]",
    );
    let contacts = present(a11y, "push-button[name=\"Contacts\"]");
    let chats = present(a11y, "list[name=\"Chats\"]");
    if main_btn && contacts && !chats {
        return IdentifyResult {
            identified: true,
            frame: find_frame_for(a11y, "push-button[name=\"Contacts\"]"),
        };
    }
    not_found()
}

/// Records a login screen with nothing more to read: its view, and logged out.
pub fn login_view_reduce(prev: AppState, view: MainWindowView) -> (r: AppState)
    requires
        view == MainWindowView::LoginPhoneConfirm || view == MainWindowView::LoginLoading,
    ensures
        r == (AppState {
            main_window: MainWindowState { view, is_logged_in: false, ..prev.main_window },
            ..prev
        }),
{
    let mut state = prev;
    state.main_window.view = view;
    state.main_window.is_logged_in = false;
    state
}

/// The network proxy settings page: its title and the proxy checkbox.
pub open spec fn proxy_page_spec(a11y: crate::types::A11yNode) -> bool {
    found(a11y, "label[name=\"Network proxy settings\"]"@) && found(a11y, "check-box[name=\"Use proxy\"]"@)
}

/// Recognises the network proxy settings page.
pub fn network_proxy_identify(a11y: &crate::types::A11yNode) -> (r: IdentifyResult)
    ensures
        r.identified == proxy_page_spec(*a11y),
        r.identified ==> opt_frame_view(r.frame) == frame_for(
            *a11y,
            "label[name=\"Network proxy settings\"]"@,
        ),
        !r.identified ==> r.frame is None,
{
    let title = present(a11y, "label[name=\"Network proxy settings\"]");
    let checkbox = present(a11y, "check-box[name=\"Use proxy\"]");
    if title && checkbox {
        IdentifyResult {
            identified: true,
            frame: find_frame_for(a11y, "label[name=\"Network proxy settings\"]"),
        }
    } else {
        not_found()
    }
}

/// Whether the proxy checkbox is checked.
pub open spec fn proxy_checked(a11y: crate::types::A11yNode) -> bool {
    match query_selector_spec(a11y, "check-box[name=\"Use proxy\"]"@) {
        Some(n) => has_state(n, "CHECKED"@),
        None => false,
    }
}

/// Records the proxy page: whether the proxy is on, and whether saving failed
/// (a "Discard changes?" prompt).
pub fn network_proxy_reduce(prev: AppState, a11y: &crate::types::A11yNode) -> (r: AppState)
    ensures
        r == (AppState {
            main_window: MainWindowState {
                view: MainWindowView::NetworkProxySettings,
                proxy_enabled: Some(proxy_checked(*a11y)),
                proxy_save_failed: Some(found(*a11y, "label[name=\"Discard changes?\"]"@)),
                ..prev.main_window
            },
            ..prev
        }),
{
    let checked = match query_selector(a11y, "check-box[name=\"Use proxy\"]") {
        Some(n) => crate::helpers::node_has_state(n, "CHECKED"),
        None => false,
    };
    let discard = present(a11y, "label[name=\"Discard changes?\"]");
    let mut state = prev;
    state.main_window.view = MainWindowView::NetworkProxySettings;
    state.main_window.proxy_enabled = Some(checked);
    state.main_window.proxy_save_failed = Some(discard);
    state
}

/// The login-phase screens, tried in this order; the first recognised wins.
pub open spec fn login_state_order() -> Seq<Seq<char>> {
    seq![
        "network_proxy_settings"@,
        "login_qr"@,
        "login_account"@,
        "login_phone_confirm"@,
        "login_loading"@,
    ]
}

/// The first login-phase screen recognised, with its frame.
pub fn identify_login_state(a11y: &crate::types::A11yNode, qr: Option<&str>) -> (r: Option<(&'static str, Option<FrameHint>)>)
    ensures
        match r {
            Some((id, _)) => login_state_order().contains(id@),
            None => !proxy_page_spec(*a11y) && !login_qr_spec(
                *a11y,
                match qr {
                    Some(q) => Some(q@),
                    None => None,
                },
            ) && !login_account_spec(*a11y) && !found(*a11y, phone_confirm_sel())
                && login_loading_spec(*a11y) is None,
        },
        match r {
            Some((id, _)) => (id@ == "network_proxy_settings"@ <==> proxy_page_spec(*a11y)),
            None => true,
        },
{
    let p = network_proxy_identify(a11y);
    if p.identified {
        proof {
            assert(login_state_order()[0] == "network_proxy_settings"@);
        }
        return Some(("network_proxy_settings", p.frame));
    }
    let q = login_qr_identify(a11y, qr);
    if q.identified {
        proof {
            assert(login_state_order()[1] == "login_qr"@);
            reveal_strlit("login_qr");
            reveal_strlit("network_proxy_settings");
        }
        return Some(("login_qr", q.frame));
    }
    let a = login_account_identify(a11y);
    if a.identified {
        proof {
            assert(login_state_order()[2] == "login_account"@);
            reveal_strlit("login_account");
            reveal_strlit("network_proxy_settings");
        }
        return Some(("login_account", a.frame));
    }
    let c = login_phone_confirm_identify(a11y);
    if c.identified {
        proof {
            assert(login_state_order()[3] == "login_phone_confirm"@);
            reveal_strlit("login_phone_confirm");
            reveal_strlit("network_proxy_settings");
        }
        return Some(("login_phone_confirm", c.frame));
    }
    let l = login_loading_identify(a11y);
    if l.identified {
        proof {
            assert(login_state_order()[4] == "login_loading"@);
            reveal_strlit("login_loading");
            reveal_strlit("network_proxy_settings");
        }
        return Some(("login_loading", l.frame));
    }
    None
}

} // verus!
