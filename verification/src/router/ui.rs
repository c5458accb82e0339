//! The UI-hygiene routes' answers: closing popups and opening a chat.
use vstd::prelude::*;
use crate::popups::ClosePopupsOutcome;
use crate::ui_open_chat::OpenChatOutcome;

verus! {

/// The answer to a popup-closing request; it names no window.
pub struct ClosePopupsResponse {
    /// `ok`, or `xdotool_missing` when windows could not be listed.
    pub status: &'static str,
    pub popup_detected: bool,
    pub popup_closed: bool,
    pub closed_count: usize,
    pub windows_seen: usize,
    pub popup_type: Option<&'static str>,
    pub warning: Option<&'static str>,
}

/// The answer built from what closing popups found.
pub fn close_popups_response(o: ClosePopupsOutcome) -> (r: ClosePopupsResponse)
    ensures
        r.status@ == (if o.xdotool_available { "ok"@ } else { "xdotool_missing"@ }),
        r.popup_detected == o.popup_detected,
        r.popup_closed == o.popup_closed,
        r.closed_count == o.closed_count,
        r.windows_seen == o.windows_seen,
        r.popup_type == o.popup_type,
        match r.warning {
            Some(w) => !o.xdotool_available && w@ == "xdotool_unavailable"@,
            None => o.xdotool_available,
        },
{
    ClosePopupsResponse {
        status: if o.xdotool_available { "ok" } else { "xdotool_missing" },
        popup_detected: o.popup_detected,
        popup_closed: o.popup_closed,
        closed_count: o.closed_count,
        windows_seen: o.windows_seen,
        popup_type: o.popup_type,
        warning: if o.xdotool_available { None } else { Some("xdotool_unavailable") },
    }
}

/// A request to open a chat by id.
pub struct OpenChatRequest {
    pub chat_id: String,
    pub dry_run: bool,
}

/// The answer to an open-chat request; it names no chat.
pub struct OpenChatResponse {
    /// `ok`, or the error.
    pub status: &'static str,
    pub method: &'static str,
    pub chat_id_present: bool,
    pub resolved_name_present: bool,
    pub resolved_name_length: usize,
    pub search_box_present: bool,
    pub result_clicked: bool,
    pub open_confirmed: bool,
    pub error: Option<&'static str>,
}

/// The answer built from an open-chat run: `ok` without an error, else the
/// error itself as the status.
pub fn open_chat_response(o: OpenChatOutcome) -> (r: OpenChatResponse)
    ensures
        match o.error {
            None => r.status@ == "ok"@,
            Some(e) => r.status == e,
        },
        r.method == o.method,
        r.chat_id_present == o.chat_id_present,
        r.resolved_name_present == o.resolved_name_present,
        r.resolved_name_length == o.resolved_name_length,
        r.search_box_present == o.search_box_present,
        r.result_clicked == o.result_clicked,
        r.open_confirmed == o.open_confirmed,
        r.error == o.error,
{
    OpenChatResponse {
        status: match o.error {
            None => "ok",
            Some(e) => e,
        },
        method: o.method,
        chat_id_present: o.chat_id_present,
        resolved_name_present: o.resolved_name_present,
        resolved_name_length: o.resolved_name_length,
        search_box_present: o.search_box_present,
        result_clicked: o.result_clicked,
        open_confirmed: o.open_confirmed,
        error: o.error,
    }
}

} // verus!
