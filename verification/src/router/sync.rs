//! Re-detecting the logged-in account: the report an operator gets.
use vstd::prelude::*;
use crate::text::str_eq;

verus! {

/// What a rescan found and did. It names no account, path or key.
pub struct RescanResponse {
    /// `ok`, or the reason it stopped.
    pub status: &'static str,
    pub wechat_pid_present: bool,
    pub account_detected: bool,
    /// How the account was found: `pid_fd`, `related_pid_fd`, `filesystem_fallback` or `none`.
    pub account_detect_method: &'static str,
    pub logged_in_user_before: bool,
    pub logged_in_user_after: bool,
    pub key_extraction_needed: bool,
    pub key_extraction_triggered: bool,
    pub reason: Option<&'static str>,
    pub notes: Vec<&'static str>,
}

impl RescanResponse {
    /// The report of a rescan that stopped early: nothing detected, nothing
    /// extracted, and the logged-in user as it was.
    pub fn failure(
        status: &'static str,
        reason: &'static str,
        wechat_pid_present: bool,
        account_detect_method: &'static str,
        logged_in_user_before: bool,
    ) -> (r: RescanResponse)
        ensures
            r.status == status,
            r.reason == Some(reason),
            r.wechat_pid_present == wechat_pid_present,
            !r.account_detected,
            r.account_detect_method == account_detect_method,
            r.logged_in_user_before == logged_in_user_before,
            r.logged_in_user_after == logged_in_user_before,
            !r.key_extraction_needed,
            !r.key_extraction_triggered,
            r.notes@.len() == 0,
    {
        RescanResponse {
            status,
            wechat_pid_present,
            account_detected: false,
            account_detect_method,
            logged_in_user_before,
            logged_in_user_after: logged_in_user_before,
            key_extraction_needed: false,
            key_extraction_triggered: false,
            reason: Some(reason),
            notes: Vec::new(),
        }
    }

    /// The report of a rescan that found the account.
    pub fn success(
        account_detect_method: &'static str,
        logged_in_user_before: bool,
        key_extraction_needed: bool,
        key_extraction_triggered: bool,
    ) -> (r: RescanResponse)
        ensures
            r.status@ == "ok"@,
            r.reason is None,
            r.wechat_pid_present,
            r.account_detected,
            r.account_detect_method == account_detect_method,
            r.logged_in_user_before == logged_in_user_before,
            r.logged_in_user_after,
            r.key_extraction_needed == key_extraction_needed,
            r.key_extraction_triggered == key_extraction_triggered,
            r.notes@.len() == 0,
    {
        RescanResponse {
            status: "ok",
            wechat_pid_present: true,
            account_detected: true,
            account_detect_method,
            logged_in_user_before,
            logged_in_user_after: true,
            key_extraction_needed,
            key_extraction_triggered,
            reason: None,
            notes: Vec::new(),
        }
    }
}

/// The session's data is cleared when a different account was recorded before.
pub fn account_changed(previous: Option<&str>, account_dir: &str) -> (r: bool)
    ensures
        r == match previous {
            Some(p) => p@ != account_dir@,
            None => false,
        },
{
    match previous {
        Some(p) => !str_eq(p, account_dir),
        None => false,
    }
}

/// The process a rescan inspects: the session's recorded one, else the one a
/// scan found.
pub fn rescan_pid(recorded: Option<i64>, scanned: Option<i64>) -> (r: Option<i64>)
    ensures
        r == match recorded {
            Some(p) => Some(p),
            None => scanned,
        },
{
    match recorded {
        Some(p) => Some(p),
        None => scanned,
    }
}

} // verus!
