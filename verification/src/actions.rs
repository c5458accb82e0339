//! The actions the plans emit.
use vstd::prelude::*;
use crate::types::{Action, ActionSpec, Bounds, action_view, actions_view, center_of};

verus! {

pub fn wait(ms: u64) -> (a: Action)
    ensures
        action_view(a) == ActionSpec::Wait(ms as nat),
{
    Action::Wait { ms }
}

pub fn wait_short() -> (a: Action)
    ensures
        action_view(a) == ActionSpec::Wait(200),
{
    Action::Wait { ms: 200 }
}

pub fn wait_long() -> (a: Action)
    ensures
        action_view(a) == ActionSpec::Wait(1000),
{
    Action::Wait { ms: 1000 }
}

pub fn maximize() -> (a: Action)
    ensures
        action_view(a) == ActionSpec::ClickSelector(
            "tool-bar push-button[name=\"Maximize\"]"@,
        ),
{
    Action::ClickSelector { selector: "tool-bar push-button[name=\"Maximize\"]".to_owned() }
}

pub fn minimize() -> (a: Action)
    ensures
        action_view(a) == ActionSpec::ClickSelector(
            "tool-bar push-button[name=\"Minimize\"]"@,
        ),
{
    Action::ClickSelector { selector: "tool-bar push-button[name=\"Minimize\"]".to_owned() }
}

pub fn close_window() -> (a: Action)
    ensures
        action_view(a) == ActionSpec::ClickSelector("tool-bar push-button[name=\"Disable\"]"@),
{
    Action::ClickSelector { selector: "tool-bar push-button[name=\"Disable\"]".to_owned() }
}

pub fn click_login() -> (a: Action)
    ensures
        action_view(a) == ActionSpec::ClickSelector(
            "push-button[name=/^(Log In|Open WeChat)$/]"@,
        ),
{
    Action::ClickSelector { selector: "push-button[name=/^(Log In|Open WeChat)$/]".to_owned() }
}

pub fn click_switch_account() -> (a: Action)
    ensures
        action_view(a) == ActionSpec::ClickSelector("push-button[name=\"Switch Account\"]"@),
{
    Action::ClickSelector { selector: "push-button[name=\"Switch Account\"]".to_owned() }
}

pub fn dismiss_popup() -> (a: Action)
    ensures
        action_view(a) == ActionSpec::ClickSelector("push-button[name=/OK|Confirm|确定|确认/i]"@),
{
    Action::ClickSelector { selector: "push-button[name=/OK|Confirm|确定|确认/i]".to_owned() }
}

pub fn cancel_popup() -> (a: Action)
    ensures
        action_view(a) == ActionSpec::ClickSelector("push-button[name=/Cancel|取消/i]"@),
{
    Action::ClickSelector { selector: "push-button[name=/Cancel|取消/i]".to_owned() }
}

/// A click at a screen point.
pub fn click_at(x: i64, y: i64) -> (a: Action)
    ensures
        action_view(a) == ActionSpec::ClickCoords(x as int, y as int),
{
    Action::ClickCoords { x, y }
}

/// `x / 2` rounded to the nearest integer, halves away from zero.
pub fn round_half_exec(x: i64) -> (r: i64)
    requires
        -0x4000_0000_0000_0000 <= x <= 0x4000_0000_0000_0000,
    ensures
        r == crate::types::round_half(x as int),
{
    if x >= 0 {
        (x + 1) / 2
    } else {
        -((-x + 1) / 2)
    }
}

/// The centre of a rectangle, rounded to whole pixels.
pub fn bounds_center(b: &Bounds) -> (r: (i64, i64))
    ensures
        r.0 == center_of(*b).0,
        r.1 == center_of(*b).1,
{
    let cx = round_half_exec(2 * (b.x as i64) + b.width as i64);
    let cy = round_half_exec(2 * (b.y as i64) + b.height as i64);
    (cx, cy)
}

/// A click at the centre of a rectangle.
pub fn click_bounds(b: &Bounds) -> (a: Action)
    ensures
        action_view(a) == ActionSpec::ClickCoords(center_of(*b).0, center_of(*b).1),
{
    let (x, y) = bounds_center(b);
    click_at(x, y)
}

/// A click on the first element a selector finds.
pub fn click_selector(selector: &str) -> (a: Action)
    ensures
        action_view(a) == ActionSpec::ClickSelector(selector@),
{
    Action::ClickSelector { selector: selector.to_owned() }
}

pub fn click_back() -> (a: Action)
    ensures
        action_view(a) == ActionSpec::ClickSelector("push-button[name=\"Back\"]"@),
{
    click_selector("push-button[name=\"Back\"]")
}

/// Several actions run in order.
pub fn sequence(actions: Vec<Action>) -> (a: Action)
    ensures
        action_view(a) == ActionSpec::Sequence(actions_view(actions@)),
{
    Action::Sequence { actions }
}

} // verus!
