//! How an action becomes the commands run on the desktop: which helper is
//! called with which arguments, when to sleep, and which events to emit.
use vstd::prelude::*;
use crate::plans::strings_view;
use crate::selectors::{query_selector, query_selector_spec};
use crate::text::signed_decimal;
use crate::types::{
    center_of, frame_view, pairs_view, A11yNode, Action, FrameHint, FrameSpec, ScrollDirection,
    SubscriptionEvent,
};

verus! {

/// One thing the executor does.
pub enum Step {
    /// Run a desktop helper with arguments.
    Run { program: &'static str, args: Vec<String> },
    /// Wait this many milliseconds.
    Sleep { ms: u64 },
    /// Hand an event to the plan's subscribers.
    Emit { event: SubscriptionEvent },
}

/// A step as plain values.
pub enum StepSpec {
    Run(Seq<char>, Seq<Seq<char>>),
    Sleep(nat),
    Emit(Seq<char>, Seq<(Seq<char>, Seq<char>)>),
}

pub open spec fn step_view(s: Step) -> StepSpec {
    match s {
        Step::Run { program, args } => StepSpec::Run(program@, strings_view(args@)),
        Step::Sleep { ms } => StepSpec::Sleep(ms as nat),
        Step::Emit { event } => StepSpec::Emit(event.event_type@, pairs_view(event.data@)),
    }
}

pub open spec fn steps_view(v: Seq<Step>) -> Seq<StepSpec> {
    v.map_values(|s: Step| step_view(s))
}

/// A coordinate as the helpers take it: clamped to the `i32` range.
pub open spec fn clamp_i32(v: int) -> int {
    if v > i32::MAX {
        i32::MAX as int
    } else if v < i32::MIN {
        i32::MIN as int
    } else {
        v
    }
}

fn clamp_exec(v: i64) -> (r: i64)
    ensures
        r == clamp_i32(v as int),
{
    if v > i32::MAX as i64 {
        i32::MAX as i64
    } else if v < i32::MIN as i64 {
        i32::MIN as i64
    } else {
        v
    }
}

/// The arguments that first activate the target window: `--window`, the
/// process id, the frame's position and size, and `--`. None without a process id.
pub open spec fn activate_args_spec(frame: Option<FrameSpec>) -> Seq<Seq<char>> {
    match frame {
        Some(f) => match f.pid {
            Some(pid) => seq![
                "--window"@,
                signed_decimal(pid as int),
                signed_decimal(f.bounds.x as int),
                signed_decimal(f.bounds.y as int),
                signed_decimal(f.bounds.width as int),
                signed_decimal(f.bounds.height as int),
                "--"@,
            ],
            None => Seq::empty(),
        },
        None => Seq::empty(),
    }
}

fn decimal_string(n: i64) -> (r: String)
    ensures
        r@ == signed_decimal(n as int),
{
    let mut s = String::new();
    crate::text::push_signed_decimal(n, &mut s);
    s
}

/// The window activation arguments for a frame hint.
pub fn window_activate_args(frame: Option<&FrameHint>) -> (r: Vec<String>)
    ensures
        strings_view(r@) == activate_args_spec(
            match frame {
                Some(f) => Some(frame_view(*f)),
                None => None,
            },
        ),
{
    let mut v: Vec<String> = Vec::new();
    if let Some(f) = frame {
        if let Some(pid) = f.pid {
            v.push(String::from_str("--window"));
            v.push(decimal_string(pid));
            v.push(decimal_string(f.bounds.x as i64));
            v.push(decimal_string(f.bounds.y as i64));
            v.push(decimal_string(f.bounds.width as i64));
            v.push(decimal_string(f.bounds.height as i64));
            v.push(String::from_str("--"));
        }
    }
    assert(strings_view(v@) =~= activate_args_spec(
        match frame {
            Some(f) => Some(frame_view(*f)),
            None => None,
        },
    ));
    v
}

/// The steps an action comes to. A click on a selector clicks the centre of
/// the first matching node with bounds, and does nothing when there is none.
pub open spec fn steps_of(a: Action, frame: Option<FrameSpec>, a11y: A11yNode) -> Seq<StepSpec>
    decreases a, 1int,
{
    let act = activate_args_spec(frame);
    match a {
        Action::ClickSelector { selector } => match query_selector_spec(a11y, selector@) {
            Some(n) => match n.bounds {
                Some(b) => seq![
                    StepSpec::Run(
                        "click"@,
                        act + seq![
                            signed_decimal(clamp_i32(center_of(b).0)),
                            signed_decimal(clamp_i32(center_of(b).1)),
                        ],
                    ),
                ],
                None => Seq::empty(),
            },
            None => Seq::empty(),
        },
        Action::ClickCoords { x, y } => seq![
            StepSpec::Run(
                "click"@,
                act + seq![signed_decimal(clamp_i32(x as int)), signed_decimal(clamp_i32(y as int))],
            ),
        ],
        Action::Type { text, selector: _ } => seq![StepSpec::Run("input"@, seq![text@])],
        Action::Key { combo } => seq![StepSpec::Run("key"@, act + seq![combo@])],
        Action::Scroll { direction, x: _, y: _, amount } => seq![
            StepSpec::Run(
                "scroll"@,
                seq![
                    match direction {
                        ScrollDirection::Up => "up"@,
                        ScrollDirection::Down => "down"@,
                    },
                ] + match amount {
                    Some(n) => seq![signed_decimal(n as int)],
                    None => Seq::empty(),
                },
            ),
        ],
        Action::Wait { ms } => seq![StepSpec::Sleep(ms as nat)],
        Action::Emit { event } => seq![StepSpec::Emit(event.event_type@, pairs_view(event.data@))],
        Action::Sequence { actions } => steps_in(actions@, frame, a11y, 0),
    }
}

/// The steps of the actions from the `k`-th on, in order.
pub open spec fn steps_in(actions: Seq<Action>, frame: Option<FrameSpec>, a11y: A11yNode, k: int) -> Seq<
    StepSpec,
>
    decreases actions, actions.len() - k,
{
    if k < 0 || k >= actions.len() {
        Seq::empty()
    } else {
        steps_of(actions[k], frame, a11y) + steps_in(actions, frame, a11y, k + 1)
    }
}

fn clone_event(e: &SubscriptionEvent) -> (r: SubscriptionEvent)
    ensures
        r.event_type@ == e.event_type@,
        pairs_view(r.data@) == pairs_view(e.data@),
{
    let mut data: Vec<(String, String)> = Vec::new();
    let mut i: usize = 0;
    while i < e.data.len()
        invariant
            i <= e.data.len(),
            pairs_view(data@) == pairs_view(e.data@.take(i as int)),
        decreases e.data.len() - i,
    {
        let ghost prev = pairs_view(data@);
        data.push((e.data[i].0.clone(), e.data[i].1.clone()));
        assert(pairs_view(data@) =~= prev.push((e.data@[i as int].0@, e.data@[i as int].1@)));
        assert(pairs_view(e.data@.take(i + 1)) =~= pairs_view(e.data@.take(i as int)).push(
            (e.data@[i as int].0@, e.data@[i as int].1@),
        ));
        i += 1;
    }
    assert(e.data@.take(e.data.len() as int) == e.data@);
    SubscriptionEvent { event_type: e.event_type.clone(), data }
}

fn with_args(prefix: &Vec<String>, extra: Vec<String>) -> (r: Vec<String>)
    ensures
        strings_view(r@) == strings_view(prefix@) + strings_view(extra@),
{
    let mut v: Vec<String> = Vec::new();
    let mut i: usize = 0;
    while i < prefix.len()
        invariant
            i <= prefix.len(),
            strings_view(v@) == strings_view(prefix@.take(i as int)),
        decreases prefix.len() - i,
    {
        let ghost prev = strings_view(v@);
        v.push(prefix[i].clone());
        assert(strings_view(v@) =~= prev.push(prefix@[i as int]@));
        assert(strings_view(prefix@.take(i + 1)) =~= strings_view(prefix@.take(i as int)).push(
            prefix@[i as int]@,
        ));
        i += 1;
    }
    assert(prefix@.take(prefix.len() as int) == prefix@);
    let mut j: usize = 0;
    while j < extra.len()
        invariant
            j <= extra.len(),
            strings_view(v@) == strings_view(prefix@) + strings_view(extra@.take(j as int)),
        decreases extra.len() - j,
    {
        let ghost prev = strings_view(v@);
        v.push(extra[j].clone());
        assert(strings_view(v@) =~= prev.push(extra@[j as int]@));
        assert(strings_view(extra@.take(j + 1)) =~= strings_view(extra@.take(j as int)).push(
            extra@[j as int]@,
        ));
        j += 1;
    }
    assert(extra@.take(extra.len() as int) == extra@);
    v
}

fn push_step(out: &mut Vec<Step>, s: Step)
    ensures
        steps_view(final(out)@) == steps_view(old(out)@).push(step_view(s)),
{
    let ghost prev = steps_view(out@);
    out.push(s);
    assert(steps_view(out@) =~= prev.push(step_view(s)));
}

/// Appends the steps of an action, performed by the caller in order.
pub fn action_steps(action: &Action, frame: Option<&FrameHint>, a11y: &A11yNode, out: &mut Vec<Step>)
    ensures
        steps_view(final(out)@) == steps_view(old(out)@) + steps_of(
            *action,
            match frame {
                Some(f) => Some(frame_view(*f)),
                None => None,
            },
            *a11y,
        ),
    decreases *action, 1int,
{
    let ghost fv = match frame {
        Some(f) => Some(frame_view(*f)),
        None => None,
    };
    let ghost start = steps_view(out@);
    let act = window_activate_args(frame);
    match action {
        Action::ClickSelector { selector } => {
            match query_selector(a11y, selector.as_str()) {
                Some(n) => match &n.bounds {
                    Some(b) => {
                        let c = crate::actions::bounds_center(b);
                        let mut extra: Vec<String> = Vec::new();
                        extra.push(decimal_string(clamp_exec(c.0)));
                        extra.push(decimal_string(clamp_exec(c.1)));
                        assert(strings_view(extra@) =~= seq![
                            signed_decimal(clamp_i32(center_of(*b).0)),
                            signed_decimal(clamp_i32(center_of(*b).1)),
                        ]);
                        let args = with_args(&act, extra);
                        push_step(out, Step::Run { program: "click", args });
                        assert(strings_view(args@) =~= activate_args_spec(fv) + seq![
                            signed_decimal(clamp_i32(center_of(*b).0)),
                            signed_decimal(clamp_i32(center_of(*b).1)),
                        ]);
                    },
                    None => {},
                },
                None => {},
            }
            assert(steps_view(out@) =~= start + steps_of(*action, fv, *a11y));
        },
        Action::ClickCoords { x, y } => {
            let mut extra: Vec<String> = Vec::new();
            extra.push(decimal_string(clamp_exec(*x)));
            extra.push(decimal_string(clamp_exec(*y)));
            assert(strings_view(extra@) =~= seq![signed_decimal(clamp_i32(*x as int)), signed_decimal(clamp_i32(*y as int))]);
            let args = with_args(&act, extra);
            push_step(out, Step::Run { program: "click", args });
            assert(steps_view(out@) =~= start + steps_of(*action, fv, *a11y));
        },
        Action::Type { text, selector: _ } => {
            let mut args: Vec<String> = Vec::new();
            args.push(text.clone());
            push_step(out, Step::Run { program: "input", args });
            assert(strings_view(args@) =~= seq![text@]);
            assert(steps_view(out@) =~= start + steps_of(*action, fv, *a11y));
        },
        Action::Key { combo } => {
            let mut extra: Vec<String> = Vec::new();
            extra.push(combo.clone());
            assert(strings_view(extra@) =~= seq![combo@]);
            let args = with_args(&act, extra);
            push_step(out, Step::Run { program: "key", args });
            assert(steps_view(out@) =~= start + steps_of(*action, fv, *a11y));
        },
        Action::Scroll { direction, x: _, y: _, amount } => {
            let mut args: Vec<String> = Vec::new();
            match direction {
                ScrollDirection::Up => args.push(String::from_str("up")),
                ScrollDirection::Down => args.push(String::from_str("down")),
            }
            let ghost d = strings_view(args@);
            match amount {
                Some(n) => args.push(decimal_string(*n as i64)),
                None => {},
            }
            assert(strings_view(args@) =~= d + match amount {
                Some(n) => seq![signed_decimal(n as int)],
                None => Seq::<Seq<char>>::empty(),
            });
            assert(d =~= seq![
                match direction {
                    ScrollDirection::Up => "up"@,
                    ScrollDirection::Down => "down"@,
                },
            ]);
            push_step(out, Step::Run { program: "scroll", args });
            assert(steps_view(out@) =~= start + steps_of(*action, fv, *a11y));
        },
        Action::Wait { ms } => {
            push_step(out, Step::Sleep { ms: *ms });
            assert(steps_view(out@) =~= start + steps_of(*action, fv, *a11y));
        },
        Action::Emit { event } => {
            let e = clone_event(event);
            push_step(out, Step::Emit { event: e });
            assert(steps_view(out@) =~= start + steps_of(*action, fv, *a11y));
        },
        Action::Sequence { actions } => {
            let mut k: usize = 0;
            assert(start + steps_in(actions@, fv, *a11y, 0) == start + steps_of(*action, fv, *a11y));
            while k < actions.len()
                invariant
                    k <= actions.len(),
                    *action == (Action::Sequence { actions: *actions }),
                    fv == match frame {
                        Some(f) => Some(frame_view(*f)),
                        None => None,
                    },
                    steps_view(out@) + steps_in(actions@, fv, *a11y, k as int) == start + steps_of(
                        *action,
                        fv,
                        *a11y,
                    ),
                decreases actions.len() - k,
            {
                proof {
                    lemma_element_decreases(*action, *actions, k as int);
                }
                let ghost before = steps_view(out@);
                action_steps(&actions[k], frame, a11y, out);
                assert(steps_in(actions@, fv, *a11y, k as int) == steps_of(actions@[k as int], fv, *a11y)
                    + steps_in(actions@, fv, *a11y, k + 1));
                assert(steps_view(out@) + steps_in(actions@, fv, *a11y, k + 1) =~= before + steps_in(
                    actions@,
                    fv,
                    *a11y,
                    k as int,
                ));
                k += 1;
            }
            assert(steps_in(actions@, fv, *a11y, k as int) =~= Seq::<StepSpec>::empty());
            assert(steps_view(out@) =~= start + steps_of(*action, fv, *a11y));
        },
    }
}

proof fn lemma_element_decreases(a: Action, actions: Vec<Action>, k: int)
    requires
        a == (Action::Sequence { actions }),
        0 <= k < actions.len(),
    ensures
        decreases_to!(a => actions@[k]),
{
    assert(decreases_to!(a => a->actions));
    assert(a->actions == actions);
    assert(decreases_to!(actions => actions@));
    assert(decreases_to!(actions@ => actions@[k]));
}

} // verus!
