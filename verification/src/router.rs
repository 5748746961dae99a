//! The event router. An input from outside (a menu activation, a pointer
//! event on the tray icon, the toggle command of the front-end, a second
//! launch) is handled in steps: the router asks for one outside call at a
//! time, the driver makes the call and reports back, and the router decides
//! what comes next. The window is looked up anew for every input.

use vstd::prelude::*;
use crate::menu::MenuAction;
use crate::tray::{is_toggle_click, toggles_window, TrayIconEvent};
use crate::window::{show_and_focus, toggle, toggle_plan, Plan, Route, WindowOp, WindowState};

verus! {

/// What reached the shell from outside.
#[derive(Clone, Copy, Debug, PartialEq, Eq, Structural)]
pub enum Input {
    /// An entry of the tray menu was activated.
    Menu(MenuAction),
    /// The pointer did something on the tray icon.
    Tray(TrayIconEvent),
    /// The front-end invoked the toggle command.
    ToggleCommand,
    /// The application was launched again while this instance is running.
    SecondLaunch,
}

/// What an input asks of the shell.
#[derive(Clone, Copy, Debug, PartialEq, Eq, Structural)]
pub enum Task {
    /// Nothing at all.
    Nothing,
    /// Leave the process.
    Quit,
    /// Bring the main window to the front.
    Front,
    /// Open the uploads page, then bring the main window to the front.
    Upload,
    /// Flip the visibility of the main window.
    Toggle,
}

/// One outside call that the router asks its driver to make.
#[derive(Clone, Copy, Debug, PartialEq, Eq, Structural)]
pub enum Request {
    /// The input is handled: make no further call.
    Done,
    /// Leave the process with this exit status. Nothing follows.
    Exit(i32),
    /// Look up the main window and report whether it exists.
    ResolveWindow,
    /// Ask the window that was found whether it is visible.
    QueryVisibility,
    /// Issue this call on the window that was found and drop its result.
    Window(WindowOp),
}

/// What the driver reports after it has made the call it was asked for.
#[derive(Clone, Copy, Debug, PartialEq, Eq, Structural)]
pub enum Reply {
    /// The lookup's result: whether the main window exists.
    Resolved(bool),
    /// The window's answer to the visibility query, `None` where the query failed.
    Visibility(Option<bool>),
    /// The window call was attempted. Whether it succeeded is not reported.
    Attempted,
}

/// Where the handling of one input stands between two calls.
#[derive(Clone, Copy, Debug, PartialEq, Eq, Structural)]
pub enum Phase {
    /// The lookup of the main window is under way.
    Resolving(Task),
    /// The visibility query is under way.
    Querying,
    /// The first `issued` calls of `plan` have gone out, the last of them just now.
    Performing { plan: Plan, issued: usize },
    /// Nothing is under way: the input is handled.
    Finished,
}

/// The exit status of a quit.
pub open spec fn quit_status() -> i32 {
    0
}

/// What an input asks of the shell.
pub open spec fn task_of(input: Input) -> Task {
    match input {
        Input::Menu(MenuAction::Show) => Task::Front,
        Input::Menu(MenuAction::Upload) => Task::Upload,
        Input::Menu(MenuAction::Quit) => Task::Quit,
        Input::Menu(MenuAction::Unrecognized) => Task::Nothing,
        Input::Tray(event) => if is_toggle_click(event) {
            Task::Toggle
        } else {
            Task::Nothing
        },
        Input::ToggleCommand => Task::Toggle,
        Input::SecondLaunch => Task::Front,
    }
}

/// The first step for a task: nothing for `Nothing`, the exit for `Quit`,
/// the lookup of the window for the rest.
pub open spec fn first_step(task: Task) -> (Phase, Request) {
    match task {
        Task::Nothing => (Phase::Finished, Request::Done),
        Task::Quit => (Phase::Finished, Request::Exit(quit_status())),
        _ => (Phase::Resolving(task), Request::ResolveWindow),
    }
}

/// The step that issues the call of `plan` after its first `issued` calls,
/// or ends the handling where the plan is used up.
pub open spec fn issue_step(plan: Plan, issued: usize) -> (Phase, Request) {
    if issued < plan.ops().len() {
        (Phase::Performing { plan, issued: (issued + 1) as usize }, Request::Window(plan.ops()[issued as int]))
    } else {
        (Phase::Finished, Request::Done)
    }
}

/// The step after a reply. An absent window ends the handling at once. A
/// window that was found is queried (toggle) or gets the first call of its
/// plan; after the query's answer and after every attempted call the plan goes
/// on. A reply that does not answer the call under way ends the handling.
pub open spec fn next_step(phase: Phase, reply: Reply) -> (Phase, Request) {
    match (phase, reply) {
        (Phase::Resolving(Task::Front), Reply::Resolved(true)) => issue_step(Plan::ShowAndFocus, 0),
        (Phase::Resolving(Task::Upload), Reply::Resolved(true)) => issue_step(
            Plan::NavigateThenShow(Route::Uploads),
            0,
        ),
        (Phase::Resolving(Task::Toggle), Reply::Resolved(true)) => (
            Phase::Querying,
            Request::QueryVisibility,
        ),
        (Phase::Querying, Reply::Visibility(visible)) => issue_step(toggle_plan(visible), 0),
        (Phase::Performing { plan, issued }, Reply::Attempted) => issue_step(plan, issued),
        _ => (Phase::Finished, Request::Done),
    }
}

/// The plan that is carried out on a window that exists and reports its
/// visibility truthfully, `None` where the task issues no window call.
pub open spec fn plan_of(task: Task, visible: bool) -> Option<Plan> {
    match task {
        Task::Front => Some(Plan::ShowAndFocus),
        Task::Upload => Some(Plan::NavigateThenShow(Route::Uploads)),
        Task::Toggle => Some(toggle_plan(Some(visible))),
        _ => None,
    }
}

/// The window calls that an input leads to, in order. `window` is the state
/// of the main window, `None` where there is no such window.
pub open spec fn calls_of(input: Input, window: Option<WindowState>) -> Seq<WindowOp> {
    match window {
        Some(state) => match plan_of(task_of(input), state.is_visible()) {
            Some(plan) => plan.ops(),
            None => Seq::empty(),
        },
        None => Seq::empty(),
    }
}

/// The exit status with which an input ends the process, `None` where the
/// process goes on. The window plays no part in it.
pub open spec fn exit_of(input: Input) -> Option<i32> {
    if task_of(input) == Task::Quit {
        Some(quit_status())
    } else {
        None
    }
}

/// The main window after an input was handled and every call took effect.
/// No input creates a window or takes one away.
pub open spec fn window_after(input: Input, window: Option<WindowState>) -> Option<WindowState> {
    match window {
        Some(state) => Some(state.after_all(calls_of(input, window))),
        None => None,
    }
}

/// The main window after a list of inputs was handled, first input first.
pub open spec fn window_after_all(inputs: Seq<Input>, window: Option<WindowState>) -> Option<
    WindowState,
>
    decreases inputs.len(),
{
    if inputs.len() == 0 {
        window
    } else {
        window_after(inputs.last(), window_after_all(inputs.drop_last(), window))
    }
}

/// How far a handling is from its end, in steps.
pub open spec fn steps_left(phase: Phase) -> nat {
    match phase {
        Phase::Resolving(_) => 6,
        Phase::Querying => 5,
        Phase::Performing { plan, issued } => if issued <= plan.ops().len() {
            (plan.ops().len() - issued + 1) as nat
        } else {
            1
        },
        Phase::Finished => 0,
    }
}

/// What handling one input came to.
#[derive(Debug, PartialEq, Eq)]
pub struct Outcome {
    /// The main window afterwards, `None` where there is none.
    pub window: Option<WindowState>,
    /// The exit status, where the input ended the process.
    pub exit: Option<i32>,
    /// The window calls that were issued, in order.
    pub calls: Vec<WindowOp>,
}

/// Reads off what an input asks of the shell.
pub fn route(input: Input) -> (task: Task)
    ensures
        task == task_of(input),
{
    match input {
        Input::Menu(MenuAction::Show) => Task::Front,
        Input::Menu(MenuAction::Upload) => Task::Upload,
        Input::Menu(MenuAction::Quit) => Task::Quit,
        Input::Menu(MenuAction::Unrecognized) => Task::Nothing,
        Input::Tray(event) => {
            if toggles_window(event) {
                Task::Toggle
            } else {
                Task::Nothing
            }
        },
        Input::ToggleCommand => Task::Toggle,
        Input::SecondLaunch => Task::Front,
    }
}

/// Starts the handling of an input: returns the first call to make and the
/// phase to hand back with its reply.
pub fn begin(input: Input) -> (step: (Phase, Request))
    ensures
        step == first_step(task_of(input)),
{
    let task = route(input);
    match task {
        Task::Nothing => (Phase::Finished, Request::Done),
        Task::Quit => (Phase::Finished, Request::Exit(0)),
        _ => (Phase::Resolving(task), Request::ResolveWindow),
    }
}

/// Issues the next call of a plan, or ends the handling.
fn issue(plan: Plan, issued: usize) -> (step: (Phase, Request))
    ensures
        step == issue_step(plan, issued),
{
    match plan.op_at(issued) {
        Some(op) => (Phase::Performing { plan, issued: issued + 1 }, Request::Window(op)),
        None => (Phase::Finished, Request::Done),
    }
}

/// Goes on with the handling of an input after the driver's reply: returns
/// the next call to make and the phase to hand back with its reply. The phase
/// is `Finished` exactly when the request is `Done`, which comes after at most
/// six steps.
pub fn resume(phase: Phase, reply: Reply) -> (step: (Phase, Request))
    ensures
        step == next_step(phase, reply),
        steps_left(step.0) < steps_left(phase) || phase == Phase::Finished,
        step.0 == Phase::Finished <==> (step.1 == Request::Done),
{
    match (phase, reply) {
        (Phase::Resolving(Task::Front), Reply::Resolved(true)) => issue(show_and_focus(), 0),
        (Phase::Resolving(Task::Upload), Reply::Resolved(true)) => issue(
            Plan::NavigateThenShow(Route::Uploads),
            0,
        ),
        (Phase::Resolving(Task::Toggle), Reply::Resolved(true)) => (
            Phase::Querying,
            Request::QueryVisibility,
        ),
        (Phase::Querying, Reply::Visibility(visible)) => issue(toggle(visible), 0),
        (Phase::Performing { plan, issued }, Reply::Attempted) => issue(plan, issued),
        _ => (Phase::Finished, Request::Done),
    }
}

/// Handles one input against a model of the main window: carries every call
/// that the router asks for out on the model, where each call takes effect and
/// the visibility query tells the truth. `window` is `None` where there is no
/// main window.
pub fn play(input: Input, window: Option<WindowState>) -> (outcome: Outcome)
    ensures
        outcome.calls@ == calls_of(input, window),
        outcome.exit == exit_of(input),
        outcome.window == window_after(input, window),
{
    let ghost task = task_of(input);
    let ghost wanted = calls_of(input, window);
    let ghost visible = window.is_some() && window.unwrap().is_visible();
    let mut calls: Vec<WindowOp> = Vec::new();
    let mut current = window;
    let mut exit: Option<i32> = None;
    let (mut phase, mut request) = begin(input);
    proof {
        if window.is_some() {
            assert(window.unwrap().after_all(calls@) == window.unwrap());
        }
    }
    loop
        invariant_except_break
            exit.is_none(),
        invariant
            wanted == calls_of(input, window),
            task == task_of(input),
            visible == (window.is_some() && window.unwrap().is_visible()),
            calls@.len() <= wanted.len(),
            calls@ == wanted.subrange(0, calls@.len() as int),
            current.is_some() == window.is_some(),
            window.is_some() ==> current.unwrap() == window.unwrap().after_all(calls@),
            match request {
                Request::Done => phase == Phase::Finished && calls@ == wanted && task != Task::Quit,
                Request::Exit(status) => phase == Phase::Finished && task == Task::Quit && status
                    == quit_status() && calls@.len() == 0,
                Request::ResolveWindow => phase == Phase::Resolving(task) && calls@.len() == 0 && (
                task == Task::Front || task == Task::Upload || task == Task::Toggle),
                Request::QueryVisibility => window.is_some() && phase == Phase::Querying && task
                    == Task::Toggle && calls@.len() == 0,
                Request::Window(op) => window.is_some() && exists|plan: Plan|
                    {
                        &&& plan_of(task, visible) == Some(plan)
                        &&& phase == (Phase::Performing { plan, issued: (calls@.len() + 1) as usize })
                        &&& calls@.len() < wanted.len()
                        &&& op == wanted[calls@.len() as int]
                    },
            },
        ensures
            calls@ == wanted,
            current == window_after(input, window),
            exit == exit_of(input),
        decreases steps_left(phase), (if request == Request::Done || request is Exit {
            0nat
        } else {
            1nat
        }),
    {
        let reply = match request {
            Request::Done => {
                break ;
            },
            Request::Exit(status) => {
                exit = Some(status);
                proof {
                    assert(wanted.len() == 0);
                    assert(calls@ == wanted);
                }
                break ;
            },
            Request::ResolveWindow => Reply::Resolved(current.is_some()),
            Request::QueryVisibility => Reply::Visibility(
                match current {
                    Some(state) => Some(state.visible()),
                    None => None,
                },
            ),
            Request::Window(op) => {
                proof {
                    let before = calls@;
                    let after = before.push(op);
                    assert(after.drop_last() == before);
                    assert(after.last() == op);
                    assert(after == wanted.subrange(0, after.len() as int));
                }
                calls.push(op);
                current = match current {
                    Some(state) => Some(state.apply(op)),
                    None => None,
                };
                Reply::Attempted
            },
        };
        let (next_phase, next_request) = resume(phase, reply);
        proof {
            if request == Request::ResolveWindow || request == Request::QueryVisibility {
                assert(calls@.len() == 0);
                if window.is_some() {
                    assert(current == window);
                }
            }
        }
        phase = next_phase;
        request = next_request;
    }
    Outcome { window: current, exit, calls }
}

} // verus!
