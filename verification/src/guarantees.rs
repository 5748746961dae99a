//! What holds of the router for every input and every window: theorems over
//! the spec functions that the contracts of the router speak of.

use vstd::prelude::*;
use crate::menu::{action_of, lemma_menu_ids_recognized, MenuAction};
use crate::router::{
    calls_of, exit_of, first_step, next_step, task_of, window_after, window_after_all, Input,
    Phase, Reply, Request, Task,
};
use crate::tray::{is_toggle_click, TrayIconEvent};
use crate::window::{lemma_plan_effect, Plan, Route, WindowOp, WindowState};

verus! {

/// Whether an input asks for the window to be toggled: the toggle command and
/// the release of the left button on the tray icon do, nothing else does.
pub open spec fn is_toggle(input: Input) -> bool {
    task_of(input) == Task::Toggle
}

/// One toggle flips the visibility of a window that exists: a visible window
/// is hidden by a single call, a hidden one is shown and then focused.
pub proof fn lemma_toggle_flips(input: Input, state: WindowState)
    requires
        is_toggle(input),
    ensures
        calls_of(input, Some(state)) == (if state.is_visible() {
            seq![WindowOp::Hide]
        } else {
            seq![WindowOp::Show, WindowOp::SetFocus]
        }),
        window_after(input, Some(state)) == Some(
            if state.is_visible() {
                WindowState::Hidden
            } else {
                WindowState::Focused
            },
        ),
        window_after(input, Some(state)).unwrap().is_visible() == !state.is_visible(),
{
    lemma_plan_effect(Plan::Hide, state);
}

/// After any list of toggles, with nothing else touching the window, the
/// window's visibility differs from what it was where the list's length is
/// odd and is what it was where the length is even.
pub proof fn lemma_toggle_parity(inputs: Seq<Input>, state: WindowState)
    requires
        forall|i: int| 0 <= i < inputs.len() ==> is_toggle(#[trigger] inputs[i]),
    ensures
        window_after_all(inputs, Some(state)).is_some(),
        window_after_all(inputs, Some(state)).unwrap().is_visible() == (if inputs.len() % 2 == 0 {
            state.is_visible()
        } else {
            !state.is_visible()
        }),
    decreases inputs.len(),
{
    if inputs.len() > 0 {
        let earlier = inputs.drop_last();
        assert forall|i: int| 0 <= i < earlier.len() implies is_toggle(#[trigger] earlier[i]) by {
            assert(earlier[i] == inputs[i]);
        }
        lemma_toggle_parity(earlier, state);
        let before = window_after_all(earlier, Some(state)).unwrap();
        assert(is_toggle(inputs.last()));
        lemma_toggle_flips(inputs.last(), before);
    }
}

/// The upload entry navigates before it shows and focuses: on a window that
/// exists the calls are the navigation to the uploads page, the show and the
/// focus, in this order, so every navigation comes before every show and
/// every focus. The window ends up in front.
pub proof fn lemma_upload_navigates_first(input: Input, state: WindowState)
    requires
        task_of(input) == Task::Upload,
    ensures
        input == Input::Menu(MenuAction::Upload),
        calls_of(input, Some(state)) == seq![
            WindowOp::Navigate(Route::Uploads),
            WindowOp::Show,
            WindowOp::SetFocus,
        ],
        forall|i: int, j: int|
            #![trigger calls_of(input, Some(state))[i], calls_of(input, Some(state))[j]]
            {
                let calls = calls_of(input, Some(state));
                0 <= i < calls.len() && 0 <= j < calls.len() && calls[i] is Navigate && (calls[j]
                    == WindowOp::Show || calls[j] == WindowOp::SetFocus) ==> i < j
            },
        window_after(input, Some(state)) == Some(WindowState::Focused),
{
    lemma_plan_effect(Plan::NavigateThenShow(Route::Uploads), state);
}

/// The steps of an upload on a window that exists, one outside call after
/// the other: lookup, navigation, show, focus, end.
pub proof fn lemma_upload_steps()
    ensures
        first_step(Task::Upload) == (Phase::Resolving(Task::Upload), Request::ResolveWindow),
        ({
            let plan = Plan::NavigateThenShow(Route::Uploads);
            &&& next_step(Phase::Resolving(Task::Upload), Reply::Resolved(true)) == (
                Phase::Performing { plan, issued: 1 },
                Request::Window(WindowOp::Navigate(Route::Uploads)),
            )
            &&& next_step(Phase::Performing { plan, issued: 1 }, Reply::Attempted) == (
                Phase::Performing { plan, issued: 2 },
                Request::Window(WindowOp::Show),
            )
            &&& next_step(Phase::Performing { plan, issued: 2 }, Reply::Attempted) == (
                Phase::Performing { plan, issued: 3 },
                Request::Window(WindowOp::SetFocus),
            )
            &&& next_step(Phase::Performing { plan, issued: 3 }, Reply::Attempted) == (
                Phase::Finished,
                Request::Done,
            )
        }),
{
}

/// Of all pointer events on the tray icon only the release of the left button
/// changes the window's visibility, and it always does. Every other event (a
/// press of the left button, a click of another button, a double click, a
/// movement) issues no call and leaves the window as it is.
pub proof fn lemma_only_left_release_toggles(event: TrayIconEvent, state: WindowState)
    ensures
        is_toggle_click(event) ==> window_after(Input::Tray(event), Some(state)).unwrap().is_visible()
            != state.is_visible(),
        !is_toggle_click(event) ==> calls_of(Input::Tray(event), Some(state)) == Seq::<
            WindowOp,
        >::empty() && window_after(Input::Tray(event), Some(state)) == Some(state),
        window_after(Input::Tray(event), Some(state)).unwrap().is_visible() != state.is_visible()
            <==> is_toggle_click(event),
{
    if is_toggle_click(event) {
        lemma_toggle_flips(Input::Tray(event), state);
    }
}

/// Without a main window nothing happens to any window: whatever the input,
/// no window call is issued and no window comes into being. The router learns
/// of the absence from the lookup and ends the handling there, for every task.
pub proof fn lemma_absent_window_is_left_alone(input: Input, task: Task)
    ensures
        calls_of(input, None) == Seq::<WindowOp>::empty(),
        window_after(input, None) == None::<WindowState>,
        next_step(Phase::Resolving(task), Reply::Resolved(false)) == (Phase::Finished, Request::Done),
{
}

/// The quit entry ends the process with status 0, whatever the window's
/// state and whether or not there is a window. It is the first and only step
/// of the handling, no window call goes with it, and no other input ends the
/// process.
pub proof fn lemma_quit_exits_with_zero(input: Input, window: Option<WindowState>)
    ensures
        action_of("quit"@) == MenuAction::Quit,
        exit_of(Input::Menu(MenuAction::Quit)) == Some(0i32),
        first_step(Task::Quit) == (Phase::Finished, Request::Exit(0i32)),
        calls_of(Input::Menu(MenuAction::Quit), window) == Seq::<WindowOp>::empty(),
        exit_of(input).is_some() <==> input == Input::Menu(MenuAction::Quit),
{
    lemma_menu_ids_recognized("quit"@);
}

/// A second launch brings the window that exists to the front and makes no
/// other: the window is shown and focused and ends up visible with the focus,
/// whatever its state was. Where there is no window, none comes into being.
/// The process goes on.
pub proof fn lemma_second_launch_fronts_window(state: WindowState)
    ensures
        calls_of(Input::SecondLaunch, Some(state)) == seq![WindowOp::Show, WindowOp::SetFocus],
        window_after(Input::SecondLaunch, Some(state)) == Some(WindowState::Focused),
        WindowState::Focused.is_visible() && WindowState::Focused.is_focused(),
        window_after(Input::SecondLaunch, None) == None::<WindowState>,
        exit_of(Input::SecondLaunch) == None::<i32>,
{
    lemma_plan_effect(Plan::ShowAndFocus, state);
}

} // verus!
