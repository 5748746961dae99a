use wavestack_desktop::menu::{menu_action, MenuAction};
use wavestack_desktop::router::{begin, play, resume, route, Input, Phase, Reply, Request, Task};
use wavestack_desktop::tray::{MouseButton, MouseButtonState, TrayIconEvent};
use wavestack_desktop::window::{Plan, Route, WindowOp, WindowState};

const STATES: [WindowState; 3] = [WindowState::Hidden, WindowState::Shown, WindowState::Focused];

fn left_release() -> TrayIconEvent {
    TrayIconEvent::Click { button: MouseButton::Left, button_state: MouseButtonState::Up }
}

fn pointer_events() -> Vec<TrayIconEvent> {
    let mut events = Vec::new();
    for button in [MouseButton::Left, MouseButton::Right, MouseButton::Middle] {
        for button_state in [MouseButtonState::Up, MouseButtonState::Down] {
            events.push(TrayIconEvent::Click { button, button_state });
        }
        events.push(TrayIconEvent::DoubleClick { button });
    }
    events.push(TrayIconEvent::Enter);
    events.push(TrayIconEvent::Move);
    events.push(TrayIconEvent::Leave);
    events.push(TrayIconEvent::Other);
    events
}

fn inputs() -> Vec<Input> {
    let mut all = vec![
        Input::Menu(MenuAction::Show),
        Input::Menu(MenuAction::Upload),
        Input::Menu(MenuAction::Quit),
        Input::Menu(MenuAction::Unrecognized),
        Input::ToggleCommand,
        Input::SecondLaunch,
    ];
    for event in pointer_events() {
        all.push(Input::Tray(event));
    }
    all
}

/// Drives the router as a host would: `found` answers the lookup, `visible`
/// the visibility query, and every window call is reported as attempted.
fn requests(input: Input, found: bool, visible: Option<bool>) -> Vec<Request> {
    let mut seen = Vec::new();
    let (mut phase, mut request) = begin(input);
    loop {
        seen.push(request);
        let reply = match request {
            Request::Done | Request::Exit(_) => break,
            Request::ResolveWindow => Reply::Resolved(found),
            Request::QueryVisibility => Reply::Visibility(visible),
            Request::Window(_) => Reply::Attempted,
        };
        let step = resume(phase, reply);
        phase = step.0;
        request = step.1;
        assert!(seen.len() < 10);
    }
    assert_eq!(phase, Phase::Finished);
    seen
}

#[test]
fn inputs_map_to_their_tasks() {
    assert_eq!(route(Input::Menu(MenuAction::Show)), Task::Front);
    assert_eq!(route(Input::Menu(MenuAction::Upload)), Task::Upload);
    assert_eq!(route(Input::Menu(MenuAction::Quit)), Task::Quit);
    assert_eq!(route(Input::Menu(MenuAction::Unrecognized)), Task::Nothing);
    assert_eq!(route(Input::ToggleCommand), Task::Toggle);
    assert_eq!(route(Input::SecondLaunch), Task::Front);
    assert_eq!(route(Input::Tray(left_release())), Task::Toggle);
}

#[test]
fn pointer_events_other_than_left_release_ask_for_nothing() {
    for event in pointer_events() {
        if event != left_release() {
            assert_eq!(route(Input::Tray(event)), Task::Nothing);
        }
    }
}

#[test]
fn show_entry_resolves_then_shows_then_focuses() {
    for visible in [None, Some(false), Some(true)] {
        assert_eq!(
            requests(Input::Menu(menu_action("show")), true, visible),
            vec![
                Request::ResolveWindow,
                Request::Window(WindowOp::Show),
                Request::Window(WindowOp::SetFocus),
                Request::Done,
            ]
        );
    }
}

#[test]
fn upload_entry_navigates_before_show_and_focus() {
    let seen = requests(Input::Menu(menu_action("upload")), true, Some(true));
    assert_eq!(
        seen,
        vec![
            Request::ResolveWindow,
            Request::Window(WindowOp::Navigate(Route::Uploads)),
            Request::Window(WindowOp::Show),
            Request::Window(WindowOp::SetFocus),
            Request::Done,
        ]
    );
    let at = |wanted: Request| seen.iter().position(|r| *r == wanted).unwrap();
    assert!(at(Request::Window(WindowOp::Navigate(Route::Uploads))) < at(Request::Window(WindowOp::Show)));
    assert!(at(Request::Window(WindowOp::Show)) < at(Request::Window(WindowOp::SetFocus)));
}

#[test]
fn upload_entry_navigates_first_whatever_the_window_state() {
    for state in STATES {
        let outcome = play(Input::Menu(MenuAction::Upload), Some(state));
        assert_eq!(
            outcome.calls,
            vec![WindowOp::Navigate(Route::Uploads), WindowOp::Show, WindowOp::SetFocus]
        );
        assert_eq!(outcome.window, Some(WindowState::Focused));
        assert_eq!(outcome.exit, None);
    }
}

#[test]
fn quit_entry_exits_with_status_zero_at_once() {
    for found in [false, true] {
        for visible in [None, Some(false), Some(true)] {
            assert_eq!(
                requests(Input::Menu(menu_action("quit")), found, visible),
                vec![Request::Exit(0)]
            );
        }
    }
    assert_eq!(begin(Input::Menu(MenuAction::Quit)), (Phase::Finished, Request::Exit(0)));
}

#[test]
fn quit_exits_with_zero_whatever_the_window_state() {
    let outcome = play(Input::Menu(MenuAction::Quit), None);
    assert_eq!(outcome.exit, Some(0));
    assert_eq!(outcome.window, None);
    assert!(outcome.calls.is_empty());
    for state in STATES {
        let outcome = play(Input::Menu(MenuAction::Quit), Some(state));
        assert_eq!(outcome.exit, Some(0));
        assert_eq!(outcome.window, Some(state));
        assert!(outcome.calls.is_empty());
    }
}

#[test]
fn only_quit_ends_the_process() {
    for input in inputs() {
        for window in [None, Some(WindowState::Hidden), Some(WindowState::Focused)] {
            let expected = if input == Input::Menu(MenuAction::Quit) { Some(0) } else { None };
            assert_eq!(play(input, window).exit, expected);
        }
    }
}

#[test]
fn unknown_entry_makes_no_call() {
    assert_eq!(requests(Input::Menu(menu_action("settings")), true, Some(true)), vec![Request::Done]);
    assert_eq!(begin(Input::Menu(MenuAction::Unrecognized)), (Phase::Finished, Request::Done));
}

#[test]
fn toggle_command_hides_a_visible_window() {
    assert_eq!(
        requests(Input::ToggleCommand, true, Some(true)),
        vec![
            Request::ResolveWindow,
            Request::QueryVisibility,
            Request::Window(WindowOp::Hide),
            Request::Done,
        ]
    );
}

#[test]
fn toggle_command_shows_and_focuses_a_hidden_window() {
    assert_eq!(
        requests(Input::ToggleCommand, true, Some(false)),
        vec![
            Request::ResolveWindow,
            Request::QueryVisibility,
            Request::Window(WindowOp::Show),
            Request::Window(WindowOp::SetFocus),
            Request::Done,
        ]
    );
}

#[test]
fn toggle_treats_a_failed_query_as_not_visible() {
    for input in [Input::ToggleCommand, Input::Tray(left_release())] {
        assert_eq!(
            requests(input, true, None),
            vec![
                Request::ResolveWindow,
                Request::QueryVisibility,
                Request::Window(WindowOp::Show),
                Request::Window(WindowOp::SetFocus),
                Request::Done,
            ]
        );
    }
}

#[test]
fn tray_left_release_handles_like_the_toggle_command() {
    for found in [false, true] {
        for visible in [None, Some(false), Some(true)] {
            assert_eq!(
                requests(Input::Tray(left_release()), found, visible),
                requests(Input::ToggleCommand, found, visible)
            );
        }
    }
}

#[test]
fn tray_left_release_toggles_visibility() {
    for state in STATES {
        let outcome = play(Input::Tray(left_release()), Some(state));
        assert_eq!(outcome.window.unwrap().visible(), !state.visible());
    }
    assert_eq!(
        play(Input::Tray(left_release()), Some(WindowState::Hidden)).window,
        Some(WindowState::Focused)
    );
    assert_eq!(
        play(Input::Tray(left_release()), Some(WindowState::Shown)).window,
        Some(WindowState::Hidden)
    );
}

#[test]
fn other_pointer_events_change_nothing() {
    for event in pointer_events() {
        if event == left_release() {
            continue;
        }
        assert_eq!(requests(Input::Tray(event), true, Some(true)), vec![Request::Done]);
        for state in STATES {
            let outcome = play(Input::Tray(event), Some(state));
            assert_eq!(outcome.window, Some(state));
            assert!(outcome.calls.is_empty());
            assert_eq!(outcome.exit, None);
        }
    }
}

#[test]
fn left_press_and_right_click_change_nothing() {
    let press = TrayIconEvent::Click { button: MouseButton::Left, button_state: MouseButtonState::Down };
    let right = TrayIconEvent::Click { button: MouseButton::Right, button_state: MouseButtonState::Up };
    for event in [press, right] {
        let outcome = play(Input::Tray(event), Some(WindowState::Focused));
        assert_eq!(outcome.window, Some(WindowState::Focused));
        assert!(outcome.calls.is_empty());
    }
}

#[test]
fn toggling_twice_restores_visibility() {
    for state in STATES {
        let once = play(Input::ToggleCommand, Some(state)).window;
        let twice = play(Input::ToggleCommand, once).window;
        assert_ne!(once.unwrap().visible(), state.visible());
        assert_eq!(twice.unwrap().visible(), state.visible());
    }
}

#[test]
fn visibility_after_n_toggles_follows_parity() {
    let toggles = [Input::ToggleCommand, Input::Tray(left_release())];
    for state in STATES {
        let mut window = Some(state);
        for n in 1..=25usize {
            window = play(toggles[n % 2], window).window;
            let expected = if n % 2 == 1 { !state.visible() } else { state.visible() };
            assert_eq!(window.unwrap().visible(), expected);
        }
    }
}

#[test]
fn absent_window_ends_every_handling_without_a_call() {
    for input in inputs() {
        for visible in [None, Some(false), Some(true)] {
            let seen = requests(input, false, visible);
            for request in seen {
                assert!(!matches!(request, Request::Window(_) | Request::QueryVisibility));
            }
        }
    }
    assert_eq!(
        requests(Input::ToggleCommand, false, Some(true)),
        vec![Request::ResolveWindow, Request::Done]
    );
    assert_eq!(
        requests(Input::Menu(MenuAction::Upload), false, None),
        vec![Request::ResolveWindow, Request::Done]
    );
}

#[test]
fn absent_window_stays_absent() {
    for input in inputs() {
        let outcome = play(input, None);
        assert_eq!(outcome.window, None);
        assert!(outcome.calls.is_empty());
    }
}

#[test]
fn second_launch_brings_the_window_to_front() {
    assert_eq!(
        requests(Input::SecondLaunch, true, None),
        vec![
            Request::ResolveWindow,
            Request::Window(WindowOp::Show),
            Request::Window(WindowOp::SetFocus),
            Request::Done,
        ]
    );
    for state in STATES {
        let outcome = play(Input::SecondLaunch, Some(state));
        assert_eq!(outcome.window, Some(WindowState::Focused));
        assert!(outcome.window.unwrap().visible());
        assert!(outcome.window.unwrap().focused());
        assert_eq!(outcome.calls, vec![WindowOp::Show, WindowOp::SetFocus]);
        assert_eq!(outcome.exit, None);
    }
}

#[test]
fn second_launch_makes_no_window() {
    let outcome = play(Input::SecondLaunch, None);
    assert_eq!(outcome.window, None);
    assert!(outcome.calls.is_empty());
    assert_eq!(requests(Input::SecondLaunch, false, None), vec![Request::ResolveWindow, Request::Done]);
}

#[test]
fn window_is_looked_up_anew_for_every_input() {
    for input in inputs() {
        let task = route(input);
        let first = begin(input).1;
        if task == Task::Nothing {
            assert_eq!(first, Request::Done);
        } else if task == Task::Quit {
            assert_eq!(first, Request::Exit(0));
        } else {
            assert_eq!(begin(input), (Phase::Resolving(task), Request::ResolveWindow));
        }
    }
}

#[test]
fn every_call_is_issued_once() {
    for input in inputs() {
        for visible in [None, Some(false), Some(true)] {
            let seen = requests(input, true, visible);
            for (i, request) in seen.iter().enumerate() {
                assert!(!seen[..i].contains(request));
            }
        }
    }
}

#[test]
fn a_reply_that_answers_nothing_ends_the_handling() {
    let done = (Phase::Finished, Request::Done);
    assert_eq!(resume(Phase::Finished, Reply::Attempted), done);
    assert_eq!(resume(Phase::Finished, Reply::Resolved(true)), done);
    assert_eq!(resume(Phase::Querying, Reply::Attempted), done);
    assert_eq!(resume(Phase::Querying, Reply::Resolved(true)), done);
    assert_eq!(resume(Phase::Resolving(Task::Toggle), Reply::Visibility(Some(true))), done);
    assert_eq!(resume(Phase::Resolving(Task::Front), Reply::Attempted), done);
    assert_eq!(resume(Phase::Resolving(Task::Quit), Reply::Resolved(true)), done);
    assert_eq!(resume(Phase::Resolving(Task::Nothing), Reply::Resolved(true)), done);
    let performing = Phase::Performing { plan: Plan::ShowAndFocus, issued: 1 };
    assert_eq!(resume(performing, Reply::Resolved(true)), done);
    assert_eq!(resume(performing, Reply::Visibility(None)), done);
}

#[test]
fn a_plan_that_is_used_up_ends_the_handling() {
    let done = (Phase::Finished, Request::Done);
    assert_eq!(resume(Phase::Performing { plan: Plan::Hide, issued: 1 }, Reply::Attempted), done);
    assert_eq!(resume(Phase::Performing { plan: Plan::Hide, issued: 7 }, Reply::Attempted), done);
    assert_eq!(
        resume(Phase::Performing { plan: Plan::ShowAndFocus, issued: usize::MAX }, Reply::Attempted),
        done
    );
}

#[test]
fn performing_goes_through_the_plan_call_by_call() {
    let plan = Plan::NavigateThenShow(Route::Uploads);
    assert_eq!(
        resume(Phase::Performing { plan, issued: 1 }, Reply::Attempted),
        (Phase::Performing { plan, issued: 2 }, Request::Window(WindowOp::Show))
    );
    assert_eq!(
        resume(Phase::Performing { plan, issued: 2 }, Reply::Attempted),
        (Phase::Performing { plan, issued: 3 }, Request::Window(WindowOp::SetFocus))
    );
    assert_eq!(
        resume(Phase::Performing { plan, issued: 3 }, Reply::Attempted),
        (Phase::Finished, Request::Done)
    );
}

#[test]
fn play_issues_what_the_router_requests() {
    for input in inputs() {
        for state in STATES {
            let outcome = play(input, Some(state));
            let mut expected = Vec::new();
            for request in requests(input, true, Some(state.visible())) {
                if let Request::Window(op) = request {
                    expected.push(op);
                }
            }
            assert_eq!(outcome.calls, expected);
            assert_eq!(outcome.window, Some(state.apply_all(&expected)));
        }
    }
}
