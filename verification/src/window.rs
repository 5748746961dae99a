//! The main window as the shell sees it: the calls the shell may issue on it,
//! a model of what those calls do when nothing interferes, and the visibility
//! controller that picks the calls.

use vstd::prelude::*;

verus! {

/// A front-end route that the shell can send the main window to.
#[derive(Clone, Copy, Debug, PartialEq, Eq, Structural)]
pub enum Route {
    /// The page on which uploads are managed.
    Uploads,
}

/// One call on the main window. Every call is best effort: it is attempted
/// once and its result is dropped.
#[derive(Clone, Copy, Debug, PartialEq, Eq, Structural)]
pub enum WindowOp {
    /// Run the navigation script for a route in the window's script context.
    Navigate(Route),
    /// Make the window visible.
    Show,
    /// Give the window the input focus.
    SetFocus,
    /// Make the window invisible.
    Hide,
}

/// A fixed list of calls that is issued on the window as a whole.
#[derive(Clone, Copy, Debug, PartialEq, Eq, Structural)]
pub enum Plan {
    /// Show the window, then focus it.
    ShowAndFocus,
    /// Hide the window.
    Hide,
    /// Navigate to a route, then show the window, then focus it.
    NavigateThenShow(Route),
}

/// What the window looks like to the user. A hidden window never has the
/// focus, so three states are all there is.
#[derive(Clone, Copy, Debug, PartialEq, Eq, Structural)]
pub enum WindowState {
    /// Not on screen.
    Hidden,
    /// On screen, without the input focus.
    Shown,
    /// On screen, with the input focus.
    Focused,
}

/// The label under which the main window is looked up.
pub open spec fn main_window_text() -> Seq<char> {
    "main"@
}

/// The path of a route inside the front-end.
pub open spec fn route_path_text(route: Route) -> Seq<char> {
    match route {
        Route::Uploads => "/uploads"@,
    }
}

/// The script that sends the front-end to a route.
pub open spec fn navigation_script_text(route: Route) -> Seq<char> {
    match route {
        Route::Uploads => "window.location.href='/uploads'"@,
    }
}

/// The plan of `toggle` for a reported visibility: a window that reported
/// itself visible is hidden, every other window is shown and focused. A query
/// that failed (`None`) counts as "not visible".
pub open spec fn toggle_plan(visible: Option<bool>) -> Plan {
    if visible == Some(true) {
        Plan::Hide
    } else {
        Plan::ShowAndFocus
    }
}

impl Plan {
    /// The calls of the plan, in the order in which they are issued.
    pub open spec fn ops(self) -> Seq<WindowOp> {
        match self {
            Plan::ShowAndFocus => seq![WindowOp::Show, WindowOp::SetFocus],
            Plan::Hide => seq![WindowOp::Hide],
            Plan::NavigateThenShow(route) => seq![
                WindowOp::Navigate(route),
                WindowOp::Show,
                WindowOp::SetFocus,
            ],
        }
    }

    /// The call at position `i` of the plan, or `None` once the plan is used up.
    pub fn op_at(self, i: usize) -> (op: Option<WindowOp>)
        ensures
            op == (if i < self.ops().len() {
                Some(self.ops()[i as int])
            } else {
                None
            }),
    {
        match self {
            Plan::ShowAndFocus => {
                if i == 0 {
                    Some(WindowOp::Show)
                } else if i == 1 {
                    Some(WindowOp::SetFocus)
                } else {
                    None
                }
            },
            Plan::Hide => {
                if i == 0 {
                    Some(WindowOp::Hide)
                } else {
                    None
                }
            },
            Plan::NavigateThenShow(route) => {
                if i == 0 {
                    Some(WindowOp::Navigate(route))
                } else if i == 1 {
                    Some(WindowOp::Show)
                } else if i == 2 {
                    Some(WindowOp::SetFocus)
                } else {
                    None
                }
            },
        }
    }

    /// All calls of the plan, in order.
    pub fn to_vec(self) -> (calls: Vec<WindowOp>)
        ensures
            calls@ == self.ops(),
    {
        let mut calls: Vec<WindowOp> = Vec::new();
        let mut i: usize = 0;
        loop
            invariant
                i == calls@.len(),
                i <= self.ops().len(),
                calls@ == self.ops().subrange(0, i as int),
            ensures
                calls@ == self.ops(),
            decreases self.ops().len() - i,
        {
            match self.op_at(i) {
                Some(op) => {
                    calls.push(op);
                    i = i + 1;
                },
                None => {
                    break ;
                },
            }
        }
        calls
    }
}

impl WindowState {
    /// Whether the window is on screen.
    pub open spec fn is_visible(self) -> bool {
        self != WindowState::Hidden
    }

    /// Whether the window has the input focus.
    pub open spec fn is_focused(self) -> bool {
        self == WindowState::Focused
    }

    /// The state after one call that took effect. Showing keeps the focus as
    /// it was, focusing reaches only a window that is on screen, hiding takes
    /// the focus away, navigating changes neither.
    pub open spec fn after(self, op: WindowOp) -> WindowState {
        match op {
            WindowOp::Navigate(_) => self,
            WindowOp::Show => if self == WindowState::Hidden {
                WindowState::Shown
            } else {
                self
            },
            WindowOp::SetFocus => if self == WindowState::Hidden {
                WindowState::Hidden
            } else {
                WindowState::Focused
            },
            WindowOp::Hide => WindowState::Hidden,
        }
    }

    /// The state after a list of calls that all took effect, first call first.
    pub open spec fn after_all(self, ops: Seq<WindowOp>) -> WindowState
        decreases ops.len(),
    {
        if ops.len() == 0 {
            self
        } else {
            self.after_all(ops.drop_last()).after(ops.last())
        }
    }

    /// Whether the window is on screen.
    pub fn visible(self) -> (v: bool)
        ensures
            v == self.is_visible(),
    {
        match self {
            WindowState::Hidden => false,
            _ => true,
        }
    }

    /// Whether the window has the input focus.
    pub fn focused(self) -> (f: bool)
        ensures
            f == self.is_focused(),
    {
        match self {
            WindowState::Focused => true,
            _ => false,
        }
    }

    /// Carries out one call on the model.
    pub fn apply(self, op: WindowOp) -> (next: WindowState)
        ensures
            next == self.after(op),
    {
        match op {
            WindowOp::Navigate(_) => self,
            WindowOp::Show => match self {
                WindowState::Hidden => WindowState::Shown,
                _ => self,
            },
            WindowOp::SetFocus => match self {
                WindowState::Hidden => WindowState::Hidden,
                _ => WindowState::Focused,
            },
            WindowOp::Hide => WindowState::Hidden,
        }
    }

    /// Carries out a list of calls on the model, first call first.
    pub fn apply_all(self, ops: &Vec<WindowOp>) -> (next: WindowState)
        ensures
            next == self.after_all(ops@),
    {
        let mut state = self;
        let mut i: usize = 0;
        while i < ops.len()
            invariant
                i <= ops@.len(),
                state == self.after_all(ops@.subrange(0, i as int)),
            decreases ops@.len() - i,
        {
            proof {
                let done = ops@.subrange(0, i + 1);
                assert(done.drop_last() == ops@.subrange(0, i as int));
                assert(done.last() == ops@[i as int]);
            }
            state = state.apply(ops[i]);
            i = i + 1;
        }
        proof {
            assert(ops@.subrange(0, i as int) == ops@);
        }
        state
    }
}

/// The label under which the main window is looked up: `main`.
pub fn main_window_label() -> (label: &'static str)
    ensures
        label@ == main_window_text(),
{
    "main"
}

/// The path of a route inside the front-end.
pub fn route_path(route: Route) -> (path: &'static str)
    ensures
        path@ == route_path_text(route),
{
    match route {
        Route::Uploads => "/uploads",
    }
}

/// The script that sends the front-end to a route: an assignment of the
/// route's path to the window's location.
pub fn navigation_script(route: Route) -> (script: &'static str)
    ensures
        script@ == navigation_script_text(route),
{
    match route {
        Route::Uploads => "window.location.href='/uploads'",
    }
}

/// The calls that bring the window to the front, whatever its state.
pub fn show_and_focus() -> (plan: Plan)
    ensures
        plan == Plan::ShowAndFocus,
{
    Plan::ShowAndFocus
}

/// The call that takes the window off the screen, whatever its state.
pub fn hide_window() -> (plan: Plan)
    ensures
        plan == Plan::Hide,
{
    Plan::Hide
}

/// Picks the calls that flip the window's visibility, from what the window
/// reported of itself: `Some(v)` where the query answered `v`, `None` where
/// it failed.
pub fn toggle(visible: Option<bool>) -> (plan: Plan)
    ensures
        plan == toggle_plan(visible),
{
    match visible {
        Some(true) => hide_window(),
        _ => show_and_focus(),
    }
}

/// The navigation script assigns the route's path, in single quotes, to the
/// window's location.
pub proof fn lemma_script_assigns_path(route: Route)
    ensures
        navigation_script_text(route) == "window.location.href='"@ + route_path_text(route) + "'"@,
{
    reveal_strlit("window.location.href='/uploads'");
    reveal_strlit("window.location.href='");
    reveal_strlit("/uploads");
    reveal_strlit("'");
    assert(navigation_script_text(route) =~= "window.location.href='"@ + route_path_text(route)
        + "'"@);
}

/// A plan changes the model as its calls do, one after the other.
pub proof fn lemma_plan_effect(plan: Plan, state: WindowState)
    ensures
        state.after_all(Plan::ShowAndFocus.ops()) == WindowState::Focused,
        state.after_all(Plan::Hide.ops()) == WindowState::Hidden,
        state.after_all(plan.ops()).is_visible() == (plan != Plan::Hide),
        plan != Plan::Hide ==> state.after_all(plan.ops()) == WindowState::Focused,
{
    reveal_with_fuel(WindowState::after_all, 4);
    let front = Plan::ShowAndFocus.ops();
    assert(front.drop_last() == seq![WindowOp::Show]);
    assert(front.drop_last().drop_last() == Seq::<WindowOp>::empty());
    let hide = Plan::Hide.ops();
    assert(hide.drop_last() == Seq::<WindowOp>::empty());
    match plan {
        Plan::NavigateThenShow(route) => {
            let nav = plan.ops();
            assert(nav.drop_last() == seq![WindowOp::Navigate(route), WindowOp::Show]);
            assert(nav.drop_last().drop_last() == seq![WindowOp::Navigate(route)]);
            assert(nav.drop_last().drop_last().drop_last() == Seq::<WindowOp>::empty());
        },
        _ => {},
    }
}

} // verus!
