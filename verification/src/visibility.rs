//! The visibility controller of the managed window.
//!
//! The controller keeps no record of the window. Each operation is handed a
//! fresh [`WindowProbe`], taken by the host inside its critical section, and
//! answers with the requests the host then sends to the window system, in
//! order and to the end, whether or not an earlier one failed.
//!
//! The front-end is notified (`focus-input`) only when an operation takes the
//! window from hidden to visible; showing a window that is already visible
//! merely asks for focus again.

use vstd::prelude::*;

verus! {

/// Name of the notification sent to the front-end when the window appears.
pub const FOCUS_INPUT_EVENT: &'static str = "focus-input";

/// Label under which the host knows the managed window.
pub const MAIN_WINDOW_LABEL: &'static str = "main";

/// Whether the managed window is on screen.
#[derive(Clone, Copy, Debug, PartialEq, Eq, Structural)]
pub enum Visibility {
    Visible,
    Hidden,
}

/// What the host found when it looked the managed window up.
#[derive(Clone, Copy, Debug, PartialEq, Eq, Structural)]
pub enum WindowProbe {
    /// There is no managed window: not created yet, or destroyed.
    Absent,
    /// The window exists, but the host could not tell whether it is visible.
    Unreadable,
    /// The window exists and reported its visibility.
    Reported(Visibility),
}

/// One request to the window system.
#[derive(Clone, Copy, Debug, PartialEq, Eq, Structural)]
pub enum WindowAction {
    /// Put the window on screen.
    Show,
    /// Give the window input focus.
    SetFocus,
    /// Send `focus-input` to the front-end.
    EmitFocusInput,
    /// Take the window off screen.
    Hide,
}

/// The part of the managed window's state that the controller's requests change.
#[derive(Clone, Copy, Debug, PartialEq, Eq, Structural)]
pub struct WindowState {
    pub visibility: Visibility,
    pub focused: bool,
}

impl WindowProbe {
    /// The visibility the controller goes by. A window that cannot be read
    /// counts as hidden, so that the hotkey always brings the launcher up.
    pub open spec fn assumed(self) -> Option<Visibility> {
        match self {
            WindowProbe::Absent => None,
            WindowProbe::Unreadable => Some(Visibility::Hidden),
            WindowProbe::Reported(visibility) => Some(visibility),
        }
    }

    /// The probe of a window whose visibility can be read.
    pub open spec fn of(window: Option<WindowState>) -> WindowProbe {
        match window {
            None => WindowProbe::Absent,
            Some(state) => WindowProbe::Reported(state.visibility),
        }
    }
}

impl WindowAction {
    /// The state of a window after the host has carried the request out.
    pub open spec fn effect(self, window: WindowState) -> WindowState {
        match self {
            WindowAction::Show => WindowState { visibility: Visibility::Visible, focused: window.focused },
            WindowAction::SetFocus => WindowState { visibility: window.visibility, focused: true },
            WindowAction::EmitFocusInput => window,
            WindowAction::Hide => WindowState { visibility: Visibility::Hidden, focused: false },
        }
    }
}

/// The state of a window after the host has carried out `plan`, first request first.
pub open spec fn outcome(plan: Seq<WindowAction>, window: WindowState) -> WindowState
    decreases plan.len(),
{
    if plan.len() == 0 {
        window
    } else {
        outcome(plan.drop_first(), plan[0].effect(window))
    }
}

/// How often `action` occurs in `plan`.
pub open spec fn occurrences(plan: Seq<WindowAction>, action: WindowAction) -> nat
    decreases plan.len(),
{
    if plan.len() == 0 {
        0
    } else {
        let rest = occurrences(plan.drop_first(), action);
        if plan[0] == action {
            rest + 1
        } else {
            rest
        }
    }
}

/// How many times `plan` notifies the front-end.
pub open spec fn notifications(plan: Seq<WindowAction>) -> nat {
    occurrences(plan, WindowAction::EmitFocusInput)
}

/// How many times `plan` puts the window on screen or takes it off.
pub open spec fn transitions(plan: Seq<WindowAction>) -> nat {
    occurrences(plan, WindowAction::Show) + occurrences(plan, WindowAction::Hide)
}

/// What `show` asks of the host.
pub open spec fn show_actions(probe: WindowProbe) -> Seq<WindowAction> {
    match probe.assumed() {
        None => seq![],
        Some(Visibility::Visible) => seq![WindowAction::SetFocus],
        Some(Visibility::Hidden) => seq![
            WindowAction::Show,
            WindowAction::SetFocus,
            WindowAction::EmitFocusInput,
        ],
    }
}

/// What `hide` asks of the host.
pub open spec fn hide_actions(probe: WindowProbe) -> Seq<WindowAction> {
    match probe {
        WindowProbe::Absent => seq![],
        _ => seq![WindowAction::Hide],
    }
}

/// What `toggle` asks of the host.
pub open spec fn toggle_actions(probe: WindowProbe) -> Seq<WindowAction> {
    match probe.assumed() {
        Some(Visibility::Visible) => hide_actions(probe),
        _ => show_actions(probe),
    }
}

/// What bringing the launcher up at startup asks of the host.
pub open spec fn reveal_actions(probe: WindowProbe) -> Seq<WindowAction> {
    match probe {
        WindowProbe::Absent => seq![],
        _ => seq![WindowAction::Show, WindowAction::SetFocus],
    }
}

/// Brings the launcher up at startup: the window is shown and focused
/// whatever it reported, and the front-end, which may not be listening yet,
/// is not notified.
pub fn reveal_plan(probe: WindowProbe) -> (plan: Vec<WindowAction>)
    ensures
        plan@ == reveal_actions(probe),
{
    match probe {
        WindowProbe::Absent => Vec::new(),
        _ => vec![WindowAction::Show, WindowAction::SetFocus],
    }
}

/// Makes the window visible and gives it focus. A window that is already
/// visible is only focused again, and the front-end is not notified.
pub fn show_plan(probe: WindowProbe) -> (plan: Vec<WindowAction>)
    ensures
        plan@ == show_actions(probe),
{
    match probe {
        WindowProbe::Absent => Vec::new(),
        WindowProbe::Reported(Visibility::Visible) => vec![WindowAction::SetFocus],
        _ => vec![WindowAction::Show, WindowAction::SetFocus, WindowAction::EmitFocusInput],
    }
}

/// Hides the window. The request is sent whatever the probe reported, so a
/// stale or unreadable probe cannot leave the window on screen.
pub fn hide_plan(probe: WindowProbe) -> (plan: Vec<WindowAction>)
    ensures
        plan@ == hide_actions(probe),
{
    match probe {
        WindowProbe::Absent => Vec::new(),
        _ => vec![WindowAction::Hide],
    }
}

/// Hides a visible window and shows any other.
pub fn toggle_plan(probe: WindowProbe) -> (plan: Vec<WindowAction>)
    ensures
        plan@ == toggle_actions(probe),
{
    match probe {
        WindowProbe::Reported(Visibility::Visible) => hide_plan(probe),
        _ => show_plan(probe),
    }
}

impl WindowProbe {
    /// Reads a window whose visibility can be told.
    pub fn read(window: Option<WindowState>) -> (probe: WindowProbe)
        ensures
            probe == WindowProbe::of(window),
    {
        match window {
            None => WindowProbe::Absent,
            Some(state) => WindowProbe::Reported(state.visibility),
        }
    }
}

impl WindowState {
    /// The window after one request has been carried out.
    pub fn apply(self, action: WindowAction) -> (next: WindowState)
        ensures
            next == action.effect(self),
    {
        match action {
            WindowAction::Show => WindowState { visibility: Visibility::Visible, focused: self.focused },
            WindowAction::SetFocus => WindowState { visibility: self.visibility, focused: true },
            WindowAction::EmitFocusInput => self,
            WindowAction::Hide => WindowState { visibility: Visibility::Hidden, focused: false },
        }
    }

    /// The window after every request of `plan` has been carried out in order.
    pub fn carry_out(self, plan: &Vec<WindowAction>) -> (next: WindowState)
        ensures
            next == outcome(plan@, self),
    {
        let mut current = self;
        let mut done: usize = 0;
        assert(plan@.skip(0) == plan@);
        while done < plan.len()
            invariant
                done <= plan.len(),
                outcome(plan@.skip(done as int), current) == outcome(plan@, self),
            decreases plan.len() - done,
        {
            proof {
                let rest = plan@.skip(done as int);
                assert(rest.drop_first() == plan@.skip(done + 1));
            }
            current = current.apply(plan[done]);
            done = done + 1;
        }
        current
    }
}

/// What a request to the host reported: success, or the failure in words.
pub open spec fn reported(outcome: Result<(), String>) -> Result<(), Seq<char>> {
    match outcome {
        Ok(_) => Ok(()),
        Err(reason) => Err(reason@),
    }
}

/// What carrying out a plan amounts to, given the report of each request in
/// order: success if every request succeeded, else the first failure.
pub open spec fn first_failure_of(reports: Seq<Result<(), String>>) -> Result<(), Seq<char>>
    decreases reports.len(),
{
    if reports.len() == 0 {
        Ok(())
    } else if reports[0] is Err {
        reported(reports[0])
    } else {
        first_failure_of(reports.drop_first())
    }
}

/// Sums up the reports of a plan's requests. The host sends every request
/// of a plan even after one has failed; only the first failure is passed on.
pub fn first_failure(reports: &Vec<Result<(), String>>) -> (summary: Result<(), String>)
    ensures
        reported(summary) == first_failure_of(reports@),
{
    let mut at: usize = 0;
    assert(reports@.skip(0) == reports@);
    while at < reports.len()
        invariant
            at <= reports.len(),
            first_failure_of(reports@.skip(at as int)) == first_failure_of(reports@),
        decreases reports.len() - at,
    {
        proof {
            assert(reports@.skip(at as int).drop_first() == reports@.skip(at + 1));
            assert(reports@.skip(at as int)[0] == reports@[at as int]);
        }
        match &reports[at] {
            Err(reason) => {
                return Err(reason.clone());
            },
            Ok(_) => {},
        }
        at = at + 1;
    }
    Ok(())
}

/// The managed window, if there is one, after `plan` has been carried out.
pub open spec fn carried_out(plan: Seq<WindowAction>, window: Option<WindowState>) -> Option<WindowState> {
    match window {
        None => None,
        Some(state) => Some(outcome(plan, state)),
    }
}

/// The managed window after `show`.
pub open spec fn shown(window: Option<WindowState>) -> Option<WindowState> {
    carried_out(show_actions(WindowProbe::of(window)), window)
}

/// The managed window after `hide`.
pub open spec fn hidden(window: Option<WindowState>) -> Option<WindowState> {
    carried_out(hide_actions(WindowProbe::of(window)), window)
}

/// The managed window after `toggle`.
pub open spec fn toggled(window: Option<WindowState>) -> Option<WindowState> {
    carried_out(toggle_actions(WindowProbe::of(window)), window)
}

/// The managed window after `times` calls of `toggle`, one after the other.
pub open spec fn toggled_times(window: Option<WindowState>, times: nat) -> Option<WindowState>
    decreases times,
{
    if times == 0 {
        window
    } else {
        toggled_times(toggled(window), (times - 1) as nat)
    }
}

/// The visibility of the managed window, if there is one.
pub open spec fn visibility_of(window: Option<WindowState>) -> Option<Visibility> {
    match window {
        None => None,
        Some(state) => Some(state.visibility),
    }
}

/// The other visibility.
pub open spec fn opposite(visibility: Visibility) -> Visibility {
    match visibility {
        Visibility::Visible => Visibility::Hidden,
        Visibility::Hidden => Visibility::Visible,
    }
}

/// Hiding is idempotent: after `hide` the window is hidden, and a second
/// `hide` changes nothing and asks for no notification.
pub proof fn lemma_hide_idempotent(window: Option<WindowState>)
    ensures
        window is Some ==> visibility_of(hidden(window)) == Some(Visibility::Hidden),
        hidden(hidden(window)) == hidden(window),
        notifications(hide_actions(WindowProbe::of(window))) == 0,
{
    reveal_with_fuel(outcome, 3);
    reveal_with_fuel(occurrences, 3);
}

/// Showing is idempotent: after `show` the window is visible and focused, and
/// a second `show` changes nothing and does not notify the front-end again.
pub proof fn lemma_show_idempotent(window: Option<WindowState>)
    ensures
        window is Some ==> shown(window) == Some(
            WindowState { visibility: Visibility::Visible, focused: true },
        ),
        shown(shown(window)) == shown(window),
        notifications(show_actions(WindowProbe::of(shown(window)))) == 0,
{
    reveal_with_fuel(outcome, 5);
    reveal_with_fuel(occurrences, 5);
}

/// The front-end is notified exactly when `show` or `toggle` takes the window
/// from hidden to visible, and then once.
pub proof fn lemma_notified_on_reveal_only(window: Option<WindowState>)
    ensures
        notifications(show_actions(WindowProbe::of(window))) == (if visibility_of(window) == Some(
            Visibility::Hidden,
        ) {
            1nat
        } else {
            0nat
        }),
        notifications(toggle_actions(WindowProbe::of(window))) == notifications(
            show_actions(WindowProbe::of(window)),
        ),
{
    reveal_with_fuel(occurrences, 5);
}

/// One `toggle` changes the visibility of an existing window exactly once,
/// to the opposite of what it was; without a window it does nothing.
pub proof fn lemma_toggle_flips_once(window: Option<WindowState>)
    ensures
        visibility_of(toggled(window)) == match visibility_of(window) {
            None => None,
            Some(visibility) => Some(opposite(visibility)),
        },
        transitions(toggle_actions(WindowProbe::of(window))) == (if window is Some {
            1nat
        } else {
            0nat
        }),
{
    reveal_with_fuel(outcome, 5);
    reveal_with_fuel(occurrences, 5);
}

/// Toggling twice brings the window back to the visibility it started with.
pub proof fn lemma_toggle_involution(window: Option<WindowState>)
    ensures
        visibility_of(toggled(toggled(window))) == visibility_of(window),
{
    lemma_toggle_flips_once(window);
    lemma_toggle_flips_once(toggled(window));
}

/// Any number of toggles, taken one after the other, leaves the window as it
/// was if the number is even and flipped if it is odd. Started from a visible
/// window: visible after an even number, hidden after an odd one.
pub proof fn lemma_toggle_parity(window: Option<WindowState>, times: nat)
    ensures
        visibility_of(toggled_times(window, times)) == match visibility_of(window) {
            None => None,
            Some(visibility) => Some(
                if times % 2 == 0 {
                    visibility
                } else {
                    opposite(visibility)
                },
            ),
        },
    decreases times,
{
    if times > 0 {
        lemma_toggle_flips_once(window);
        lemma_toggle_parity(toggled(window), (times - 1) as nat);
    }
}

} // verus!
