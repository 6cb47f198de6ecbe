use spotlight_web::visibility::{
    first_failure, hide_plan, reveal_plan, show_plan, toggle_plan, Visibility, WindowAction,
    WindowProbe,
    WindowState, FOCUS_INPUT_EVENT, MAIN_WINDOW_LABEL,
};

fn window(visibility: Visibility, focused: bool) -> WindowState {
    WindowState { visibility, focused }
}

fn notifications(plan: &[WindowAction]) -> usize {
    plan.iter().filter(|action| **action == WindowAction::EmitFocusInput).count()
}

fn transitions(plan: &[WindowAction]) -> usize {
    plan.iter()
        .filter(|action| **action == WindowAction::Show || **action == WindowAction::Hide)
        .count()
}

#[test]
fn names_known_to_the_host() {
    assert_eq!(FOCUS_INPUT_EVENT, "focus-input");
    assert_eq!(MAIN_WINDOW_LABEL, "main");
}

#[test]
fn toggle_hides_a_visible_window() {
    let plan = toggle_plan(WindowProbe::Reported(Visibility::Visible));
    assert_eq!(plan, vec![WindowAction::Hide]);
}

#[test]
fn toggle_shows_focuses_and_notifies_a_hidden_window() {
    let plan = toggle_plan(WindowProbe::Reported(Visibility::Hidden));
    assert_eq!(
        plan,
        vec![WindowAction::Show, WindowAction::SetFocus, WindowAction::EmitFocusInput]
    );
}

#[test]
fn toggle_takes_an_unreadable_window_for_hidden() {
    let plan = toggle_plan(WindowProbe::Unreadable);
    assert_eq!(
        plan,
        vec![WindowAction::Show, WindowAction::SetFocus, WindowAction::EmitFocusInput]
    );
}

#[test]
fn nothing_is_asked_of_a_missing_window() {
    assert_eq!(toggle_plan(WindowProbe::Absent), vec![]);
    assert_eq!(show_plan(WindowProbe::Absent), vec![]);
    assert_eq!(hide_plan(WindowProbe::Absent), vec![]);
    assert_eq!(reveal_plan(WindowProbe::Absent), vec![]);
}

#[test]
fn show_on_a_visible_window_only_asks_for_focus() {
    let plan = show_plan(WindowProbe::Reported(Visibility::Visible));
    assert_eq!(plan, vec![WindowAction::SetFocus]);
    assert_eq!(notifications(&plan), 0);
}

#[test]
fn show_on_a_hidden_window_notifies_once() {
    let plan = show_plan(WindowProbe::Reported(Visibility::Hidden));
    assert_eq!(
        plan,
        vec![WindowAction::Show, WindowAction::SetFocus, WindowAction::EmitFocusInput]
    );
    assert_eq!(notifications(&plan), 1);
}

#[test]
fn hide_is_sent_whatever_was_reported() {
    assert_eq!(hide_plan(WindowProbe::Reported(Visibility::Visible)), vec![WindowAction::Hide]);
    assert_eq!(hide_plan(WindowProbe::Reported(Visibility::Hidden)), vec![WindowAction::Hide]);
    assert_eq!(hide_plan(WindowProbe::Unreadable), vec![WindowAction::Hide]);
}

#[test]
fn reveal_shows_and_focuses_without_notifying() {
    for probe in [
        WindowProbe::Reported(Visibility::Visible),
        WindowProbe::Reported(Visibility::Hidden),
        WindowProbe::Unreadable,
    ] {
        let plan = reveal_plan(probe);
        assert_eq!(plan, vec![WindowAction::Show, WindowAction::SetFocus]);
        assert_eq!(notifications(&plan), 0);
    }
}

#[test]
fn each_request_has_its_effect() {
    let start = window(Visibility::Hidden, false);
    assert_eq!(start.apply(WindowAction::Show), window(Visibility::Visible, false));
    assert_eq!(start.apply(WindowAction::SetFocus), window(Visibility::Hidden, true));
    assert_eq!(start.apply(WindowAction::EmitFocusInput), start);
    let up = window(Visibility::Visible, true);
    assert_eq!(up.apply(WindowAction::Hide), window(Visibility::Hidden, false));
    assert_eq!(up.apply(WindowAction::Show), up);
}

#[test]
fn a_plan_is_carried_out_in_order() {
    let start = window(Visibility::Visible, true);
    let plan = vec![WindowAction::SetFocus, WindowAction::Hide, WindowAction::Show];
    assert_eq!(start.carry_out(&plan), window(Visibility::Visible, false));
    let plan = vec![WindowAction::Show, WindowAction::Hide, WindowAction::SetFocus];
    assert_eq!(start.carry_out(&plan), window(Visibility::Hidden, true));
    assert_eq!(start.carry_out(&vec![]), start);
}

#[test]
fn a_probe_reads_the_window() {
    assert_eq!(WindowProbe::read(None), WindowProbe::Absent);
    assert_eq!(
        WindowProbe::read(Some(window(Visibility::Visible, false))),
        WindowProbe::Reported(Visibility::Visible)
    );
    assert_eq!(
        WindowProbe::read(Some(window(Visibility::Hidden, true))),
        WindowProbe::Reported(Visibility::Hidden)
    );
}

#[test]
fn hide_twice_leaves_the_window_hidden() {
    for start in [window(Visibility::Visible, true), window(Visibility::Hidden, false)] {
        let once = start.carry_out(&hide_plan(WindowProbe::read(Some(start))));
        assert_eq!(once.visibility, Visibility::Hidden);
        let second = hide_plan(WindowProbe::read(Some(once)));
        assert_eq!(notifications(&second), 0);
        let twice = once.carry_out(&second);
        assert_eq!(twice, once);
    }
}

#[test]
fn show_twice_leaves_the_window_visible() {
    for start in [window(Visibility::Visible, false), window(Visibility::Hidden, false)] {
        let once = start.carry_out(&show_plan(WindowProbe::read(Some(start))));
        assert_eq!(once, window(Visibility::Visible, true));
        let second = show_plan(WindowProbe::read(Some(once)));
        assert_eq!(notifications(&second), 0);
        let twice = once.carry_out(&second);
        assert_eq!(twice, once);
    }
}

#[test]
fn toggle_twice_restores_the_visibility() {
    for start in [
        window(Visibility::Visible, true),
        window(Visibility::Visible, false),
        window(Visibility::Hidden, false),
    ] {
        let once = start.carry_out(&toggle_plan(WindowProbe::read(Some(start))));
        assert_ne!(once.visibility, start.visibility);
        let twice = once.carry_out(&toggle_plan(WindowProbe::read(Some(once))));
        assert_eq!(twice.visibility, start.visibility);
    }
}

#[test]
fn toggles_in_a_row_go_by_parity() {
    for count in [2usize, 3, 4, 7, 10] {
        let mut current = window(Visibility::Visible, true);
        for _ in 0..count {
            let plan = toggle_plan(WindowProbe::read(Some(current)));
            assert_eq!(transitions(&plan), 1);
            current = current.carry_out(&plan);
        }
        let expected = if count % 2 == 0 { Visibility::Visible } else { Visibility::Hidden };
        assert_eq!(current.visibility, expected);
    }
}

#[test]
fn the_first_failure_is_passed_on() {
    assert_eq!(first_failure(&vec![]), Ok(()));
    assert_eq!(first_failure(&vec![Ok(()), Ok(()), Ok(())]), Ok(()));
    assert_eq!(
        first_failure(&vec![Ok(()), Err(String::from("no focus")), Err(String::from("no event"))]),
        Err(String::from("no focus"))
    );
    assert_eq!(
        first_failure(&vec![Err(String::from("gone")), Ok(())]),
        Err(String::from("gone"))
    );
}
