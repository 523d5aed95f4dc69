use sing_config::router::Action;
use sing_config::window::{react, step, Reaction, Transition, WindowOp, WindowVisibility};

const STATES: [WindowVisibility; 2] = [WindowVisibility::Visible, WindowVisibility::Hidden];

#[test]
fn window_show_leads_to_visible() {
    for from in STATES {
        assert_eq!(from.apply(Transition::Show), WindowVisibility::Visible);
        assert_eq!(Transition::Show.resolve(from), WindowOp::ShowAndFocus);
    }
}

#[test]
fn window_hide_leads_to_hidden() {
    for from in STATES {
        assert_eq!(from.apply(Transition::Hide), WindowVisibility::Hidden);
        assert_eq!(Transition::Hide.resolve(from), WindowOp::Hide);
    }
}

#[test]
fn window_close_request_hides_a_visible_window() {
    assert_eq!(WindowVisibility::Visible.apply(Transition::InterceptedClose), WindowVisibility::Hidden);
    assert_eq!(WindowVisibility::Hidden.apply(Transition::InterceptedClose), WindowVisibility::Hidden);
    for from in STATES {
        assert_eq!(Transition::InterceptedClose.resolve(from), WindowOp::Hide);
    }
}

#[test]
fn window_toggle_gives_the_opposite() {
    assert_eq!(WindowVisibility::Visible.apply(Transition::ToggleFromTrayClick), WindowVisibility::Hidden);
    assert_eq!(WindowVisibility::Hidden.apply(Transition::ToggleFromTrayClick), WindowVisibility::Visible);
    assert_eq!(Transition::ToggleFromTrayClick.resolve(WindowVisibility::Visible), WindowOp::Hide);
    assert_eq!(Transition::ToggleFromTrayClick.resolve(WindowVisibility::Hidden), WindowOp::ShowAndFocus);
}

#[test]
fn window_two_toggles_restore_the_state() {
    let once = WindowVisibility::Visible.apply(Transition::ToggleFromTrayClick);
    assert_eq!(once, WindowVisibility::Hidden);
    assert_eq!(once.apply(Transition::ToggleFromTrayClick), WindowVisibility::Visible);
    for from in STATES {
        let twice = from.apply(Transition::ToggleFromTrayClick).apply(Transition::ToggleFromTrayClick);
        assert_eq!(twice, from);
    }
}

#[test]
fn window_action_transitions() {
    assert_eq!(Action::ShowWindow.transition(), Some(Transition::Show));
    assert_eq!(Action::HideWindow.transition(), Some(Transition::Hide));
    assert_eq!(Action::ToggleWindow.transition(), Some(Transition::ToggleFromTrayClick));
    assert_eq!(Action::Terminate.transition(), None);
    assert_eq!(Action::Forward("file_new".to_string()).transition(), None);
}

#[test]
fn window_step_without_a_window_is_a_no_op() {
    for t in [
        None,
        Some(Transition::Show),
        Some(Transition::Hide),
        Some(Transition::ToggleFromTrayClick),
        Some(Transition::InterceptedClose),
    ] {
        assert_eq!(step(t, None), (None, None));
    }
}

#[test]
fn window_step_without_a_transition_keeps_the_state() {
    for from in STATES {
        assert_eq!(step(None, Some(from)), (None, Some(from)));
    }
}

#[test]
fn window_step_with_both() {
    assert_eq!(
        step(Some(Transition::Show), Some(WindowVisibility::Hidden)),
        (Some(WindowOp::ShowAndFocus), Some(WindowVisibility::Visible))
    );
    assert_eq!(
        step(Some(Transition::Show), Some(WindowVisibility::Visible)),
        (Some(WindowOp::ShowAndFocus), Some(WindowVisibility::Visible))
    );
    assert_eq!(
        step(Some(Transition::Hide), Some(WindowVisibility::Visible)),
        (Some(WindowOp::Hide), Some(WindowVisibility::Hidden))
    );
    assert_eq!(
        step(Some(Transition::ToggleFromTrayClick), Some(WindowVisibility::Visible)),
        (Some(WindowOp::Hide), Some(WindowVisibility::Hidden))
    );
    assert_eq!(
        step(Some(Transition::ToggleFromTrayClick), Some(WindowVisibility::Hidden)),
        (Some(WindowOp::ShowAndFocus), Some(WindowVisibility::Visible))
    );
    assert_eq!(
        step(Some(Transition::InterceptedClose), Some(WindowVisibility::Visible)),
        (Some(WindowOp::Hide), Some(WindowVisibility::Hidden))
    );
}

#[test]
fn window_react_to_window_actions() {
    assert_eq!(
        react(Action::ShowWindow, Some(WindowVisibility::Hidden)),
        Reaction {
            action: Action::ShowWindow,
            op: Some(WindowOp::ShowAndFocus),
            window: Some(WindowVisibility::Visible)
        }
    );
    assert_eq!(
        react(Action::HideWindow, Some(WindowVisibility::Visible)),
        Reaction { action: Action::HideWindow, op: Some(WindowOp::Hide), window: Some(WindowVisibility::Hidden) }
    );
    assert_eq!(
        react(Action::ToggleWindow, Some(WindowVisibility::Visible)),
        Reaction { action: Action::ToggleWindow, op: Some(WindowOp::Hide), window: Some(WindowVisibility::Hidden) }
    );
    assert_eq!(
        react(Action::ToggleWindow, Some(WindowVisibility::Hidden)),
        Reaction {
            action: Action::ToggleWindow,
            op: Some(WindowOp::ShowAndFocus),
            window: Some(WindowVisibility::Visible)
        }
    );
}

#[test]
fn window_react_leaves_the_window_alone_otherwise() {
    for window in [None, Some(WindowVisibility::Visible), Some(WindowVisibility::Hidden)] {
        assert_eq!(react(Action::Terminate, window), Reaction { action: Action::Terminate, op: None, window });
        assert_eq!(
            react(Action::Forward("file_new".to_string()), window),
            Reaction { action: Action::Forward("file_new".to_string()), op: None, window }
        );
    }
}

#[test]
fn window_react_without_a_window_asks_nothing() {
    for action in [Action::ShowWindow, Action::HideWindow, Action::ToggleWindow] {
        let reaction = react(action, None);
        assert_eq!(reaction.op, None);
        assert_eq!(reaction.window, None);
    }
    assert_eq!(react(Action::ShowWindow, None).action, Action::ShowWindow);
    assert_eq!(react(Action::HideWindow, None).action, Action::HideWindow);
    assert_eq!(react(Action::ToggleWindow, None).action, Action::ToggleWindow);
}
