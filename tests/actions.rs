use relm_test::actions::{
    center, click_actions, double_click_actions, enter_key_actions, enter_keys_actions,
    key_press_actions, key_release_actions, mouse_move_actions, Action, Signal,
};
use relm_test::keys::InputKey;

#[test]
fn center_halves_toward_zero() {
    assert_eq!(center(100, 31), (50, 15));
    assert_eq!(center(0, 1), (0, 0));
    assert_eq!(center(-7, -1), (-3, 0));
    assert_eq!(center(i32::MIN, i32::MAX), (-1073741824, 1073741823));
}

#[test]
fn click_on_button_waits_for_press() {
    assert_eq!(
        click_actions(false, 80, 30),
        vec![
            Action::Observe(Signal::ButtonPress),
            Action::MoveTo(40, 15),
            Action::MouseClick,
            Action::AwaitObserver,
            Action::Pause(0),
            Action::RunLoop,
        ]
    );
}

#[test]
fn click_on_tool_button_waits_for_clicked() {
    let actions = click_actions(true, 25, 25);
    assert_eq!(actions[0], Action::Observe(Signal::Clicked));
    assert_eq!(actions[1], Action::MoveTo(12, 12));
    assert_eq!(actions.len(), 6);
}

#[test]
fn mouse_move_goes_to_center() {
    assert_eq!(mouse_move_actions(11, 20), vec![Action::MoveTo(5, 10)]);
}

#[test]
fn double_click_clicks_twice() {
    assert_eq!(
        double_click_actions(10, 4),
        vec![
            Action::Observe(Signal::ButtonRelease),
            Action::MoveTo(5, 2),
            Action::MouseClick,
            Action::RunLoop,
            Action::MouseClick,
            Action::AwaitObserver,
            Action::Pause(0),
            Action::RunLoop,
        ]
    );
}

#[test]
fn key_steps_observe_before_acting() {
    let key = InputKey::Layout('x');
    assert_eq!(
        key_press_actions(key),
        vec![Action::Observe(Signal::KeyPress), Action::Focus, Action::KeyDown(key), Action::AwaitObserver]
    );
    assert_eq!(
        key_release_actions(key),
        vec![Action::Observe(Signal::KeyRelease), Action::Focus, Action::KeyUp(key), Action::AwaitObserver]
    );
    assert_eq!(
        enter_key_actions(InputKey::Return),
        vec![
            Action::Observe(Signal::KeyRelease),
            Action::Focus,
            Action::KeyClick(InputKey::Return),
            Action::AwaitObserver,
        ]
    );
}

#[test]
fn enter_keys_types_each_character() {
    assert_eq!(
        enter_keys_actions("hé"),
        vec![
            Action::Focus,
            Action::Observe(Signal::KeyRelease),
            Action::TypeChar('h'),
            Action::AwaitObserver,
            Action::Observe(Signal::KeyRelease),
            Action::TypeChar('é'),
            Action::AwaitObserver,
        ]
    );
}

#[test]
fn enter_keys_of_empty_text_only_focuses() {
    assert_eq!(enter_keys_actions(""), vec![Action::Focus]);
}
