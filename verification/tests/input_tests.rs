use chitchat_core::input::plan_remote_control_input;
use chitchat_core::input::to_key;
use chitchat_core::input::to_mouse_button;
use chitchat_core::input::wheel_steps;
use chitchat_core::input::InputAction;
use chitchat_core::input::KeyCode;
use chitchat_core::input::MonitorGeometry;
use chitchat_core::input::PointerButton;
use chitchat_core::input::RemoteControlInputEvent;
use chitchat_core::input::NORM_ONE_MICROS;

fn monitor() -> MonitorGeometry {
    MonitorGeometry { x: 100, y: 200, width: 1920, height: 1080 }
}

#[test]
fn pointer_origin_maps_to_monitor_origin() {
    let event = RemoteControlInputEvent::PointerMove { x_norm_micros: 0, y_norm_micros: 0 };
    let action = plan_remote_control_input(&event, Some(&monitor())).unwrap();
    assert_eq!(action, InputAction::MoveMouse { x: 100, y: 200 });
}

#[test]
fn pointer_unit_maps_to_bottom_right_pixel() {
    let event = RemoteControlInputEvent::PointerMove {
        x_norm_micros: NORM_ONE_MICROS,
        y_norm_micros: NORM_ONE_MICROS,
    };
    let action = plan_remote_control_input(&event, Some(&monitor())).unwrap();
    assert_eq!(action, InputAction::MoveMouse { x: 100 + 1919, y: 200 + 1079 });
}

#[test]
fn pointer_midpoint_rounds_to_nearest_pixel() {
    let event = RemoteControlInputEvent::PointerMove { x_norm_micros: 500000, y_norm_micros: 0 };
    let action = plan_remote_control_input(&event, Some(&monitor())).unwrap();
    // 0.5 * 1919 = 959.5, rounded away from zero to 960.
    assert_eq!(action, InputAction::MoveMouse { x: 100 + 960, y: 200 });
}

#[test]
fn pointer_coordinates_are_clamped() {
    let event = RemoteControlInputEvent::PointerMove {
        x_norm_micros: -500000,
        y_norm_micros: 2 * NORM_ONE_MICROS,
    };
    let action = plan_remote_control_input(&event, Some(&monitor())).unwrap();
    assert_eq!(action, InputAction::MoveMouse { x: 100, y: 200 + 1079 });
}

#[test]
fn pointer_move_without_monitor_fails() {
    let event = RemoteControlInputEvent::PointerMove { x_norm_micros: 0, y_norm_micros: 0 };
    let result = plan_remote_control_input(&event, None);
    assert_eq!(result, Err("No primary monitor available".to_string()));
}

#[test]
fn wheel_delta_converts_to_rounded_steps() {
    // 150 pixels / 60 = 2.5, rounded away from zero to 3 steps.
    let event = RemoteControlInputEvent::Wheel { delta_y_micros: 150000000 };
    let action = plan_remote_control_input(&event, None).unwrap();
    assert_eq!(action, InputAction::Scroll { steps: 3 });
}

#[test]
fn small_wheel_delta_performs_no_action() {
    let event = RemoteControlInputEvent::Wheel { delta_y_micros: 10000000 };
    let action = plan_remote_control_input(&event, None).unwrap();
    assert_eq!(action, InputAction::NoAction);
}

#[test]
fn negative_wheel_delta_rounds_away_from_zero() {
    assert_eq!(wheel_steps(-150000000), -3);
    assert_eq!(wheel_steps(-10000000), 0);
}

#[test]
fn button_names_map_to_native_buttons() {
    assert_eq!(to_mouse_button("left"), Some(PointerButton::Left));
    assert_eq!(to_mouse_button("right"), Some(PointerButton::Right));
    assert_eq!(to_mouse_button("middle"), Some(PointerButton::Middle));
    assert_eq!(to_mouse_button("forward"), None);
}

#[test]
fn unrecognized_button_is_silently_ignored() {
    let event = RemoteControlInputEvent::PointerDown { button: "forward".to_string() };
    let action = plan_remote_control_input(&event, None).unwrap();
    assert_eq!(action, InputAction::NoAction);
}

#[test]
fn button_press_and_release_plan_native_actions() {
    let down = RemoteControlInputEvent::PointerDown { button: "left".to_string() };
    let up = RemoteControlInputEvent::PointerUp { button: "left".to_string() };
    assert_eq!(
        plan_remote_control_input(&down, None).unwrap(),
        InputAction::PressButton { button: PointerButton::Left }
    );
    assert_eq!(
        plan_remote_control_input(&up, None).unwrap(),
        InputAction::ReleaseButton { button: PointerButton::Left }
    );
}

#[test]
fn named_keys_map_to_key_codes() {
    assert_eq!(to_key("Enter"), KeyCode::Return);
    assert_eq!(to_key("Escape"), KeyCode::Escape);
    assert_eq!(to_key("Backspace"), KeyCode::Backspace);
    assert_eq!(to_key("Tab"), KeyCode::Tab);
    assert_eq!(to_key("Space"), KeyCode::Space);
    assert_eq!(to_key(" "), KeyCode::Space);
    assert_eq!(to_key("ArrowUp"), KeyCode::UpArrow);
    assert_eq!(to_key("ArrowDown"), KeyCode::DownArrow);
    assert_eq!(to_key("ArrowLeft"), KeyCode::LeftArrow);
    assert_eq!(to_key("ArrowRight"), KeyCode::RightArrow);
}

#[test]
fn single_character_key_is_sent_literally() {
    assert_eq!(to_key("x"), KeyCode::Unicode('x'));
    assert_eq!(to_key("!"), KeyCode::Unicode('!'));
}

#[test]
fn unrecognized_key_falls_back_to_space() {
    assert_eq!(to_key("NumLock"), KeyCode::Unicode(' '));
}

#[test]
fn key_events_plan_press_and_release() {
    let down = RemoteControlInputEvent::KeyDown { key: "Enter".to_string() };
    let up = RemoteControlInputEvent::KeyUp { key: "Enter".to_string() };
    assert_eq!(
        plan_remote_control_input(&down, None).unwrap(),
        InputAction::PressKey { key: KeyCode::Return }
    );
    assert_eq!(
        plan_remote_control_input(&up, None).unwrap(),
        InputAction::ReleaseKey { key: KeyCode::Return }
    );
}
