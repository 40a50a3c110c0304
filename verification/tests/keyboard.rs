use missing_ctrl::keyboard::{
    action_inputs, handle_key_event, keyboard_input, release_pressed_control, Action, HookDecision,
    KeyEvent, KeyboardInput, KeyboardState, KEYEVENTF_KEYUP, LLKHF_INJECTED, VK_CONTROL, VK_RETURN,
    WM_KEYDOWN, WM_KEYUP, WM_SYSKEYDOWN, WM_SYSKEYUP,
};

const VK_A: u32 = 0x41;
const ENTER: u32 = VK_RETURN as u32;

fn event(message: u32, vk_code: u32, time: u32) -> KeyEvent {
    KeyEvent { code: 0, message, vk_code, flags: 0, time }
}

fn blocked() -> HookDecision {
    HookDecision { block: true, action: None }
}

fn passed(action: Option<Action>) -> HookDecision {
    HookDecision { block: false, action }
}

#[test]
fn new_state_is_idle() {
    let state = KeyboardState::new();
    assert_eq!(state, KeyboardState { enter_down: false, enter_down_time: 0, combo_key: false });
    assert_eq!(KeyboardState::default(), state);
}

#[test]
fn short_enter_press_is_replayed_as_enter() {
    let mut state = KeyboardState::new();
    assert_eq!(handle_key_event(&mut state, &event(WM_KEYDOWN, ENTER, 1000)), blocked());
    assert_eq!(state, KeyboardState { enter_down: true, enter_down_time: 1000, combo_key: false });
    assert_eq!(handle_key_event(&mut state, &event(WM_KEYUP, ENTER, 1499)), passed(Some(Action::EnterTap)));
    assert_eq!(state, KeyboardState { enter_down: false, enter_down_time: 1000, combo_key: false });
}

#[test]
fn long_enter_press_injects_nothing() {
    let mut state = KeyboardState::new();
    handle_key_event(&mut state, &event(WM_KEYDOWN, ENTER, 1000));
    assert_eq!(handle_key_event(&mut state, &event(WM_KEYUP, ENTER, 1500)), passed(None));
    assert!(!state.enter_down);
}

#[test]
fn tap_threshold_survives_clock_wrap() {
    let mut state = KeyboardState::new();
    handle_key_event(&mut state, &event(WM_KEYDOWN, ENTER, u32::MAX - 100));
    assert_eq!(handle_key_event(&mut state, &event(WM_KEYUP, ENTER, 50)), passed(Some(Action::EnterTap)));
    let mut state = KeyboardState::new();
    handle_key_event(&mut state, &event(WM_KEYDOWN, ENTER, u32::MAX - 100));
    assert_eq!(handle_key_event(&mut state, &event(WM_KEYUP, ENTER, 400)), passed(None));
}

#[test]
fn auto_repeat_keeps_the_first_time_stamp() {
    let mut state = KeyboardState::new();
    handle_key_event(&mut state, &event(WM_KEYDOWN, ENTER, 100));
    assert_eq!(handle_key_event(&mut state, &event(WM_KEYDOWN, ENTER, 400)), blocked());
    assert_eq!(handle_key_event(&mut state, &event(WM_KEYDOWN, ENTER, 700)), blocked());
    assert_eq!(state.enter_down_time, 100);
    assert_eq!(handle_key_event(&mut state, &event(WM_KEYUP, ENTER, 700)), passed(None));
}

#[test]
fn enter_with_another_key_acts_as_control() {
    let mut state = KeyboardState::new();
    assert_eq!(handle_key_event(&mut state, &event(WM_KEYDOWN, ENTER, 10)), blocked());
    assert_eq!(handle_key_event(&mut state, &event(WM_KEYDOWN, VK_A, 20)), passed(Some(Action::ControlDown)));
    assert!(state.combo_key);
    assert_eq!(handle_key_event(&mut state, &event(WM_KEYUP, VK_A, 30)), passed(None));
    assert_eq!(handle_key_event(&mut state, &event(WM_KEYDOWN, VK_A, 40)), passed(None));
    assert_eq!(handle_key_event(&mut state, &event(WM_KEYUP, ENTER, 50)), passed(Some(Action::ControlUp)));
    assert_eq!(state, KeyboardState { enter_down: false, enter_down_time: 10, combo_key: false });
}

#[test]
fn system_key_messages_count_as_keys() {
    let mut state = KeyboardState::new();
    assert_eq!(handle_key_event(&mut state, &event(WM_SYSKEYDOWN, ENTER, 10)), blocked());
    assert_eq!(handle_key_event(&mut state, &event(WM_SYSKEYDOWN, VK_A, 20)), passed(Some(Action::ControlDown)));
    assert_eq!(handle_key_event(&mut state, &event(WM_SYSKEYUP, ENTER, 30)), passed(Some(Action::ControlUp)));
}

#[test]
fn other_keys_pass_without_enter() {
    let mut state = KeyboardState::new();
    assert_eq!(handle_key_event(&mut state, &event(WM_KEYDOWN, VK_A, 10)), passed(None));
    assert_eq!(handle_key_event(&mut state, &event(WM_KEYUP, VK_A, 20)), passed(None));
    assert_eq!(state, KeyboardState::new());
}

#[test]
fn injected_events_are_ignored() {
    let mut state = KeyboardState::new();
    let injected = KeyEvent { code: 0, message: WM_KEYDOWN, vk_code: ENTER, flags: LLKHF_INJECTED, time: 5 };
    assert_eq!(handle_key_event(&mut state, &injected), passed(None));
    assert_eq!(state, KeyboardState::new());
    let injected_other = KeyEvent { flags: LLKHF_INJECTED | 0x1, ..injected };
    assert_eq!(handle_key_event(&mut state, &injected_other), passed(None));
    assert_eq!(state, KeyboardState::new());
}

#[test]
fn non_action_hook_codes_are_ignored() {
    let mut state = KeyboardState::new();
    let other_code = KeyEvent { code: 3, message: WM_KEYDOWN, vk_code: ENTER, flags: 0, time: 5 };
    assert_eq!(handle_key_event(&mut state, &other_code), passed(None));
    let negative = KeyEvent { code: -1, ..other_code };
    assert_eq!(handle_key_event(&mut state, &negative), passed(None));
    assert_eq!(state, KeyboardState::new());
}

#[test]
fn enter_up_without_press_still_taps_when_recent() {
    // The time stamp of the last press is kept, so a stray key-up soon after is a tap.
    let mut state = KeyboardState { enter_down: false, enter_down_time: 100, combo_key: false };
    assert_eq!(handle_key_event(&mut state, &event(WM_KEYUP, ENTER, 200)), passed(Some(Action::EnterTap)));
}

#[test]
fn release_sends_control_up_only_when_held() {
    let mut state = KeyboardState { enter_down: true, enter_down_time: 7, combo_key: true };
    assert_eq!(release_pressed_control(&mut state), Some(Action::ControlUp));
    assert_eq!(state, KeyboardState::new());
    let mut state = KeyboardState { enter_down: true, enter_down_time: 7, combo_key: false };
    assert_eq!(release_pressed_control(&mut state), None);
    assert_eq!(state, KeyboardState::new());
    assert_eq!(release_pressed_control(&mut state), None);
}

#[test]
fn control_never_stuck_after_release() {
    let mut state = KeyboardState::new();
    let mut downs = 0;
    let mut ups = 0;
    let events = [
        event(WM_KEYDOWN, ENTER, 1),
        event(WM_KEYDOWN, VK_A, 2),
        event(WM_KEYDOWN, VK_A, 3),
        event(WM_KEYUP, VK_A, 4),
    ];
    for e in events.iter() {
        match handle_key_event(&mut state, e).action {
            Some(Action::ControlDown) => downs += 1,
            Some(Action::ControlUp) => ups += 1,
            _ => {}
        }
    }
    if release_pressed_control(&mut state) == Some(Action::ControlUp) {
        ups += 1;
    }
    assert_eq!(downs, 1);
    assert_eq!(ups, 1);
}

#[test]
fn keyboard_input_sets_the_release_flag() {
    assert_eq!(
        keyboard_input(VK_CONTROL, false),
        KeyboardInput { virtual_key: 0x11, scan_code: 0, flags: 0, time: 0, extra_info: 0 }
    );
    assert_eq!(
        keyboard_input(VK_RETURN, true),
        KeyboardInput { virtual_key: 0x0D, scan_code: 0, flags: KEYEVENTF_KEYUP, time: 0, extra_info: 0 }
    );
    assert_eq!(KEYEVENTF_KEYUP, 2);
}

#[test]
fn actions_become_keystrokes() {
    assert_eq!(action_inputs(Action::ControlDown), vec![keyboard_input(VK_CONTROL, false)]);
    assert_eq!(action_inputs(Action::ControlUp), vec![keyboard_input(VK_CONTROL, true)]);
    assert_eq!(
        action_inputs(Action::EnterTap),
        vec![keyboard_input(VK_RETURN, false), keyboard_input(VK_RETURN, true)]
    );
}

#[test]
fn control_presses_alternate_with_releases_interleaved() {
    let mut state = KeyboardState::new();
    let mut outstanding = 0i32;
    let mut record = |action: Option<Action>, outstanding: &mut i32| match action {
        Some(Action::ControlDown) => *outstanding += 1,
        Some(Action::ControlUp) => *outstanding -= 1,
        _ => {}
    };
    let script: [Option<KeyEvent>; 9] = [
        Some(event(WM_KEYDOWN, ENTER, 1)),
        Some(event(WM_KEYDOWN, VK_A, 2)),
        None,
        Some(event(WM_KEYDOWN, VK_A, 3)),
        Some(event(WM_KEYUP, ENTER, 4)),
        Some(event(WM_KEYDOWN, ENTER, 5)),
        Some(event(WM_KEYDOWN, VK_A, 6)),
        Some(event(WM_KEYUP, ENTER, 7)),
        None,
    ];
    for step in script.iter() {
        let action = match step {
            Some(e) => handle_key_event(&mut state, e).action,
            None => release_pressed_control(&mut state),
        };
        record(action, &mut outstanding);
        assert!(outstanding == 0 || outstanding == 1);
        assert_eq!(outstanding == 1, state.combo_key);
        assert!(!state.combo_key || state.enter_down);
    }
    assert_eq!(outstanding, 0);
}
