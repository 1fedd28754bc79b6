use agentos::host::input::{
    create_keyboard_backend, create_mouse_backend, release_all_modifiers, send_capslock_toggle, send_key_event, send_mouse_button,
    send_mouse_move_abs, send_mouse_scroll, sync_modifiers, EventQueue, InputDevice, InputState,
    KrunInputEvent,
};
use agentos::host::view::{
    clicked_button, flags_changed, resign_first_responder, scroll_wheel, track_key_press,
    track_key_release, FramebufferView, FramebufferViewIvars, PressedKeys,
};

const SHIFT: usize = 1 << 17;
const CONTROL: usize = 1 << 18;
const OPTION: usize = 1 << 19;
const COMMAND: usize = 1 << 20;

fn keyboard(input: &mut InputState) -> Vec<(u16, u16, u32)> {
    let (config, provider) = create_keyboard_backend();
    assert_eq!(config.device, InputDevice::Keyboard);
    let mut events = Vec::new();
    while let Some(event) = provider.next_event(input) {
        events.push((event.event_type, event.code, event.value));
    }
    events
}

fn mouse(input: &mut InputState) -> Vec<(u16, u16, u32)> {
    let (config, provider) = create_mouse_backend();
    assert_eq!(config.device, InputDevice::Mouse);
    let mut events = Vec::new();
    while let Some(event) = provider.next_event(input) {
        events.push((event.event_type, event.code, event.value));
    }
    events
}

#[test]
fn queue_keeps_the_order() {
    let event = |value| KrunInputEvent { event_type: 1, code: 2, value };
    let mut queue = EventQueue::new();
    assert_eq!(queue.pop(), None);
    queue.push_batch(&[event(1), event(2)]);
    queue.push_batch(&[event(3)]);
    assert_eq!(queue.pop(), Some(event(1)));
    assert_eq!(queue.pop(), Some(event(2)));
    assert_eq!(queue.pop(), Some(event(3)));
    assert_eq!(queue.pop(), None);
}

#[test]
fn key_goes_to_the_keyboard() {
    let mut input = InputState::new();
    send_key_event(&mut input, 30, 1);
    assert_eq!(mouse(&mut input), vec![]);
    assert_eq!(keyboard(&mut input), vec![(1, 30, 1), (0, 0, 0)]);
}

#[test]
fn mouse_moves_and_clicks() {
    let mut input = InputState::new();
    send_mouse_move_abs(&mut input, 5, 32767);
    send_mouse_button(&mut input, 0x110, true);
    send_mouse_button(&mut input, 0x110, false);
    assert_eq!(keyboard(&mut input), vec![]);
    assert_eq!(
        mouse(&mut input),
        vec![
            (3, 0, 5),
            (3, 1, 32767),
            (0, 0, 0),
            (1, 0x110, 1),
            (0, 0, 0),
            (1, 0x110, 0),
            (0, 0, 0)
        ]
    );
}

#[test]
fn wheels_turn() {
    let mut input = InputState::new();
    send_mouse_scroll(&mut input, 2, -1);
    assert_eq!(mouse(&mut input), vec![(2, 8, u32::MAX), (2, 6, 2), (0, 0, 0)]);
    send_mouse_scroll(&mut input, 0, 3);
    assert_eq!(mouse(&mut input), vec![(2, 8, 3), (0, 0, 0)]);
    send_mouse_scroll(&mut input, -3, 0);
    assert_eq!(mouse(&mut input), vec![(2, 6, 0xffff_fffd), (0, 0, 0)]);
    send_mouse_scroll(&mut input, 0, 0);
    assert_eq!(mouse(&mut input), vec![(0, 0, 0)]);
    scroll_wheel(&mut input, 0, 0);
    assert_eq!(mouse(&mut input), vec![]);
    scroll_wheel(&mut input, 1, 0);
    assert_eq!(mouse(&mut input), vec![(2, 6, 1), (0, 0, 0)]);
}

#[test]
fn modifiers_follow_the_flags() {
    let mut input = InputState::new();
    sync_modifiers(&mut input, SHIFT | COMMAND | 1);
    assert_eq!(
        keyboard(&mut input),
        vec![(1, 42, 1), (0, 0, 0), (1, 125, 1), (0, 0, 0)]
    );
    sync_modifiers(&mut input, SHIFT | COMMAND);
    assert_eq!(keyboard(&mut input), vec![]);
    sync_modifiers(&mut input, CONTROL | OPTION | COMMAND);
    assert_eq!(
        keyboard(&mut input),
        vec![(1, 42, 0), (0, 0, 0), (1, 29, 1), (0, 0, 0), (1, 56, 1), (0, 0, 0)]
    );
    sync_modifiers(&mut input, 0);
    assert_eq!(
        keyboard(&mut input),
        vec![(1, 29, 0), (0, 0, 0), (1, 56, 0), (0, 0, 0), (1, 125, 0), (0, 0, 0)]
    );
}

#[test]
fn modifiers_take_turns_over_a_run() {
    let mut input = InputState::new();
    let run = [SHIFT, SHIFT | 1, SHIFT | OPTION, OPTION | 2, 4, SHIFT, SHIFT | COMMAND];
    for flags in run {
        sync_modifiers(&mut input, flags);
    }
    let events = keyboard(&mut input);
    let values = |code: u16| -> Vec<u32> {
        events.iter().filter(|event| event.0 == 1 && event.1 == code).map(|event| event.2).collect()
    };
    assert_eq!(values(42), vec![1, 0, 1]);
    assert_eq!(values(29), Vec::<u32>::new());
    assert_eq!(values(56), vec![1, 0]);
    assert_eq!(values(125), vec![1]);
}

#[test]
fn all_modifiers_are_let_go() {
    let mut input = InputState::new();
    sync_modifiers(&mut input, SHIFT);
    keyboard(&mut input);
    release_all_modifiers(&mut input);
    let up = vec![
        (1, 42, 0),
        (0, 0, 0),
        (1, 29, 0),
        (0, 0, 0),
        (1, 56, 0),
        (0, 0, 0),
        (1, 125, 0),
        (0, 0, 0),
    ];
    assert_eq!(keyboard(&mut input), up);
    sync_modifiers(&mut input, 0);
    assert_eq!(keyboard(&mut input), vec![]);
    assert!(resign_first_responder(&mut input));
    assert_eq!(keyboard(&mut input), up);
}

#[test]
fn capslock_is_pressed_and_let_go() {
    let toggle = vec![(1, 58, 1), (0, 0, 0), (1, 58, 0), (0, 0, 0)];
    let mut input = InputState::new();
    send_capslock_toggle(&mut input);
    assert_eq!(keyboard(&mut input), toggle);
    flags_changed(&mut input, 57, SHIFT);
    assert_eq!(keyboard(&mut input), toggle);
    flags_changed(&mut input, 56, SHIFT);
    assert_eq!(keyboard(&mut input), vec![(1, 42, 1), (0, 0, 0)]);
}

#[test]
fn held_keys_repeat() {
    let mut keys = PressedKeys::new();
    assert_eq!(track_key_press(&mut keys, 30), 1);
    assert_eq!(track_key_press(&mut keys, 30), 2);
    assert_eq!(track_key_press(&mut keys, 31), 1);
    track_key_release(&mut keys, 30);
    assert_eq!(track_key_press(&mut keys, 30), 1);
    assert_eq!(track_key_press(&mut keys, 31), 2);
}

#[test]
fn view_reports_keys() {
    let mut input = InputState::new();
    let mut view = FramebufferView::new();
    view.key_down(&mut input, 0);
    view.key_up(&mut input, 0);
    assert_eq!(keyboard(&mut input), vec![]);
    view.key_down(&mut input, 30);
    view.key_down(&mut input, 30);
    view.key_up(&mut input, 30);
    view.key_up(&mut input, 30);
    view.key_down(&mut input, 30);
    assert_eq!(
        keyboard(&mut input),
        vec![
            (1, 30, 1),
            (0, 0, 0),
            (1, 30, 2),
            (0, 0, 0),
            (1, 30, 0),
            (0, 0, 0),
            (1, 30, 0),
            (0, 0, 0),
            (1, 30, 1),
            (0, 0, 0)
        ]
    );
}

#[test]
fn control_click_is_a_secondary_click() {
    assert_eq!(clicked_button(false), 0);
    assert_eq!(clicked_button(true), 1);
    let _ = FramebufferViewIvars;
}
