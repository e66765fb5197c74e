use zed_web::input::{
    action_to_platform_input, wire_button_to_gpui, wire_modifiers_to_gpui, KeyDownEvent,
    KeyUpEvent, Keystroke, Modifiers, MouseButton, MouseDownEvent, MouseMoveEvent, MouseUpEvent,
    PlatformInput, ScrollDelta, ScrollWheelEvent, TouchPhase,
};
use zed_web::keys::dom_key_to_gpui;
use zed_web::wire::{
    Action, ClickAction, DisplayAction, DisplayActionKind, DisplayModifiers, DisplayNodeId,
    HoverAction, KeyDownAction, KeyUpAction, MouseDownAction, MouseMoveAction, MouseUpAction,
    ScrollAction, WirePoint,
};

fn no_mods() -> Modifiers {
    Modifiers { control: false, alt: false, shift: false, platform: false, function: false }
}

fn action(kind: Action) -> DisplayAction {
    DisplayAction {
        node_id: Some(DisplayNodeId { id: 7 }),
        element_id: None,
        action: Some(DisplayActionKind { action: Some(kind) }),
    }
}

fn point(x: f32, y: f32) -> WirePoint {
    WirePoint { x: x.to_bits(), y: y.to_bits() }
}

#[test]
fn modifier_only_keys_map_to_empty() {
    for key in ["Shift", "Control", "Alt", "Meta", "CapsLock", "NumLock", "ScrollLock"] {
        assert_eq!(dom_key_to_gpui(key), "");
    }
}

#[test]
fn named_keys_map_to_gpui_names() {
    assert_eq!(dom_key_to_gpui("ArrowLeft"), "left");
    assert_eq!(dom_key_to_gpui("ArrowRight"), "right");
    assert_eq!(dom_key_to_gpui("ArrowUp"), "up");
    assert_eq!(dom_key_to_gpui("ArrowDown"), "down");
    assert_eq!(dom_key_to_gpui("Home"), "home");
    assert_eq!(dom_key_to_gpui("End"), "end");
    assert_eq!(dom_key_to_gpui("PageUp"), "pageup");
    assert_eq!(dom_key_to_gpui("PageDown"), "pagedown");
    assert_eq!(dom_key_to_gpui("Backspace"), "backspace");
    assert_eq!(dom_key_to_gpui("Delete"), "delete");
    assert_eq!(dom_key_to_gpui("Enter"), "enter");
    assert_eq!(dom_key_to_gpui("Tab"), "tab");
    assert_eq!(dom_key_to_gpui("Escape"), "escape");
    assert_eq!(dom_key_to_gpui("Insert"), "insert");
    assert_eq!(dom_key_to_gpui(" "), "space");
    assert_eq!(dom_key_to_gpui("F1"), "f1");
    assert_eq!(dom_key_to_gpui("F10"), "f10");
    assert_eq!(dom_key_to_gpui("F12"), "f12");
}

#[test]
fn other_keys_are_lowercased() {
    assert_eq!(dom_key_to_gpui("a"), "a");
    assert_eq!(dom_key_to_gpui("A"), "a");
    assert_eq!(dom_key_to_gpui("Ä"), "ä");
    assert_eq!(dom_key_to_gpui("Dead"), "dead");
    assert_eq!(dom_key_to_gpui("F13"), "f13");
    assert_eq!(dom_key_to_gpui(""), "");
}

#[test]
fn buttons_map() {
    assert_eq!(wire_button_to_gpui(0), MouseButton::Left);
    assert_eq!(wire_button_to_gpui(1), MouseButton::Middle);
    assert_eq!(wire_button_to_gpui(2), MouseButton::Right);
    assert_eq!(wire_button_to_gpui(3), MouseButton::Left);
    assert_eq!(wire_button_to_gpui(u32::MAX), MouseButton::Left);
}

#[test]
fn meta_becomes_platform() {
    let m = DisplayModifiers { control: true, alt: false, shift: true, meta: true };
    assert_eq!(
        wire_modifiers_to_gpui(&m),
        Modifiers { control: true, alt: false, shift: true, platform: true, function: false }
    );
}

#[test]
fn click_becomes_down_and_up() {
    let mods = DisplayModifiers { control: false, alt: true, shift: false, meta: false };
    let a = action(Action::Click(ClickAction {
        position: Some(point(10.5, 20.0)),
        button: 2,
        click_count: 0,
        modifiers: Some(mods),
    }));
    let expected_mods = Modifiers { alt: true, ..no_mods() };
    assert_eq!(
        action_to_platform_input(&a),
        vec![
            PlatformInput::MouseDown(MouseDownEvent {
                button: MouseButton::Right,
                position: point(10.5, 20.0),
                modifiers: expected_mods,
                click_count: 1,
                first_mouse: false,
            }),
            PlatformInput::MouseUp(MouseUpEvent {
                button: MouseButton::Right,
                position: point(10.5, 20.0),
                modifiers: expected_mods,
                click_count: 1,
            }),
        ]
    );
}

#[test]
fn double_click_keeps_count_and_defaults_position() {
    let a = action(Action::Click(ClickAction {
        position: None,
        button: 0,
        click_count: 2,
        modifiers: None,
    }));
    let events = action_to_platform_input(&a);
    assert_eq!(events.len(), 2);
    match &events[0] {
        PlatformInput::MouseDown(e) => {
            assert_eq!(e.click_count, 2);
            assert_eq!(e.position, point(0.0, 0.0));
            assert_eq!(e.modifiers, no_mods());
            assert_eq!(e.button, MouseButton::Left);
        }
        other => panic!("unexpected {:?}", other),
    }
}

#[test]
fn mouse_down_up_move_and_scroll() {
    let down = action(Action::MouseDown(MouseDownAction {
        position: Some(point(1.0, 2.0)),
        button: 1,
        modifiers: None,
    }));
    assert_eq!(
        action_to_platform_input(&down),
        vec![PlatformInput::MouseDown(MouseDownEvent {
            button: MouseButton::Middle,
            position: point(1.0, 2.0),
            modifiers: no_mods(),
            click_count: 1,
            first_mouse: false,
        })]
    );
    let up = action(Action::MouseUp(MouseUpAction {
        position: Some(point(3.0, 4.0)),
        button: 0,
        modifiers: None,
    }));
    assert_eq!(
        action_to_platform_input(&up),
        vec![PlatformInput::MouseUp(MouseUpEvent {
            button: MouseButton::Left,
            position: point(3.0, 4.0),
            modifiers: no_mods(),
            click_count: 1,
        })]
    );
    let mv = action(Action::MouseMove(MouseMoveAction {
        position: Some(point(5.0, 6.0)),
        modifiers: None,
    }));
    assert_eq!(
        action_to_platform_input(&mv),
        vec![PlatformInput::MouseMove(MouseMoveEvent {
            position: point(5.0, 6.0),
            pressed_button: None,
            modifiers: no_mods(),
        })]
    );
    let scroll = action(Action::Scroll(ScrollAction {
        delta: Some(point(0.0, -30.0)),
        modifiers: None,
    }));
    assert_eq!(
        action_to_platform_input(&scroll),
        vec![PlatformInput::ScrollWheel(ScrollWheelEvent {
            position: point(0.0, 0.0),
            delta: ScrollDelta::Pixels(point(0.0, -30.0)),
            modifiers: no_mods(),
            touch_phase: TouchPhase::Moved,
        })]
    );
}

#[test]
fn key_down_types_single_characters() {
    let a = action(Action::KeyDown(KeyDownAction { key: "A".to_string(), modifiers: None }));
    assert_eq!(
        action_to_platform_input(&a),
        vec![PlatformInput::KeyDown(KeyDownEvent {
            keystroke: Keystroke {
                modifiers: no_mods(),
                key: "a".to_string(),
                key_char: Some("a".to_string()),
            },
            is_held: false,
            prefer_character_input: false,
        })]
    );
}

#[test]
fn key_down_with_control_or_named_key_types_nothing() {
    let ctrl = DisplayModifiers { control: true, alt: false, shift: false, meta: false };
    let a = action(Action::KeyDown(KeyDownAction { key: "c".to_string(), modifiers: Some(ctrl) }));
    match &action_to_platform_input(&a)[..] {
        [PlatformInput::KeyDown(e)] => {
            assert_eq!(e.keystroke.key, "c");
            assert_eq!(e.keystroke.key_char, None);
            assert!(e.keystroke.modifiers.control);
        }
        other => panic!("unexpected {:?}", other),
    }
    let meta = DisplayModifiers { control: false, alt: false, shift: false, meta: true };
    let a = action(Action::KeyDown(KeyDownAction { key: "v".to_string(), modifiers: Some(meta) }));
    match &action_to_platform_input(&a)[..] {
        [PlatformInput::KeyDown(e)] => assert_eq!(e.keystroke.key_char, None),
        other => panic!("unexpected {:?}", other),
    }
    let a = action(Action::KeyDown(KeyDownAction { key: "Enter".to_string(), modifiers: None }));
    match &action_to_platform_input(&a)[..] {
        [PlatformInput::KeyDown(e)] => {
            assert_eq!(e.keystroke.key, "enter");
            assert_eq!(e.keystroke.key_char, None);
        }
        other => panic!("unexpected {:?}", other),
    }
}

#[test]
fn modifier_only_keys_send_nothing() {
    let a = action(Action::KeyDown(KeyDownAction { key: "Shift".to_string(), modifiers: None }));
    assert!(action_to_platform_input(&a).is_empty());
    let a = action(Action::KeyUp(KeyUpAction { key: "Meta".to_string(), modifiers: None }));
    assert!(action_to_platform_input(&a).is_empty());
}

#[test]
fn key_up_has_no_character() {
    let a = action(Action::KeyUp(KeyUpAction { key: "x".to_string(), modifiers: None }));
    assert_eq!(
        action_to_platform_input(&a),
        vec![PlatformInput::KeyUp(KeyUpEvent {
            keystroke: Keystroke { modifiers: no_mods(), key: "x".to_string(), key_char: None },
        })]
    );
}

#[test]
fn hover_resize_and_empty_actions_send_nothing() {
    let a = action(Action::Hover(HoverAction { entered: true }));
    assert!(action_to_platform_input(&a).is_empty());
    let a = action(Action::Resize);
    assert!(action_to_platform_input(&a).is_empty());
    let a = DisplayAction { node_id: None, element_id: None, action: None };
    assert!(action_to_platform_input(&a).is_empty());
    let a = DisplayAction {
        node_id: None,
        element_id: None,
        action: Some(DisplayActionKind { action: None }),
    };
    assert!(action_to_platform_input(&a).is_empty());
}
