//! From a client's keys, pointer and fingers to the desktop's.

use sun_remote_desktop::access::{AccessGate, DesktopPresentation};
use sun_remote_desktop::display::FrameHub;
use sun_remote_desktop::events::{KeyboardEvent, MouseButton, MouseEvent};
use sun_remote_desktop::input::{
    map_mouse_event, map_viewport_axis, normalized_pointer_event, track_pointer_position,
    HostInputHandler, InputOutcome,
};
use sun_remote_desktop::platform::DesktopSize;
use sun_remote_desktop::session::SessionCoordinator;
use sun_remote_desktop::touch::{touch_position, DirectTouchHandler, TouchContact};

fn size(width: u16, height: u16) -> DesktopSize {
    DesktopSize { width, height }
}

fn screen(gate: &AccessGate, size: DesktopSize) -> String {
    format!("{:?}", gate.render_frame(size))
}

fn contact(contact_id: u8, x: i32, y: i32, down: bool) -> TouchContact {
    TouchContact { contact_id, x, y, down, update: false, up: !down, canceled: false }
}

#[test]
fn scaled_pointer_maps_client_edges_to_host_edges() {
    let mapped = map_mouse_event(
        MouseEvent::Move { x: 1919, y: 1079 },
        size(1920, 1080),
        size(2560, 1600),
        Some(DesktopPresentation::Scale),
    );
    assert!(matches!(mapped, MouseEvent::Move { x: 2559, y: 1599 }));
}

#[test]
fn pointer_mapping_accounts_for_letterbox_bars() {
    let client = size(1920, 1080);
    let host = size(2560, 1600);
    let mapped = |x: u16| {
        map_mouse_event(
            MouseEvent::Move { x, y: 540 },
            client,
            host,
            Some(DesktopPresentation::Scale),
        )
    };
    assert!(matches!(mapped(0), MouseEvent::Move { x: 0, .. }));
    assert!(matches!(mapped(1919), MouseEvent::Move { x: 2559, .. }));
    assert!(matches!(mapped(960), MouseEvent::Move { x: 1280, y: 800 }));
}

#[test]
fn relative_mouse_mode_tracks_a_visible_client_pointer() {
    let size = size(1224, 2556);
    assert_eq!(
        track_pointer_position(&MouseEvent::RelMove { x: 12, y: -20 }, size, None),
        Some((623, 1257))
    );
    assert_eq!(
        track_pointer_position(
            &MouseEvent::RelMove { x: 10_000, y: -10_000 },
            size,
            Some((623, 1257)),
        ),
        Some((1223, 0))
    );
}

#[test]
fn relative_mouse_mode_updates_access_screen_hit_testing() {
    let position = Some((623, 1257));
    assert!(matches!(
        normalized_pointer_event(&MouseEvent::RelMove { x: 12, y: -20 }, position),
        Some(MouseEvent::Move { x: 623, y: 1257 })
    ));
    assert!(normalized_pointer_event(&MouseEvent::Move { x: 1, y: 2 }, position).is_none());
}

#[test]
fn relative_mouse_mode_can_focus_the_password_field() {
    let size = size(1224, 2556);
    let mut sessions = SessionCoordinator::new(1);
    let mut gate = AccessGate::new("unused.toml".to_string());
    gate.set_display_state(size, size, true, &sessions);
    let before = screen(&gate, size);
    let mut hub = FrameHub::new(size);
    let mut input = HostInputHandler::new(true);

    // The first relative event starts in the middle of the canvas.
    input.mouse(MouseEvent::RelMove { x: 1, y: 32 }, &mut gate, &mut hub, &mut sessions);
    input.mouse(
        MouseEvent::ButtonRel { x: 0, y: 0, button: MouseButton::Left, pressed: true },
        &mut gate,
        &mut hub,
        &mut sessions,
    );

    assert_ne!(
        screen(&gate, size),
        before,
        "clicking through relative mouse mode must change the focused field"
    );
}

#[test]
fn direct_touch_tap_focuses_the_password_field_on_the_access_screen() {
    let size = size(1224, 2556);
    let mut sessions = SessionCoordinator::new(1);
    let mut gate = AccessGate::new("unused.toml".to_string());
    gate.set_display_state(size, size, true, &sessions);
    let before = screen(&gate, size);
    let mut hub = FrameHub::new(size);
    let mut input = HostInputHandler::new(true);
    let mut handler = DirectTouchHandler::new();

    for event in handler.touch(&vec![contact(7, 612, 1309, true)]) {
        input.mouse(event, &mut gate, &mut hub, &mut sessions);
    }

    assert_ne!(screen(&gate, size), before);
}

#[test]
fn direct_touch_forwards_only_one_primary_contact_to_the_desktop() {
    let size = size(1280, 720);
    let mut sessions = SessionCoordinator::new(1);
    let mut gate = AccessGate::new("unused.toml".to_string());
    gate.set_display_state(size, size, true, &sessions);
    let generation = gate.begin_validation("test-user");
    gate.finish_validation(generation, "test-user", Ok(true), &sessions);
    let enter = KeyboardEvent::Pressed { code: 28, extended: false };
    gate.handle_keyboard(&enter, &mut sessions, size);
    let mut hub = FrameHub::new(size);
    let mut input = HostInputHandler::new(true);
    let mut handler = DirectTouchHandler::new();

    let mut buttons = Vec::new();
    let touches =
        [vec![contact(1, 100, 100, true), contact(2, 200, 200, true)], vec![contact(1, 100, 100, false)]];
    for contacts in &touches {
        for event in handler.touch(contacts) {
            let outcome = input.mouse(event, &mut gate, &mut hub, &mut sessions);
            if let InputOutcome::InjectMouse(MouseEvent::Button { pressed, .. }, _) = outcome {
                buttons.push(pressed);
            }
        }
    }

    assert_eq!(buttons, [true, false]);
}

#[test]
fn a_watching_client_controls_nothing() {
    let size = size(1280, 720);
    let mut sessions = SessionCoordinator::new(1);
    let mut gate = AccessGate::new("unused.toml".to_string());
    gate.set_display_state(size, size, true, &sessions);
    let generation = gate.begin_validation("test-user");
    gate.finish_validation(generation, "test-user", Ok(true), &sessions);
    let mut hub = FrameHub::new(size);
    let key = KeyboardEvent::Pressed { code: 30, extended: false };
    let mut watcher = HostInputHandler::new(false);
    assert!(matches!(
        watcher.keyboard(key, &mut gate, &hub, &mut sessions),
        InputOutcome::Ignored
    ));
    assert!(matches!(
        watcher.mouse(MouseEvent::Move { x: 1, y: 1 }, &mut gate, &mut hub, &mut sessions),
        InputOutcome::Ignored
    ));
    let mut controller = HostInputHandler::new(true);
    assert!(matches!(
        controller.keyboard(key, &mut gate, &hub, &mut sessions),
        InputOutcome::InjectKeyboard(KeyboardEvent::Pressed { code: 30, extended: false })
    ));
}

#[test]
fn keys_behind_the_gate_never_reach_the_desktop() {
    let size = size(1280, 720);
    let mut sessions = SessionCoordinator::new(1);
    let mut gate = AccessGate::new("unused.toml".to_string());
    gate.set_display_state(size, size, true, &sessions);
    let hub = FrameHub::new(size);
    let mut input = HostInputHandler::new(true);
    let key = KeyboardEvent::Pressed { code: 30, extended: false };
    assert!(matches!(
        input.keyboard(key, &mut gate, &hub, &mut sessions),
        InputOutcome::Gate(_)
    ));
    assert_eq!(gate.snapshot().username, "a");
}

#[test]
fn wheels_turn_without_a_canvas() {
    for event in [
        MouseEvent::VerticalScroll { value: -3 },
        MouseEvent::HorizontalScroll { value: 2 },
        MouseEvent::Scroll { x: 1, y: -1 },
    ] {
        let mapped = map_mouse_event(
            event,
            size(0, 0),
            size(2560, 1600),
            Some(DesktopPresentation::Scale),
        );
        assert_eq!(format!("{mapped:?}"), format!("{event:?}"));
    }
}

#[test]
fn axes_keep_their_edges() {
    assert_eq!(map_viewport_axis(0, 0, 1920, 2560), 0);
    assert_eq!(map_viewport_axis(1919, 0, 1920, 2560), 2559);
    assert_eq!(map_viewport_axis(50, 100, 1720, 2560), 0);
}

#[test]
fn fingers_outside_the_canvas_stay_at_its_edge() {
    assert_eq!(touch_position(&contact(1, -5, 70_000, true)), (0, 65535));
    let mut handler = DirectTouchHandler::new();
    assert!(matches!(
        handler.contact(&contact(1, 10, 20, true)),
        Some(MouseEvent::Button { x: 10, y: 20, button: MouseButton::Left, pressed: true })
    ));
    assert!(handler.contact(&contact(2, 0, 0, false)).is_none());
    let moved = TouchContact {
        contact_id: 1,
        x: 11,
        y: 21,
        down: false,
        update: true,
        up: false,
        canceled: false,
    };
    assert!(matches!(handler.contact(&moved), Some(MouseEvent::Move { x: 11, y: 21 })));
    assert!(matches!(
        handler.contact(&contact(1, 11, 21, false)),
        Some(MouseEvent::Button { pressed: false, .. })
    ));
}
