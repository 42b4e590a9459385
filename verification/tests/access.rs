//! The barrier between a client and the desktop.

use sun_remote_desktop::access::{
    scan_code_character, AccessAction, AccessField, AccessGate, AccessStatus, DesktopPresentation,
    ValidationFailure, MAX_FIELD_LENGTH,
};
use sun_remote_desktop::canvas::Canvas;
use sun_remote_desktop::events::{KeyboardEvent, MouseButton, MouseEvent};
use sun_remote_desktop::layout::UiLayout;
use sun_remote_desktop::platform::{CapturedFrame, DesktopSize};
use sun_remote_desktop::session::{takeover_reason, SessionCoordinator};
use sun_remote_desktop::trusted_clients::RememberedResolution;

fn size(width: u16, height: u16) -> DesktopSize {
    DesktopSize { width, height }
}

fn gate() -> AccessGate {
    AccessGate::new("unused.toml".to_string())
}

fn sessions() -> SessionCoordinator {
    SessionCoordinator::new(1)
}

fn key(code: u8) -> KeyboardEvent {
    KeyboardEvent::Pressed { code, extended: false }
}

fn sign_in(gate: &mut AccessGate, sessions: &SessionCoordinator) {
    let generation = gate.begin_validation("test-user");
    gate.finish_validation(generation, "test-user", Ok(true), sessions);
}

fn painted(gate: &AccessGate, size: DesktopSize) -> CapturedFrame {
    let scene = gate.render_frame(size);
    let mut canvas = Canvas::new(size);
    for shape in &scene.shapes {
        canvas.paint(shape);
    }
    canvas.into_frame()
}

#[test]
fn scan_code_mapping_handles_letters_and_symbols() {
    assert_eq!(scan_code_character(30, false, false), Some('a'));
    assert_eq!(scan_code_character(30, true, false), Some('A'));
    assert_eq!(scan_code_character(30, false, true), Some('A'));
    assert_eq!(scan_code_character(2, true, false), Some('!'));
    assert_eq!(scan_code_character(43, false, false), Some('\\'));
}

#[test]
fn scan_codes_without_a_character_have_none() {
    assert_eq!(scan_code_character(1, false, false), None);
    assert_eq!(scan_code_character(0, true, true), None);
    assert_eq!(scan_code_character(30, true, true), Some('a'));
}

#[test]
fn access_frame_matches_the_client_size() {
    let sessions = sessions();
    let mut gate = gate();
    let client = size(640, 480);
    gate.set_display_sizes(client, size(2560, 1600), &sessions);
    let frame = painted(&gate, client);
    assert_eq!((frame.width, frame.height), (client.width, client.height));
    assert_eq!(frame.rgba.len(), 640 * 480 * 4);
    assert!(frame.rgba.iter().any(|byte| *byte != 0));
}

#[test]
fn mismatched_displays_stay_gated_until_scaling_is_selected() {
    let mut sessions = sessions();
    let mut gate = gate();
    let host = size(2560, 1600);
    gate.set_display_sizes(size(1920, 1080), host, &sessions);
    sign_in(&mut gate, &sessions);
    assert!(!gate.is_desktop_ready());
    assert_eq!(gate.handle_keyboard(&key(28), &mut sessions, host).action, None);
    assert_eq!(gate.snapshot().presentation(), Some(DesktopPresentation::Scale));
    assert!(gate.is_desktop_ready());
}

#[test]
fn matching_displays_open_without_an_extra_prompt() {
    let sessions = sessions();
    let mut gate = gate();
    gate.set_display_sizes(size(1920, 1080), size(1920, 1080), &sessions);
    sign_in(&mut gate, &sessions);
    assert_eq!(gate.snapshot().presentation(), Some(DesktopPresentation::Native));
    assert!(gate.is_desktop_ready());
}

#[test]
fn scaling_choice_never_requests_a_physical_resize() {
    let mut sessions = sessions();
    let mut gate = gate();
    let host = size(2560, 1600);
    gate.set_display_sizes(size(1920, 1080), host, &sessions);
    sign_in(&mut gate, &sessions);
    assert_eq!(gate.handle_keyboard(&key(28), &mut sessions, host).action, None);

    assert_eq!(gate.request_client_resize(size(1600, 900), &sessions), None);
    assert_eq!(gate.snapshot().presentation(), Some(DesktopPresentation::Scale));
    assert!(!gate.should_follow_client_size(size(1600, 900), &sessions));
}

#[test]
fn match_display_choice_follows_later_client_resizes() {
    let mut sessions = sessions();
    let mut gate = gate();
    let host = size(2560, 1600);
    let initial_client = size(1920, 1200);
    gate.set_display_sizes(initial_client, host, &sessions);
    sign_in(&mut gate, &sessions);
    gate.handle_keyboard(&key(15), &mut sessions, host);
    assert_eq!(
        gate.handle_keyboard(&key(28), &mut sessions, host).action,
        Some(AccessAction::ChangeDisplaySize(initial_client))
    );
    assert_eq!(gate.snapshot().presentation(), Some(DesktopPresentation::Scale));
    assert!(gate.is_desktop_ready());
    gate.set_display_sizes(initial_client, initial_client, &sessions);

    let resized = size(1600, 1000);
    assert_eq!(
        gate.request_client_resize(resized, &sessions),
        Some(AccessAction::ChangeDisplaySize(resized))
    );
    assert_eq!(gate.snapshot().presentation(), Some(DesktopPresentation::Scale));
    assert!(gate.should_follow_client_size(resized, &sessions));
    gate.set_display_sizes(resized, resized, &sessions);
    assert_eq!(gate.snapshot().presentation(), Some(DesktopPresentation::Native));
}

#[test]
fn match_display_accepts_the_closest_mode_for_a_portrait_phone() {
    let mut sessions = sessions();
    let mut gate = gate();
    let phone = size(1224, 2556);
    let host = size(1920, 1200);
    gate.set_display_sizes(phone, host, &sessions);
    sign_in(&mut gate, &sessions);
    gate.handle_keyboard(&key(15), &mut sessions, host);
    assert_eq!(
        gate.handle_keyboard(&key(28), &mut sessions, host).action,
        Some(AccessAction::ChangeDisplaySize(phone))
    );

    // The canvas of the phone stays, and the mode that the screen took is fitted
    // into it.
    gate.set_display_sizes(phone, size(1280, 1440), &sessions);
    assert_eq!(gate.snapshot().presentation(), Some(DesktopPresentation::Scale));
    assert_eq!(gate.snapshot().status, AccessStatus::Granted);
    assert!(gate.is_desktop_ready());
}

#[test]
fn authentication_stays_gated_while_the_console_agent_is_unavailable() {
    let sessions = sessions();
    let mut gate = gate();
    gate.set_display_state(size(1920, 1080), size(2560, 1600), false, &sessions);
    sign_in(&mut gate, &sessions);
    assert!(!gate.is_desktop_ready());
    assert_eq!(gate.snapshot().status, AccessStatus::WaitingForDesktop);
    gate.set_display_state(size(1920, 1080), size(2560, 1600), true, &sessions);
    assert_eq!(gate.snapshot().status, AccessStatus::ResolutionRequired);
}

#[test]
fn authenticated_candidate_must_confirm_before_kicking_the_owner() {
    let desktop = size(1366, 768);
    let mut sessions = SessionCoordinator::new(1);
    let owner = sessions.reserve(desktop).unwrap();
    let candidate = sessions.reserve(desktop).unwrap();
    owner.attach(&mut sessions);
    let mut gate = AccessGate::new_for_session("unused.toml".to_string(), candidate);
    gate.set_display_sizes(desktop, desktop, &sessions);
    sign_in(&mut gate, &sessions);

    assert!(gate.snapshot().takeover_required);
    assert!(!gate.is_desktop_ready());
    let refused = gate.handle_keyboard(&key(28), &mut sessions, desktop);
    assert_eq!(refused.action, None);
    assert_eq!(gate.snapshot().status, AccessStatus::TakeoverConfirmationRequired);
    assert!(refused.disconnected.is_empty());

    gate.handle_keyboard(&key(57), &mut sessions, desktop);
    assert!(gate.snapshot().disconnect_others);
    let granted = gate.handle_keyboard(&key(28), &mut sessions, desktop);
    assert_eq!(granted.action, None);
    assert!(candidate.is_owner(&sessions));
    assert!(gate.is_desktop_ready());
    assert_eq!(granted.disconnected, vec![owner.id()]);
    assert!(takeover_reason().contains("took over"));
}

#[test]
fn compact_takeover_layout_keeps_confirmation_above_continue() {
    let layout = UiLayout::new(size(640, 480), true, true);
    let takeover = layout.takeover.expect("takeover option");
    assert!(takeover.y + takeover.height < layout.submit.y);
}

#[test]
fn controls_of_a_form_lie_below_one_another() {
    let layout = UiLayout::new(size(1280, 720), false, false);
    assert!(layout.takeover.is_none());
    assert!(layout.primary.y + layout.primary.height <= layout.secondary.y);
    assert!(layout.secondary.y + layout.secondary.height <= layout.submit.y);
    let submit = layout.submit;
    assert!(submit.contains((submit.x / 2 + 1) as u16, (submit.y / 2 + 1) as u16));
    assert!(!submit.contains(0, 0));
}

#[test]
fn the_boxes_stand_apart_from_the_other_controls() {
    for (resolution, takeover) in [(false, false), (true, false), (true, true)] {
        for canvas in [size(640, 480), size(1280, 620), size(1920, 1080)] {
            let layout = UiLayout::new(canvas, resolution, takeover);
            let above = layout.takeover.unwrap_or(layout.secondary);
            assert!(above.y + above.height < layout.remember.y);
            assert!(layout.remember.y + layout.remember.height < layout.submit.y);
        }
    }
}

#[test]
fn a_client_is_remembered_when_it_asks_and_its_account_is_accepted() {
    let mut sessions = sessions();
    let desktop = size(1280, 720);
    let mut gate = gate();
    gate.set_display_sizes(desktop, desktop, &sessions);
    let generation = gate.begin_validation("ann");
    assert_eq!(gate.finish_validation(generation, "ann", Ok(true), &sessions), None);
    gate.reset();
    gate.set_display_sizes(desktop, desktop, &sessions);

    gate.handle_keyboard(&key(15), &mut sessions, desktop);
    gate.handle_keyboard(&key(15), &mut sessions, desktop);
    assert_eq!(gate.snapshot().focus, AccessField::Remember);
    gate.handle_keyboard(&key(30), &mut sessions, desktop);
    gate.handle_keyboard(&key(14), &mut sessions, desktop);
    assert!(!gate.snapshot().remember.client);
    gate.handle_keyboard(&key(57), &mut sessions, desktop);
    assert!(gate.snapshot().remember.client);
    assert_eq!(gate.snapshot().username, "");
    gate.handle_keyboard(&key(15), &mut sessions, desktop);
    assert_eq!(gate.snapshot().focus, AccessField::Username);

    let generation = gate.begin_validation("ann");
    assert_eq!(gate.finish_validation(generation, "ann", Ok(false), &sessions), None);
    assert_eq!(gate.finish_validation(generation, "ann", Err(ValidationFailure), &sessions), None);
    assert_eq!(gate.finish_validation(generation + 1, "ann", Ok(true), &sessions), None);
    assert_eq!(
        gate.finish_validation(generation, " ann ", Ok(true), &sessions),
        Some("ann".to_string())
    );
    gate.reset();
    assert!(!gate.snapshot().remember.client);
}

#[test]
fn a_click_ticks_the_box_of_the_form() {
    let mut sessions = sessions();
    let desktop = size(1280, 720);
    let mut gate = gate();
    gate.set_display_sizes(desktop, desktop, &sessions);
    let tick = UiLayout::new(desktop, false, false).remember;
    let (x, y) = ((tick.x / 2 + 2) as u16, (tick.y / 2 + 2) as u16);
    let press = MouseEvent::Button { x, y, button: MouseButton::Left, pressed: true };
    gate.handle_mouse(&press, &mut sessions, desktop);
    assert!(gate.snapshot().remember.client);
    assert_eq!(gate.snapshot().focus, AccessField::Remember);
    gate.handle_mouse(&press, &mut sessions, desktop);
    assert!(!gate.snapshot().remember.client);
}

#[test]
fn a_display_fit_is_remembered_when_it_is_asked_for_and_applied() {
    let mut sessions = sessions();
    let (client, host) = (size(1920, 1080), size(2560, 1600));
    let mut gate = gate();
    gate.set_display_sizes(client, host, &sessions);
    sign_in(&mut gate, &sessions);
    gate.handle_keyboard(&key(80), &mut sessions, host);
    let ticked = gate.handle_keyboard(&key(57), &mut sessions, host);
    assert_eq!(ticked.remember, None);
    assert!(gate.snapshot().remember.fit);
    let applied = gate.handle_keyboard(&key(28), &mut sessions, host);
    assert_eq!(applied.remember, Some(RememberedResolution::MatchDisplay));
    assert_eq!(applied.action, Some(AccessAction::ChangeDisplaySize(client)));

    let mut sessions = SessionCoordinator::new(1);
    sessions.reserve(host).unwrap();
    let candidate = sessions.reserve(host).unwrap();
    let mut gate = AccessGate::new_for_session("unused.toml".to_string(), candidate);
    gate.set_display_sizes(client, host, &sessions);
    sign_in(&mut gate, &sessions);
    gate.handle_keyboard(&key(80), &mut sessions, host);
    gate.handle_keyboard(&key(57), &mut sessions, host);
    assert!(gate.snapshot().remember.fit && !gate.snapshot().disconnect_others);
    assert_eq!(gate.handle_keyboard(&key(28), &mut sessions, host).remember, None);
    gate.handle_keyboard(&key(72), &mut sessions, host);
    gate.handle_keyboard(&key(57), &mut sessions, host);
    assert!(gate.snapshot().disconnect_others);
    let tick = UiLayout::new(client, true, true).remember;
    let (x, y) = ((tick.x / 2 + 2) as u16, (tick.y / 2 + 2) as u16);
    let press = MouseEvent::Button { x, y, button: MouseButton::Left, pressed: true };
    gate.handle_mouse(&press, &mut sessions, host);
    assert!(!gate.snapshot().remember.fit);
    gate.handle_mouse(&press, &mut sessions, host);
    assert_eq!(
        gate.handle_keyboard(&key(28), &mut sessions, host).remember,
        Some(RememberedResolution::Scale)
    );
}

#[test]
fn typed_credentials_are_submitted_once() {
    let mut sessions = sessions();
    let mut gate = gate();
    let desktop = size(1280, 720);
    gate.set_display_sizes(desktop, desktop, &sessions);
    for code in [30, 48] {
        gate.handle_keyboard(&key(code), &mut sessions, desktop);
    }
    gate.handle_keyboard(&key(15), &mut sessions, desktop);
    assert_eq!(gate.snapshot().focus, AccessField::Password);
    gate.handle_keyboard(&key(46), &mut sessions, desktop);
    let response = gate.handle_keyboard(&key(28), &mut sessions, desktop);
    let submission = response.submission.expect("credentials to check");
    assert_eq!(submission.username, "ab");
    assert_eq!(submission.password, "c");
    assert_eq!(submission.generation, gate.connection_generation());
    assert_eq!(gate.snapshot().status, AccessStatus::Checking);
    assert_eq!(gate.snapshot().password_length, 0);
}

#[test]
fn a_blank_form_is_not_submitted() {
    let mut sessions = sessions();
    let mut gate = gate();
    let desktop = size(1280, 720);
    let response = gate.handle_keyboard(&key(28), &mut sessions, desktop);
    assert!(response.submission.is_none());
    assert_eq!(gate.snapshot().status, AccessStatus::MissingCredentials);
}

#[test]
fn a_field_stops_at_its_limit() {
    let mut sessions = sessions();
    let mut gate = gate();
    let desktop = size(1280, 720);
    for _ in 0..MAX_FIELD_LENGTH + 3 {
        gate.handle_keyboard(&key(30), &mut sessions, desktop);
    }
    assert_eq!(gate.snapshot().username.len(), MAX_FIELD_LENGTH);
    gate.handle_keyboard(&key(14), &mut sessions, desktop);
    assert_eq!(gate.snapshot().username.len(), MAX_FIELD_LENGTH - 1);
}

#[test]
fn refused_and_failed_checks_keep_the_desktop_closed() {
    let sessions = sessions();
    let desktop = size(1280, 720);
    let mut gate = gate();
    gate.set_display_sizes(desktop, desktop, &sessions);
    let generation = gate.begin_validation("test-user");
    gate.finish_validation(generation, "test-user", Ok(false), &sessions);
    assert_eq!(gate.snapshot().status, AccessStatus::Rejected);
    assert!(!gate.is_desktop_ready());

    let generation = gate.begin_validation("test-user");
    gate.finish_validation(generation, "test-user", Err(ValidationFailure), &sessions);
    assert_eq!(gate.snapshot().status, AccessStatus::BackendError);
    assert!(!gate.is_authenticated());
}

#[test]
fn a_stale_outcome_is_ignored() {
    let sessions = sessions();
    let desktop = size(1280, 720);
    let mut gate = gate();
    gate.set_display_sizes(desktop, desktop, &sessions);
    let generation = gate.begin_validation("test-user");
    gate.reset();
    gate.finish_validation(generation, "test-user", Ok(true), &sessions);
    assert!(!gate.is_authenticated());
    assert!(!gate.is_desktop_ready());
}

#[test]
fn losing_the_desktop_closes_it() {
    let sessions = sessions();
    let desktop = size(1280, 720);
    let mut gate = gate();
    gate.set_display_sizes(desktop, desktop, &sessions);
    sign_in(&mut gate, &sessions);
    assert!(gate.is_desktop_ready());
    gate.set_display_state(desktop, desktop, false, &sessions);
    assert!(!gate.is_desktop_ready());
    assert!(gate.is_authenticated());
}

#[test]
fn a_click_focuses_the_password_field() {
    let mut sessions = sessions();
    let desktop = size(1280, 720);
    let mut gate = gate();
    gate.set_display_sizes(desktop, desktop, &sessions);
    let field = UiLayout::new(desktop, false, false).secondary;
    let (x, y) = ((field.x / 2 + 2) as u16, (field.y / 2 + 2) as u16);
    gate.handle_mouse(&MouseEvent::Move { x, y }, &mut sessions, desktop);
    let press = MouseEvent::Button { x, y, button: MouseButton::Left, pressed: true };
    gate.handle_mouse(&press, &mut sessions, desktop);
    assert_eq!(gate.snapshot().focus, AccessField::Password);
}

#[test]
fn the_screen_is_published_with_a_new_revision() {
    let sessions = sessions();
    let desktop = size(1280, 720);
    let mut gate = gate();
    let before = gate.revision();
    gate.set_display_sizes(desktop, desktop, &sessions);
    assert!(gate.revision() != before);
    assert_eq!(gate.published().client_size(), Some(desktop));
    assert_eq!(gate.config_path(), "unused.toml");
    assert!(!gate.snapshot().is_desktop_ready());
}
