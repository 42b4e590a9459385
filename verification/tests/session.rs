//! Which connection owns the display.

use sun_remote_desktop::platform::DesktopSize;
use sun_remote_desktop::session::{takeover_reason, SessionCoordinator};

fn size(width: u16, height: u16) -> DesktopSize {
    DesktopSize { width, height }
}

#[test]
fn authenticated_candidate_can_take_over_and_kick_the_owner() {
    let desktop = size(1366, 768);
    let mut sessions = SessionCoordinator::new(1);
    let owner = sessions.reserve(desktop).unwrap();
    let candidate = sessions.reserve(desktop).unwrap();
    owner.attach(&mut sessions);

    assert!(!owner.has_other_owner(&sessions));
    assert!(candidate.has_other_owner(&sessions));
    let told = candidate.take_over(&mut sessions, desktop);
    assert_eq!(told.len(), 1);
    assert!(candidate.is_owner(&sessions));
    assert_eq!(told, vec![owner.id()]);
    assert!(takeover_reason().contains("took over"));
}

#[test]
fn takeover_transfers_display_restore_ownership() {
    let original = size(1366, 768);
    let mut sessions = SessionCoordinator::new(1);
    let owner = sessions.reserve(original).unwrap();
    let candidate = sessions.reserve(original).unwrap();
    candidate.take_over(&mut sessions, original);
    let published = size(1280, 720);

    assert_eq!(owner.close(&mut sessions, published), None);
    assert_eq!(candidate.close(&mut sessions, published), Some(original));
}

#[test]
fn remaining_candidate_inherits_ownership_without_restoring_early() {
    let original = size(1366, 768);
    let mut sessions = SessionCoordinator::new(1);
    let owner = sessions.reserve(original).unwrap();
    let candidate = sessions.reserve(original).unwrap();
    let published = size(1280, 720);

    assert_eq!(owner.close(&mut sessions, published), None);
    assert!(candidate.is_owner(&sessions));
    assert_eq!(candidate.close(&mut sessions, published), Some(original));
}

#[test]
fn one_candidate_slot_is_reserved_beyond_the_configured_limit() {
    let desktop = size(1366, 768);
    let mut sessions = SessionCoordinator::new(1);
    assert!(sessions.reserve(desktop).is_some());
    assert!(sessions.reserve(desktop).is_some());
    assert!(sessions.reserve(desktop).is_none());
}

#[test]
fn an_unchanged_display_is_not_restored() {
    let original = size(1366, 768);
    let mut sessions = SessionCoordinator::new(0);
    let only = sessions.reserve(original).unwrap();
    assert_eq!(sessions.active_count(), 1);
    assert_eq!(only.close(&mut sessions, original), None);
    assert_eq!(sessions.active_count(), 0);
    assert_eq!(only.close(&mut sessions, size(800, 600)), None);
}

#[test]
fn only_attached_sessions_are_told_to_quit() {
    let desktop = size(1366, 768);
    let mut sessions = SessionCoordinator::new(3);
    let first = sessions.reserve(desktop).unwrap();
    let second = sessions.reserve(desktop).unwrap();
    let third = sessions.reserve(desktop).unwrap();
    third.attach(&mut sessions);
    first.attach(&mut sessions);
    assert_eq!(sessions.disconnect_all(), vec![first.id(), third.id()]);
    assert_eq!(second.take_over(&mut sessions, desktop), vec![first.id(), third.id()]);
    assert_eq!(second.take_over(&mut sessions, desktop), vec![first.id(), third.id()]);
    second.close(&mut sessions, desktop);
    assert!(first.is_owner(&sessions));
    assert!(second.take_over(&mut sessions, desktop).is_empty());
}
