//! Starting, admitting and stopping.

use sun_remote_desktop::access::{AccessAction, AccessStatus, DesktopPresentation};
use sun_remote_desktop::config::AppConfig;
use sun_remote_desktop::host::{
    admit_client, certificate_names, display_codecs, listen_address, needs_certificate,
    next_listener_step, shutdown_reason, stop_requested, validate_settings, CodecOffer,
    ListenerAction, ListenerEvent, ListenerPhase, SettingsError, TCP_KEEPALIVE_IDLE_SECONDS,
    TCP_KEEPALIVE_INTERVAL_SECONDS, TCP_KEEPALIVE_RETRIES, Admission,
};
use sun_remote_desktop::platform::DesktopSize;
use sun_remote_desktop::service::{
    answer_control, next_service_step, run, ControlAnswer, HostResult, ServiceControl,
    ServiceError, ServiceStep,
};
use sun_remote_desktop::session::SessionCoordinator;
use sun_remote_desktop::trust::ClientIdentity;
use sun_remote_desktop::trusted_clients::{ClientPreferences, RememberedResolution};

fn size(width: u16, height: u16) -> DesktopSize {
    DesktopSize { width, height }
}

fn known(username: Option<&str>, resolution: Option<RememberedResolution>) -> ClientPreferences {
    ClientPreferences { trusted_username: username.map(str::to_string), resolution }
}

/// Lets a client in to a host on which only alice has an account.
fn let_in(sessions: &mut SessionCoordinator, remembered: ClientPreferences) -> Option<Admission> {
    let mut settings = AppConfig::default();
    settings.allowed_users.push("alice".to_string());
    admit_client(
        sessions,
        size(1366, 768),
        "config.toml".to_string(),
        &ClientIdentity::tailscale("n1", "phone"),
        remembered,
        &settings,
        Some("PC"),
    )
}

#[test]
fn production_codec_offer_is_limited_to_nscodec() {
    let codecs = display_codecs();
    assert_eq!(codecs.len(), 1);
    assert!(matches!(codecs[0].1, CodecOffer::NsCodec { .. }));
    assert_eq!(
        codecs[0],
        (
            0,
            CodecOffer::NsCodec { dynamic_fidelity: false, subsampling: false, color_loss_level: 1 }
        )
    );
}

#[test]
fn silent_connections_are_given_up_after_a_minute() {
    let silence = TCP_KEEPALIVE_IDLE_SECONDS
        + u64::from(TCP_KEEPALIVE_RETRIES) * TCP_KEEPALIVE_INTERVAL_SECONDS;
    assert_eq!(silence, 60);
}

#[test]
fn a_host_without_accounts_does_not_start() {
    let mut config = AppConfig::default();
    assert_eq!(validate_settings(&config), Err(SettingsError::NoAllowedUsers));
    config.allowed_users.push("alice".to_string());
    assert_eq!(validate_settings(&config), Ok(true));
    config.enabled = false;
    assert_eq!(validate_settings(&config), Ok(false));
}

#[test]
fn the_listening_address_has_its_port() {
    let config = AppConfig::default();
    assert_eq!(listen_address(&config), "0.0.0.0:3390");
}

#[test]
fn a_certificate_names_the_machine() {
    assert!(needs_certificate(true, false));
    assert!(needs_certificate(false, true));
    assert!(!needs_certificate(true, true));
    assert_eq!(certificate_names(Some("PC"), Some("pc.lan")), vec!["PC", "localhost"]);
    assert_eq!(certificate_names(None, Some("pc.lan")), vec!["pc.lan", "localhost"]);
    assert_eq!(certificate_names(None, None), vec!["localhost", "localhost"]);
}

#[test]
fn later_clients_are_candidates_and_the_last_place_is_the_last() {
    let mut sessions = SessionCoordinator::new(1);
    let first = let_in(&mut sessions, ClientPreferences::default()).unwrap();
    assert!(!first.candidate);
    assert!(!first.gate.is_desktop_ready());
    assert_eq!(first.gate.config_path(), "config.toml");
    let second = let_in(&mut sessions, ClientPreferences::default()).unwrap();
    assert!(second.candidate);
    assert!(second.lease.id() != first.lease.id());
    assert!(let_in(&mut sessions, ClientPreferences::default()).is_none());
}

#[test]
fn a_remembered_client_signs_in_only_while_its_account_may_connect() {
    let mut sessions = SessionCoordinator::new(4);
    let trusted = let_in(&mut sessions, known(Some(" PC\\Alice "), None)).unwrap();
    assert!(trusted.gate.is_authenticated());
    assert!(!trusted.gate.is_desktop_ready());
    assert_eq!(trusted.gate.snapshot().username, "PC\\Alice");
    assert_eq!(trusted.gate.snapshot().status, AccessStatus::WaitingForDesktop);
    let shown = format!("{:?}", trusted.gate.snapshot().remember);
    assert!(shown.contains("phone via Tailscale; no password is stored"));

    let removed = let_in(&mut sessions, known(Some("bob"), None)).unwrap();
    assert!(!removed.gate.is_authenticated());
    let form = format!("{:?}", removed.gate.render_frame(size(1280, 720)));
    assert!(form.contains("Remember this client  •  phone via Tailscale; no password is stored"));
    assert_eq!(removed.gate.snapshot().status, AccessStatus::Ready);
    let unknown = let_in(&mut sessions, known(None, Some(RememberedResolution::Scale))).unwrap();
    assert!(!unknown.gate.is_authenticated());
}

#[test]
fn trust_does_not_open_a_desktop_that_another_client_owns() {
    let mut sessions = SessionCoordinator::new(1);
    let owner = let_in(&mut sessions, ClientPreferences::default()).unwrap();
    let mut late = let_in(
        &mut sessions,
        known(Some("alice"), Some(RememberedResolution::MatchDisplay)),
    )
    .unwrap();
    assert!(late.candidate);
    assert!(late.gate.is_authenticated());
    late.gate.set_display_state(size(1280, 720), size(1366, 768), true, &sessions);
    assert_eq!(late.gate.recall_fit(&sessions), None);
    assert!(late.gate.snapshot().takeover_required);
    assert!(!late.gate.is_desktop_ready());
    assert!(owner.lease.is_owner(&sessions));
}

#[test]
fn a_remembered_fit_is_applied_once_the_client_has_control() {
    let (client, host) = (size(1280, 720), size(1366, 768));
    let mut sessions = SessionCoordinator::new(1);
    let mut gate = let_in(
        &mut sessions,
        known(Some("alice"), Some(RememberedResolution::MatchDisplay)),
    )
    .unwrap()
    .gate;
    assert_eq!(gate.recall_fit(&sessions), None);
    gate.set_display_state(client, host, true, &sessions);
    assert_eq!(gate.snapshot().status, AccessStatus::ResolutionRequired);
    assert_eq!(gate.recall_fit(&sessions), Some(AccessAction::ChangeDisplaySize(client)));
    assert!(gate.is_desktop_ready());
    assert_eq!(gate.snapshot().presentation(), Some(DesktopPresentation::Scale));
    assert!(gate.should_follow_client_size(client, &sessions));
    assert_eq!(gate.recall_fit(&sessions), None);

    let mut sessions = SessionCoordinator::new(1);
    let mut gate = let_in(
        &mut sessions,
        known(Some("alice"), Some(RememberedResolution::Scale)),
    )
    .unwrap()
    .gate;
    gate.set_display_state(client, host, true, &sessions);
    assert_eq!(gate.recall_fit(&sessions), None);
    assert!(gate.is_desktop_ready());
    assert!(!gate.should_follow_client_size(client, &sessions));

    let mut sessions = SessionCoordinator::new(1);
    let mut gate = let_in(
        &mut sessions,
        known(Some("alice"), Some(RememberedResolution::MatchDisplay)),
    )
    .unwrap()
    .gate;
    gate.set_display_state(host, host, true, &sessions);
    assert_eq!(gate.recall_fit(&sessions), None);
    assert_eq!(gate.snapshot().presentation(), Some(DesktopPresentation::Native));
    assert!(gate.should_follow_client_size(host, &sessions));
    gate.reset();
    gate.set_display_state(client, host, true, &sessions);
    assert_eq!(gate.recall_fit(&sessions), None);
    assert!(!gate.is_authenticated());
}

#[test]
fn a_stopping_host_drains_its_connections() {
    let (phase, action) = next_listener_step(ListenerPhase::Listening, ListenerEvent::Connected);
    assert_eq!((phase, action), (ListenerPhase::Listening, ListenerAction::Admit));
    let (phase, action) = next_listener_step(phase, ListenerEvent::ConnectionEnded);
    assert_eq!((phase, action), (ListenerPhase::Listening, ListenerAction::Continue));
    let (phase, action) = next_listener_step(phase, ListenerEvent::StopRequested);
    assert_eq!((phase, action), (ListenerPhase::Draining, ListenerAction::Drain));
    assert_eq!(
        next_listener_step(phase, ListenerEvent::Connected),
        (ListenerPhase::Draining, ListenerAction::Continue)
    );
    assert_eq!(
        next_listener_step(phase, ListenerEvent::AllEnded),
        (ListenerPhase::Stopped, ListenerAction::Finish)
    );
    assert_eq!(
        next_listener_step(phase, ListenerEvent::GraceElapsed),
        (ListenerPhase::Stopped, ListenerAction::Abort)
    );
    assert_eq!(
        next_listener_step(ListenerPhase::Listening, ListenerEvent::AcceptFailed),
        (ListenerPhase::Stopped, ListenerAction::Fail)
    );
    assert_eq!(
        next_listener_step(ListenerPhase::Stopped, ListenerEvent::Connected),
        (ListenerPhase::Stopped, ListenerAction::Finish)
    );
    assert!(stop_requested(true, false));
    assert!(stop_requested(false, true));
    assert!(!stop_requested(false, false));
    assert_eq!(shutdown_reason(), "SunRDP server is shutting down");
}

#[test]
fn the_service_answers_stop_and_nothing_else() {
    assert_eq!(answer_control(ServiceControl::Stop), ControlAnswer::Accepted);
    assert_eq!(answer_control(ServiceControl::Shutdown), ControlAnswer::Accepted);
    assert_eq!(answer_control(ServiceControl::Other), ControlAnswer::NotImplemented);
}

#[test]
fn a_failed_host_stops_the_service_with_an_error() {
    assert_eq!(next_service_step(false, None), ServiceStep::Wait);
    assert_eq!(next_service_step(false, Some(HostResult::Succeeded)), ServiceStep::StopCleanly);
    assert_eq!(
        next_service_step(false, Some(HostResult::Failed)),
        ServiceStep::StopWithError { code: 1 }
    );
    assert_eq!(next_service_step(true, Some(HostResult::Failed)), ServiceStep::StopCleanly);
    assert_eq!(run(None), Err(ServiceError::Unsupported));
    assert_eq!(run(Some(false)), Err(ServiceError::NotStarted));
    assert_eq!(run(Some(true)), Ok(()));
}
