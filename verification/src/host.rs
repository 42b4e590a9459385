//! The host itself: whether it starts, whom it lets in, and how it stops.

use vstd::prelude::*;

use crate::access::{AccessGate, GateModel};
use crate::config::AppConfig;
use crate::platform::DesktopSize;
use crate::session::{SessionCoordinator, SessionLease};
use crate::text::push_decimal;
use crate::trust::ClientIdentity;
use crate::trusted_clients::ClientPreferences;

verus! {

/// The seconds without traffic after which a connection is probed.
pub const TCP_KEEPALIVE_IDLE_SECONDS: u64 = 30;

/// The seconds between two probes of a connection.
pub const TCP_KEEPALIVE_INTERVAL_SECONDS: u64 = 10;

/// The probes after which a silent connection is given up.
pub const TCP_KEEPALIVE_RETRIES: u32 = 3;

/// How many connections may wait to be accepted.
pub const LISTEN_BACKLOG: u32 = 128;

/// The seconds that connections have to end when the host stops.
pub const SHUTDOWN_GRACE_SECONDS: u64 = 3;

/// Why the host does not start.
#[derive(Debug, Clone, Copy, PartialEq, Eq, Structural)]
pub enum SettingsError {
    /// No account may connect.
    NoAllowedUsers,
}

/// Whether a host with these settings starts.
pub open spec fn host_starts(settings: crate::config::ConfigModel) -> Result<bool, SettingsError> {
    if !settings.enabled {
        Ok(false)
    } else if settings.allowed_users.len() == 0 {
        Err(SettingsError::NoAllowedUsers)
    } else {
        Ok(true)
    }
}

/// Whether the host starts: not where it is switched off, and a host that nobody may
/// connect to is a mistake.
pub fn validate_settings(settings: &AppConfig) -> (result: Result<bool, SettingsError>)
    ensures
        result == host_starts(settings@),
        if !settings@.enabled {
            result matches Ok(starts) && !starts
        } else if settings@.allowed_users.len() == 0 {
            result matches Err(error) && error == SettingsError::NoAllowedUsers
        } else {
            result matches Ok(starts) && starts
        },
{
    if !settings.enabled {
        return Ok(false);
    }
    if settings.allowed_users.len() == 0 {
        return Err(SettingsError::NoAllowedUsers);
    }
    Ok(true)
}

/// The address that the host listens on.
pub open spec fn listen_text(address: Seq<char>, port: u16) -> Seq<char> {
    address + ":"@ + crate::text::decimal(port as nat)
}

/// The address that the host listens on.
pub fn listen_address(settings: &AppConfig) -> (address: String)
    ensures
        address@ == listen_text(settings@.bind_address, settings@.port),
{
    let mut address = settings.bind_address.clone();
    address.push_str(":");
    push_decimal(&mut address, settings.port as u64);
    address
}

/// A codec that clients are offered.
#[derive(Debug, Clone, Copy, PartialEq, Eq, Structural)]
pub enum CodecOffer {
    NsCodec { dynamic_fidelity: bool, subsampling: bool, color_loss_level: u8 },
}

/// The codecs that clients are offered: one, without loss of colour. A client that
/// does not know it gets plain bitmaps.
pub fn display_codecs() -> (codecs: Vec<(u8, CodecOffer)>)
    ensures
        codecs@ == seq![
            (
                0u8,
                CodecOffer::NsCodec {
                    dynamic_fidelity: false,
                    subsampling: false,
                    color_loss_level: 1,
                },
            ),
        ],
{
    vec![
        (
            0,
            CodecOffer::NsCodec { dynamic_fidelity: false, subsampling: false, color_loss_level: 1 },
        ),
    ]
}

/// Whether a certificate must be made: one of its two files is missing.
pub fn needs_certificate(certificate_exists: bool, key_exists: bool) -> (needed: bool)
    ensures
        needed == !(certificate_exists && key_exists),
{
    !certificate_exists || !key_exists
}

/// The names on a certificate.
pub open spec fn certified_names(computer: Option<Seq<char>>, host: Option<Seq<char>>) -> Seq<
    Seq<char>,
> {
    seq![
        match computer {
            Some(name) => name,
            None => match host {
                Some(name) => name,
                None => "localhost"@,
            },
        },
        "localhost"@,
    ]
}

/// The names on a certificate: the machine's own, as the environment tells it, and
/// the one that every machine has.
pub fn certificate_names(computer: Option<&str>, host: Option<&str>) -> (names: Vec<String>)
    ensures
        crate::text::texts(names@) == certified_names(
            crate::auth::given(computer),
            crate::auth::given(host),
        ),
        crate::text::texts(names@) == seq![
            match computer {
                Some(name) => name@,
                None => match host {
                    Some(name) => name@,
                    None => "localhost"@,
                },
            },
            "localhost"@,
        ],
{
    let subject = match computer {
        Some(name) => name,
        None => match host {
            Some(name) => name,
            None => "localhost",
        },
    };
    let mut names: Vec<String> = Vec::new();
    names.push(subject.to_owned());
    names.push("localhost".to_owned());
    assert(crate::text::texts(names@) =~= seq![subject@, "localhost"@]);
    names
}

/// A client that was let in.
pub struct Admission {
    /// The client's session.
    pub lease: SessionLease,
    /// Whether another client owns the display, so that this one may only take it
    /// over.
    pub candidate: bool,
    /// The barrier between the client and the desktop.
    pub gate: AccessGate,
}

/// Lets a client in, unless every place is taken. It starts behind a closed barrier,
/// signed in where an account is remembered of it that may still connect.
pub fn admit_client(
    sessions: &mut SessionCoordinator,
    desktop: DesktopSize,
    config_path: String,
    identity: &ClientIdentity,
    remembered: ClientPreferences,
    settings: &AppConfig,
    computer: Option<&str>,
) -> (admission: Option<Admission>)
    ensures
        admission is None <==> old(sessions)@.sessions.len() >= old(sessions)@.capacity,
        admission is None ==> final(sessions)@ == old(sessions)@,
        admission matches Some(admission) ==> {
            let id = crate::session::next_session_id(old(sessions)@.last_id);
            &&& admission.lease.number() == id
            &&& final(sessions)@ == old(sessions)@.admitted(desktop)
            &&& admission.candidate == final(sessions)@.other_owner(id)
            &&& admission.gate@ == GateModel::of_client(
                config_path@,
                id,
                identity@.detail(),
                remembered@,
            ).signed_in_again(settings@, crate::auth::given(computer), final(sessions)@)
            &&& admission.gate@.shows_current_state()
            &&& !admission.gate@.state.snapshot().desktop_ready()
        },
        old(sessions)@.consistent() ==> final(sessions)@.consistent(),
{
    let lease = match sessions.reserve(desktop) {
        Some(lease) => lease,
        None => {
            return None;
        },
    };
    let candidate = lease.has_other_owner(sessions);
    let mut gate = AccessGate::new_for_client(config_path, lease, identity, remembered);
    let _ = gate.recall_sign_in(settings, computer, sessions);
    Some(Admission { lease, candidate, gate })
}

/// What the listener is doing.
#[derive(Debug, Clone, Copy, PartialEq, Eq, Structural)]
pub enum ListenerPhase {
    /// It accepts clients.
    Listening,
    /// It waits for the connections to end.
    Draining,
    /// It has returned.
    Stopped,
}

/// What happens to the listener.
#[derive(Debug, Clone, Copy, PartialEq, Eq, Structural)]
pub enum ListenerEvent {
    /// A client connected.
    Connected,
    /// Accepting a client failed.
    AcceptFailed,
    /// A connection ended.
    ConnectionEnded,
    /// The service asked to stop.
    StopRequested,
    /// The last connection ended.
    AllEnded,
    /// The connections took too long.
    GraceElapsed,
}

/// What the listener does next.
#[derive(Debug, Clone, Copy, PartialEq, Eq, Structural)]
pub enum ListenerAction {
    /// Let the client in, or turn it away.
    Admit,
    /// Go on.
    Continue,
    /// Tell every client to quit, and wait for their connections to end.
    Drain,
    /// End the connections that are left, and return.
    Abort,
    /// Return.
    Finish,
    /// Return with the error.
    Fail,
}

/// The step of the listener; an event that cannot come in a phase changes nothing.
pub open spec fn listener_step(phase: ListenerPhase, event: ListenerEvent) -> (
    ListenerPhase,
    ListenerAction,
) {
    match (phase, event) {
        (ListenerPhase::Listening, ListenerEvent::Connected) => (phase, ListenerAction::Admit),
        (ListenerPhase::Listening, ListenerEvent::AcceptFailed) => (
            ListenerPhase::Stopped,
            ListenerAction::Fail,
        ),
        (ListenerPhase::Listening, ListenerEvent::StopRequested) => (
            ListenerPhase::Draining,
            ListenerAction::Drain,
        ),
        (ListenerPhase::Draining, ListenerEvent::AllEnded) => (
            ListenerPhase::Stopped,
            ListenerAction::Finish,
        ),
        (ListenerPhase::Draining, ListenerEvent::GraceElapsed) => (
            ListenerPhase::Stopped,
            ListenerAction::Abort,
        ),
        (ListenerPhase::Stopped, _) => (phase, ListenerAction::Finish),
        _ => (phase, ListenerAction::Continue),
    }
}

/// Takes what happened to the listener.
pub fn next_listener_step(phase: ListenerPhase, event: ListenerEvent) -> (step: (
    ListenerPhase,
    ListenerAction,
))
    ensures
        step == listener_step(phase, event),
{
    match phase {
        ListenerPhase::Listening => match event {
            ListenerEvent::Connected => (phase, ListenerAction::Admit),
            ListenerEvent::AcceptFailed => (ListenerPhase::Stopped, ListenerAction::Fail),
            ListenerEvent::StopRequested => (ListenerPhase::Draining, ListenerAction::Drain),
            _ => (phase, ListenerAction::Continue),
        },
        ListenerPhase::Draining => match event {
            ListenerEvent::AllEnded => (ListenerPhase::Stopped, ListenerAction::Finish),
            ListenerEvent::GraceElapsed => (ListenerPhase::Stopped, ListenerAction::Abort),
            _ => (phase, ListenerAction::Continue),
        },
        ListenerPhase::Stopped => (phase, ListenerAction::Finish),
    }
}

/// What clients are told when the host stops.
pub fn shutdown_reason() -> (reason: &'static str)
    ensures
        reason@ == "SunRDP server is shutting down"@,
{
    "SunRDP server is shutting down"
}

/// Whether the service asked to stop: it says so, or nobody is left who could.
pub fn stop_requested(flag: bool, sender_gone: bool) -> (stop: bool)
    ensures
        stop == (flag || sender_gone),
{
    flag || sender_gone
}

/// Once the host is told to stop it lets nobody in, and it returns when the
/// connections have ended or taken too long.
pub proof fn law_stopping_host_admits_nobody(phase: ListenerPhase, event: ListenerEvent)
    requires
        !(phase is Listening),
    ensures
        !(listener_step(phase, event).1 is Admit),
        !(listener_step(phase, event).0 is Listening),
        phase is Draining && (event is AllEnded || event is GraceElapsed) ==> listener_step(
            phase,
            event,
        ).0 is Stopped,
{
}

/// A client that arrives while another one owns the display is a candidate for it,
/// and the first one owns it.
pub proof fn law_later_clients_are_candidates(
    sessions: crate::session::SessionModel,
    desktop: DesktopSize,
)
    ensures
        ({
            let id = crate::session::next_session_id(sessions.last_id);
            let next = sessions.admitted(desktop);
            &&& sessions.owner is None ==> next.owner == Some(id) && !next.other_owner(id)
            &&& sessions.owner is Some && sessions.owner != Some(id) ==> next.owner
                == sessions.owner && next.other_owner(id)
        }),
{
}

/// A listening host admits every client that connects, goes on when a connection ends, fails
/// when it cannot accept, and drains its connections when it is told to stop. A draining
/// one goes on until all have ended, and ends those that took too long.
pub proof fn law_listener_goes_on(event: ListenerEvent)
    ensures
        ({
            let listening = listener_step(ListenerPhase::Listening, event);
            let draining = listener_step(ListenerPhase::Draining, event);
            let stopped = listener_step(ListenerPhase::Stopped, event);
            &&& (listening.1 is Admit) == (event is Connected)
            &&& (listening.1 is Fail) == (event is AcceptFailed)
            &&& (listening.1 is Drain) == (event is StopRequested)
            &&& !(event is Connected) && !(event is AcceptFailed) && !(event is StopRequested)
                ==> listening.1 is Continue
            &&& event is StopRequested ==> listening.0 is Draining
            &&& event is AcceptFailed ==> listening.0 is Stopped
            &&& !(event is StopRequested) && !(event is AcceptFailed) ==> listening.0 is Listening
            &&& (draining.1 is Finish) == (event is AllEnded)
            &&& (draining.1 is Abort) == (event is GraceElapsed)
            &&& !(event is AllEnded) && !(event is GraceElapsed) ==> draining.1 is Continue
                && draining.0 is Draining
            &&& stopped.0 is Stopped && stopped.1 is Finish
        }),
{
}

/// The host listens at its address, a colon behind it, and behind that the digits of its
/// port.
pub proof fn law_listening_address_ends_in_the_port(address: Seq<char>, port: u16)
    ensures
        ({
            let text = listen_text(address, port);
            let digits = text.skip((address.len() + 1) as int);
            &&& text.take(address.len() as int) == address
            &&& text[address.len() as int] == ':'
            &&& crate::text::number_of(digits) == port
            &&& 1 <= digits.len() <= 5
        }),
{
    reveal_strlit(":");
    crate::text::law_decimals_are_read_back(port as nat);
    let text = listen_text(address, port);
    let digits = crate::text::decimal(port as nat);
    assert(text.take(address.len() as int) =~= address);
    assert(text.skip((address.len() + 1) as int) =~= digits);
    reveal_with_fuel(crate::text::decimal, 6);
}

/// A host starts exactly if it is switched on and somebody may connect. One that is switched
/// off is no mistake; one that is on for nobody is.
pub proof fn law_hosts_start_for_somebody(settings: crate::config::ConfigModel)
    ensures
        host_starts(settings) == Ok::<bool, SettingsError>(true) <==> settings.enabled
            && settings.allowed_users.len() > 0,
        host_starts(settings) is Err <==> settings.enabled && settings.allowed_users.len() == 0,
        !settings.enabled ==> host_starts(settings) == Ok::<bool, SettingsError>(false),
{
}

/// A certificate bears the computer's name, else the host's, and always that of every machine.
pub proof fn law_certificates_bear_the_machines_name(
    computer: Option<Seq<char>>,
    host: Option<Seq<char>>,
    name: Seq<char>,
)
    ensures
        ({
            let names = certified_names(computer, host);
            &&& names.len() == 2 && names[1] == "localhost"@
            &&& computer == Some(name) ==> names[0] == name
            &&& computer is None && host == Some(name) ==> names[0] == name
            &&& computer is None && host is None ==> names[0] == names[1]
        }),
{
}

} // verus!
