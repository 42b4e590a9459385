//! The loops around the console agent, one decision at a time.
//!
//! Each loop is a state, the one thing that it asks for next, and a step from what
//! came of it to the next state.

use vstd::prelude::*;

use crate::console::{ConsoleDesktop, NO_ACTIVE_CONSOLE_SESSION};

verus! {

/// Where the supervisor of the console agent stands.
#[derive(Debug, Clone, Copy, PartialEq, Eq, Structural)]
#[allow(inconsistent_fields)]
pub enum SupervisorPhase {
    /// No agent runs; first see whether the service stops.
    Idle,
    /// No agent runs; find the session on the physical console.
    FindingSession,
    /// An agent is about to start in this session.
    Starting { session_id: u32 },
    /// An agent runs; first see whether the service stops.
    Watching { session_id: u32 },
    /// An agent runs; see whether its session is still on the physical console.
    Comparing { session_id: u32 },
    /// An agent runs; wait for its end for a moment.
    Waiting { session_id: u32 },
    /// No agent runs; wait before the next attempt.
    BackingOff,
    /// The service stops.
    Stopped,
}

/// What the supervisor asks for.
#[derive(Debug, Clone, Copy, PartialEq, Eq, Structural)]
pub enum SupervisorAction {
    /// See, without waiting, whether the service stops.
    PollShutdown,
    /// Ask Windows for the session on the physical console.
    QuerySession,
    /// Start an agent.
    Start { session_id: u32, desktop: ConsoleDesktop },
    /// Wait for the agent's end, for the time between two looks.
    WaitForAgent,
    /// Wait for the service's stop, for the time before an attempt.
    BackOff,
    /// Return.
    Stop,
}

/// What came of what the supervisor asked for.
#[derive(Debug, Clone, Copy, PartialEq, Eq, Structural)]
pub enum SupervisorEvent {
    /// The service does not stop, as far as is known.
    KeepRunning,
    /// The service asked to stop.
    ShutdownReceived,
    /// Nobody is left who could ask to stop.
    ShutdownDisconnected,
    /// The session that Windows reports.
    Session(u32),
    /// The agent runs.
    Started,
    /// The agent could not be started.
    StartFailed,
    /// The agent still runs after the wait.
    StillRunning,
    /// The agent has ended with this status.
    Exited(u32),
    /// The wait itself failed.
    WaitFailed,
}

/// The state of the supervisor.
#[derive(Debug, Clone, Copy, PartialEq, Eq, Structural)]
pub struct Supervisor {
    pub desktop: ConsoleDesktop,
    pub phase: SupervisorPhase,
}

/// What a step does: the next state, and whether the agent is ended first.
#[derive(Debug, Clone, Copy, PartialEq, Eq, Structural)]
pub struct SupervisorStep {
    pub next: Supervisor,
    pub terminate: bool,
}

impl Supervisor {
    /// Whether an agent runs.
    pub open spec fn runs_agent(self) -> bool {
        self.phase is Watching || self.phase is Comparing || self.phase is Waiting
    }

    /// The same supervisor in another phase.
    pub open spec fn at(self, phase: SupervisorPhase) -> Supervisor {
        Supervisor { phase, ..self }
    }

    /// What the supervisor asks for.
    pub open spec fn pending(self) -> SupervisorAction {
        match self.phase {
            SupervisorPhase::Idle => SupervisorAction::PollShutdown,
            SupervisorPhase::FindingSession => SupervisorAction::QuerySession,
            SupervisorPhase::Starting { session_id } => SupervisorAction::Start {
                session_id,
                desktop: self.desktop,
            },
            SupervisorPhase::Watching { .. } => SupervisorAction::PollShutdown,
            SupervisorPhase::Comparing { .. } => SupervisorAction::QuerySession,
            SupervisorPhase::Waiting { .. } => SupervisorAction::WaitForAgent,
            SupervisorPhase::BackingOff => SupervisorAction::BackOff,
            SupervisorPhase::Stopped => SupervisorAction::Stop,
        }
    }

    /// The step that an event leads to; one that answers nothing that was asked for
    /// changes nothing.
    pub open spec fn stepped(self, event: SupervisorEvent) -> SupervisorStep {
        let stays = SupervisorStep { next: self, terminate: false };
        match self.phase {
            SupervisorPhase::Idle => match event {
                SupervisorEvent::KeepRunning => SupervisorStep {
                    next: self.at(SupervisorPhase::FindingSession),
                    terminate: false,
                },
                SupervisorEvent::ShutdownReceived => SupervisorStep {
                    next: self.at(SupervisorPhase::Stopped),
                    terminate: false,
                },
                SupervisorEvent::ShutdownDisconnected => SupervisorStep {
                    next: self.at(SupervisorPhase::Stopped),
                    terminate: false,
                },
                _ => stays,
            },
            SupervisorPhase::FindingSession => match event {
                SupervisorEvent::Session(reported) => SupervisorStep {
                    next: self.at(
                        if reported == NO_ACTIVE_CONSOLE_SESSION {
                            SupervisorPhase::BackingOff
                        } else {
                            SupervisorPhase::Starting { session_id: reported }
                        },
                    ),
                    terminate: false,
                },
                _ => stays,
            },
            SupervisorPhase::Starting { session_id } => match event {
                SupervisorEvent::Started => SupervisorStep {
                    next: self.at(SupervisorPhase::Watching { session_id }),
                    terminate: false,
                },
                SupervisorEvent::StartFailed => SupervisorStep {
                    next: self.at(SupervisorPhase::BackingOff),
                    terminate: false,
                },
                _ => stays,
            },
            SupervisorPhase::Watching { session_id } => match event {
                SupervisorEvent::KeepRunning => SupervisorStep {
                    next: self.at(SupervisorPhase::Comparing { session_id }),
                    terminate: false,
                },
                SupervisorEvent::ShutdownReceived => SupervisorStep {
                    next: self.at(SupervisorPhase::Stopped),
                    terminate: true,
                },
                SupervisorEvent::ShutdownDisconnected => SupervisorStep {
                    next: self.at(SupervisorPhase::Stopped),
                    terminate: true,
                },
                _ => stays,
            },
            SupervisorPhase::Comparing { session_id } => match event {
                SupervisorEvent::Session(reported) => if crate::console::on_console(
                    session_id,
                    reported,
                ) {
                    SupervisorStep {
                        next: self.at(SupervisorPhase::Waiting { session_id }),
                        terminate: false,
                    }
                } else {
                    SupervisorStep { next: self.at(SupervisorPhase::Idle), terminate: true }
                },
                _ => stays,
            },
            SupervisorPhase::Waiting { session_id } => match event {
                SupervisorEvent::StillRunning => SupervisorStep {
                    next: self.at(SupervisorPhase::Watching { session_id }),
                    terminate: false,
                },
                SupervisorEvent::Exited(code) => match ConsoleDesktop::of_exit_code(code) {
                    Some(desktop) => SupervisorStep {
                        next: Supervisor { desktop, phase: SupervisorPhase::Idle },
                        terminate: false,
                    },
                    None => SupervisorStep {
                        next: self.at(SupervisorPhase::BackingOff),
                        terminate: false,
                    },
                },
                SupervisorEvent::WaitFailed => SupervisorStep {
                    next: self.at(SupervisorPhase::Idle),
                    terminate: true,
                },
                _ => stays,
            },
            SupervisorPhase::BackingOff => match event {
                SupervisorEvent::ShutdownReceived => SupervisorStep {
                    next: self.at(SupervisorPhase::Stopped),
                    terminate: false,
                },
                SupervisorEvent::KeepRunning => SupervisorStep {
                    next: self.at(SupervisorPhase::Idle),
                    terminate: false,
                },
                SupervisorEvent::ShutdownDisconnected => SupervisorStep {
                    next: self.at(SupervisorPhase::Idle),
                    terminate: false,
                },
                _ => stays,
            },
            SupervisorPhase::Stopped => stays,
        }
    }

    /// A supervisor that has started nothing yet.
    pub fn new() -> (supervisor: Supervisor)
        ensures
            supervisor.desktop == ConsoleDesktop::Default,
            supervisor.phase == SupervisorPhase::Idle,
    {
        Supervisor { desktop: ConsoleDesktop::Default, phase: SupervisorPhase::Idle }
    }

    /// What the supervisor asks for.
    pub fn action(&self) -> (action: SupervisorAction)
        ensures
            action == self.pending(),
    {
        match self.phase {
            SupervisorPhase::Idle => SupervisorAction::PollShutdown,
            SupervisorPhase::FindingSession => SupervisorAction::QuerySession,
            SupervisorPhase::Starting { session_id } => SupervisorAction::Start {
                session_id,
                desktop: self.desktop,
            },
            SupervisorPhase::Watching { .. } => SupervisorAction::PollShutdown,
            SupervisorPhase::Comparing { .. } => SupervisorAction::QuerySession,
            SupervisorPhase::Waiting { .. } => SupervisorAction::WaitForAgent,
            SupervisorPhase::BackingOff => SupervisorAction::BackOff,
            SupervisorPhase::Stopped => SupervisorAction::Stop,
        }
    }

    /// Takes what came of the action; `true` where the agent is ended first.
    pub fn step(&mut self, event: SupervisorEvent) -> (terminate: bool)
        ensures
            *final(self) == old(self).stepped(event).next,
            terminate == old(self).stepped(event).terminate,
    {
        match self.phase {
            SupervisorPhase::Idle => match event {
                SupervisorEvent::KeepRunning => {
                    self.phase = SupervisorPhase::FindingSession;
                    false
                },
                SupervisorEvent::ShutdownReceived | SupervisorEvent::ShutdownDisconnected => {
                    self.phase = SupervisorPhase::Stopped;
                    false
                },
                _ => false,
            },
            SupervisorPhase::FindingSession => {
                if let SupervisorEvent::Session(reported) = event {
                    self.phase = match crate::console::active_console_session_id(reported) {
                        None => SupervisorPhase::BackingOff,
                        Some(session_id) => SupervisorPhase::Starting { session_id },
                    };
                }
                false
            },
            SupervisorPhase::Starting { session_id } => {
                match event {
                    SupervisorEvent::Started => {
                        self.phase = SupervisorPhase::Watching { session_id };
                    },
                    SupervisorEvent::StartFailed => {
                        self.phase = SupervisorPhase::BackingOff;
                    },
                    _ => {},
                }
                false
            },
            SupervisorPhase::Watching { session_id } => match event {
                SupervisorEvent::KeepRunning => {
                    self.phase = SupervisorPhase::Comparing { session_id };
                    false
                },
                SupervisorEvent::ShutdownReceived | SupervisorEvent::ShutdownDisconnected => {
                    self.phase = SupervisorPhase::Stopped;
                    true
                },
                _ => false,
            },
            SupervisorPhase::Comparing { session_id } => match event {
                SupervisorEvent::Session(reported) => {
                    if crate::console::is_active_console_session(session_id, reported) {
                        self.phase = SupervisorPhase::Waiting { session_id };
                        false
                    } else {
                        self.phase = SupervisorPhase::Idle;
                        true
                    }
                },
                _ => false,
            },
            SupervisorPhase::Waiting { session_id } => match event {
                SupervisorEvent::StillRunning => {
                    self.phase = SupervisorPhase::Watching { session_id };
                    false
                },
                SupervisorEvent::Exited(code) => {
                    match ConsoleDesktop::from_switch_exit_code(code) {
                        Some(desktop) => {
                            self.desktop = desktop;
                            self.phase = SupervisorPhase::Idle;
                        },
                        None => {
                            self.phase = SupervisorPhase::BackingOff;
                        },
                    }
                    false
                },
                SupervisorEvent::WaitFailed => {
                    self.phase = SupervisorPhase::Idle;
                    true
                },
                _ => false,
            },
            SupervisorPhase::BackingOff => {
                match event {
                    SupervisorEvent::ShutdownReceived => {
                        self.phase = SupervisorPhase::Stopped;
                    },
                    SupervisorEvent::KeepRunning | SupervisorEvent::ShutdownDisconnected => {
                        self.phase = SupervisorPhase::Idle;
                    },
                    _ => {},
                }
                false
            },
            SupervisorPhase::Stopped => false,
        }
    }
}

/// At most one agent runs: one is started only where none runs, it runs on until it
/// has exited or is ended, and only a running one is ended.
pub proof fn law_one_agent_at_a_time(supervisor: Supervisor, event: SupervisorEvent)
    ensures
        supervisor.pending() is Start ==> !supervisor.runs_agent(),
        ({
            let step = supervisor.stepped(event);
            &&& !supervisor.runs_agent() && step.next.runs_agent() ==> supervisor.pending() is Start
                && event is Started
            &&& supervisor.runs_agent() && !step.next.runs_agent() ==> step.terminate
                || event is Exited
            &&& step.terminate ==> supervisor.runs_agent() && !step.next.runs_agent()
        }),
{
}

/// An agent is started only in the session that Windows just reported on the
/// physical console, on the desktop that last received input.
pub proof fn law_agents_start_on_the_console(supervisor: Supervisor, event: SupervisorEvent)
    requires
        !(supervisor.pending() is Start),
    ensures
        supervisor.stepped(event).next.pending() matches SupervisorAction::Start {
            session_id,
            desktop,
        } ==> event == SupervisorEvent::Session(session_id) && crate::console::on_console(
            session_id,
            session_id,
        ) && desktop == supervisor.desktop,
{
}

/// The desktop changes only because an agent exited with the status that asks for
/// another one.
pub proof fn law_desktop_follows_the_agent(supervisor: Supervisor, event: SupervisorEvent)
    ensures
        supervisor.stepped(event).next.desktop != supervisor.desktop
            ==> supervisor.phase is Waiting && event == SupervisorEvent::Exited(
            supervisor.stepped(event).next.desktop.exit_code(),
        ),
{
}

/// The supervisor stops only when the service does, leaves no agent behind, and stays
/// stopped.
pub proof fn law_stop_is_final(supervisor: Supervisor, event: SupervisorEvent)
    ensures
        supervisor.phase is Stopped ==> supervisor.stepped(event).next == supervisor,
        !(supervisor.phase is Stopped) && supervisor.stepped(event).next.phase is Stopped ==> (
        event is ShutdownReceived || event is ShutdownDisconnected) && (supervisor.runs_agent()
            ==> supervisor.stepped(event).terminate),
{
}

/// Where an agent stands on its way to the service.
#[derive(Debug, Clone, Copy, PartialEq, Eq, Structural)]
pub enum AgentPhase {
    /// Open the desktop's capture.
    OpeningCapture,
    /// Wait before the next attempt to capture.
    AwaitingDesktop,
    /// Open the pipe to the service.
    Connecting,
    /// Say who is there.
    Greeting,
    /// Send frames and receive input.
    Exchanging,
    /// Wait before the next connection.
    AwaitingService,
}

/// What came of an agent's step.
#[derive(Debug, Clone, Copy, PartialEq, Eq, Structural)]
pub enum AgentEvent {
    Succeeded,
    Failed,
}

/// The next phase of an agent. Capture is opened once; after that the agent connects
/// again whenever the service went away.
pub open spec fn agent_phase_after(phase: AgentPhase, event: AgentEvent) -> AgentPhase {
    match phase {
        AgentPhase::OpeningCapture => if event is Succeeded {
            AgentPhase::Connecting
        } else {
            AgentPhase::AwaitingDesktop
        },
        AgentPhase::AwaitingDesktop => AgentPhase::OpeningCapture,
        AgentPhase::Connecting => if event is Succeeded {
            AgentPhase::Greeting
        } else {
            AgentPhase::AwaitingService
        },
        AgentPhase::Greeting => if event is Succeeded {
            AgentPhase::Exchanging
        } else {
            AgentPhase::AwaitingService
        },
        AgentPhase::Exchanging => AgentPhase::AwaitingService,
        AgentPhase::AwaitingService => AgentPhase::Connecting,
    }
}

/// The next phase of an agent.
pub fn next_agent_phase(phase: AgentPhase, event: AgentEvent) -> (next: AgentPhase)
    ensures
        next == agent_phase_after(phase, event),
{
    let succeeded = match event {
        AgentEvent::Succeeded => true,
        AgentEvent::Failed => false,
    };
    match phase {
        AgentPhase::OpeningCapture => {
            if succeeded {
                AgentPhase::Connecting
            } else {
                AgentPhase::AwaitingDesktop
            }
        },
        AgentPhase::AwaitingDesktop => AgentPhase::OpeningCapture,
        AgentPhase::Connecting => {
            if succeeded {
                AgentPhase::Greeting
            } else {
                AgentPhase::AwaitingService
            }
        },
        AgentPhase::Greeting => {
            if succeeded {
                AgentPhase::Exchanging
            } else {
                AgentPhase::AwaitingService
            }
        },
        AgentPhase::Exchanging => AgentPhase::AwaitingService,
        AgentPhase::AwaitingService => AgentPhase::Connecting,
    }
}

/// An agent exchanges nothing before it has greeted the service, and after every
/// failure it waits before it tries again.
pub proof fn law_agent_greets_and_waits(phase: AgentPhase, event: AgentEvent)
    ensures
        agent_phase_after(phase, event) is Exchanging ==> phase is Greeting && event is Succeeded,
        event is Failed && !(phase is AwaitingDesktop) && !(phase is AwaitingService)
            ==> agent_phase_after(phase, event) is AwaitingDesktop || agent_phase_after(
            phase,
            event,
        ) is AwaitingService,
{
}

/// Where the service stands with the agents that connect to it.
#[derive(Debug, Clone, Copy, PartialEq, Eq, Structural)]
pub enum BridgePhase {
    /// Wait for an agent at the pipe.
    Listening,
    /// Find out whose the agent is.
    Admitting,
    /// Read who is there.
    Greeting,
    /// Receive frames and send input.
    Serving,
    /// Send it no more input, and keep its last frame for a while.
    Releasing,
    /// Wait before the next attempt.
    BackingOff,
}

/// The next phase of the service. An agent that failed before it was served leaves
/// nothing behind; one that was served is released, however it ended.
pub open spec fn bridge_phase_after(phase: BridgePhase, event: AgentEvent) -> BridgePhase {
    match phase {
        BridgePhase::Listening => if event is Succeeded {
            BridgePhase::Admitting
        } else {
            BridgePhase::BackingOff
        },
        BridgePhase::Admitting => if event is Succeeded {
            BridgePhase::Greeting
        } else {
            BridgePhase::BackingOff
        },
        BridgePhase::Greeting => if event is Succeeded {
            BridgePhase::Serving
        } else {
            BridgePhase::BackingOff
        },
        BridgePhase::Serving => BridgePhase::Releasing,
        BridgePhase::Releasing => BridgePhase::Listening,
        BridgePhase::BackingOff => BridgePhase::Listening,
    }
}

/// The next phase of the service.
pub fn next_bridge_phase(phase: BridgePhase, event: AgentEvent) -> (next: BridgePhase)
    ensures
        next == bridge_phase_after(phase, event),
{
    let succeeded = match event {
        AgentEvent::Succeeded => true,
        AgentEvent::Failed => false,
    };
    match phase {
        BridgePhase::Listening => {
            if succeeded {
                BridgePhase::Admitting
            } else {
                BridgePhase::BackingOff
            }
        },
        BridgePhase::Admitting => {
            if succeeded {
                BridgePhase::Greeting
            } else {
                BridgePhase::BackingOff
            }
        },
        BridgePhase::Greeting => {
            if succeeded {
                BridgePhase::Serving
            } else {
                BridgePhase::BackingOff
            }
        },
        BridgePhase::Serving => BridgePhase::Releasing,
        BridgePhase::Releasing => BridgePhase::Listening,
        BridgePhase::BackingOff => BridgePhase::Listening,
    }
}

/// An agent is served only after it was admitted and has greeted, and it is released
/// before the service hears another one.
pub proof fn law_served_agents_are_admitted_and_released(phase: BridgePhase, event: AgentEvent)
    ensures
        bridge_phase_after(phase, event) is Serving ==> phase is Greeting && event is Succeeded,
        bridge_phase_after(phase, event) is Greeting ==> phase is Admitting && event is Succeeded,
        phase is Serving <==> bridge_phase_after(phase, event) is Releasing,
{
}

/// The supervisor follows the agent to every desktop: after an agent has exited with the
/// status of a desktop (240 for the default one, 241 for the sign-in one, 242 for the
/// screen saver) that desktop is the one that the next agent is started on. The agent
/// is gone by itself, so none is ended, and there is no delay.
pub proof fn law_next_agent_starts_on_the_desktop_that_was_asked_for(
    supervisor: Supervisor,
    desktop: ConsoleDesktop,
    session_id: u32,
)
    requires
        supervisor.phase is Waiting,
        session_id != 0xffff_ffff,
    ensures
        ({
            let code = match desktop {
                ConsoleDesktop::Default => 240u32,
                ConsoleDesktop::Winlogon => 241u32,
                ConsoleDesktop::ScreenSaver => 242u32,
            };
            let exited = supervisor.stepped(SupervisorEvent::Exited(code));
            let found = exited.next.stepped(SupervisorEvent::KeepRunning).next.stepped(
                SupervisorEvent::Session(session_id),
            ).next;
            &&& desktop.exit_code() == code
            &&& exited.next.desktop == desktop
            &&& exited.next.phase is Idle
            &&& !exited.terminate
            &&& found.pending() == (SupervisorAction::Start { session_id, desktop })
        }),
{
}

/// The supervisor asks one thing at a time: whether the service stops, which session is on
/// the physical console, then for an agent there; and while the agent runs, over and
/// over, whether the service stops, whether the session is still there, and for the
/// agent's end. As long as the answers do not change the agent runs on.
pub proof fn law_agent_runs_on_while_nothing_changes(supervisor: Supervisor, session_id: u32)
    requires
        session_id != 0xffff_ffff,
        supervisor.phase is Idle,
    ensures
        ({
            let desktop = supervisor.desktop;
            let asking = supervisor.stepped(SupervisorEvent::KeepRunning);
            let starting = asking.next.stepped(SupervisorEvent::Session(session_id));
            let watching = starting.next.stepped(SupervisorEvent::Started);
            let comparing = watching.next.stepped(SupervisorEvent::KeepRunning);
            let waiting = comparing.next.stepped(SupervisorEvent::Session(session_id));
            let again = waiting.next.stepped(SupervisorEvent::StillRunning);
            &&& supervisor.pending() is PollShutdown
            &&& asking.next.pending() is QuerySession && !asking.terminate
            &&& starting.next.pending() == (SupervisorAction::Start { session_id, desktop })
            &&& !starting.terminate && !watching.terminate && !comparing.terminate
            &&& watching.next.pending() is PollShutdown && watching.next.runs_agent()
            &&& comparing.next.pending() is QuerySession && comparing.next.runs_agent()
            &&& waiting.next.pending() is WaitForAgent && waiting.next.runs_agent()
            &&& !waiting.terminate && !again.terminate
            &&& again.next == watching.next
        }),
{
}

/// An agent whose session has left the physical console, or whose end cannot be waited
/// for, is ended, and the supervisor looks for the console at once. Where no session is on
/// the console, no agent can be started, or one exits for another reason than a switch,
/// the supervisor waits before it tries again, on the same desktop.
pub proof fn law_supervisor_tries_again(
    supervisor: Supervisor,
    session_id: u32,
    reported: u32,
    code: u32,
)
    requires
        reported != session_id,
        code != 240 && code != 241 && code != 242,
    ensures
        ({
            let moved = supervisor.at(SupervisorPhase::Comparing { session_id }).stepped(
                SupervisorEvent::Session(reported),
            );
            let lost = supervisor.at(SupervisorPhase::Waiting { session_id }).stepped(
                SupervisorEvent::WaitFailed,
            );
            let nobody = supervisor.at(SupervisorPhase::FindingSession).stepped(
                SupervisorEvent::Session(0xffff_ffff),
            );
            let failed = supervisor.at(SupervisorPhase::Starting { session_id }).stepped(
                SupervisorEvent::StartFailed,
            );
            let exited = supervisor.at(SupervisorPhase::Waiting { session_id }).stepped(
                SupervisorEvent::Exited(code),
            );
            let rested = exited.next.stepped(SupervisorEvent::KeepRunning);
            &&& moved.terminate && moved.next.pending() is PollShutdown
                && !moved.next.runs_agent()
            &&& lost.terminate && lost.next.pending() is PollShutdown && !lost.next.runs_agent()
            &&& nobody.next.pending() is BackOff && !nobody.terminate
            &&& failed.next.pending() is BackOff && !failed.terminate
            &&& exited.next.pending() is BackOff && !exited.terminate
            &&& rested.next.pending() is PollShutdown && !rested.next.runs_agent()
            &&& exited.next.desktop == supervisor.desktop
            &&& rested.next.stepped(SupervisorEvent::KeepRunning).next.pending() is QuerySession
        }),
{
}

/// A service that stops stops its supervisor wherever it asks for that, and a running
/// agent is ended.
pub proof fn law_supervisor_stops_with_the_service(supervisor: Supervisor)
    ensures
        ({
            let stopped = supervisor.stepped(SupervisorEvent::ShutdownReceived);
            let left = supervisor.stepped(SupervisorEvent::ShutdownDisconnected);
            &&& supervisor.pending() is PollShutdown ==> stopped.next.pending() is Stop
                && left.next.pending() is Stop
            &&& supervisor.pending() is PollShutdown ==> stopped.terminate
                == supervisor.runs_agent() && left.terminate == supervisor.runs_agent()
            &&& supervisor.pending() is BackOff ==> stopped.next.pending() is Stop
                && left.next.pending() is PollShutdown && !stopped.terminate && !left.terminate
        }),
{
}

/// An agent that succeeds all the way captures, connects, greets and exchanges; a lost
/// service is connected to again without capturing anew, after a wait.
pub proof fn law_agent_goes_on(event: AgentEvent)
    ensures
        ({
            let ok = AgentEvent::Succeeded;
            let no = AgentEvent::Failed;
            &&& agent_phase_after(AgentPhase::OpeningCapture, ok) is Connecting
            &&& agent_phase_after(AgentPhase::OpeningCapture, no) is AwaitingDesktop
            &&& agent_phase_after(AgentPhase::AwaitingDesktop, event) is OpeningCapture
            &&& agent_phase_after(AgentPhase::Connecting, ok) is Greeting
            &&& agent_phase_after(AgentPhase::Greeting, ok) is Exchanging
            &&& agent_phase_after(AgentPhase::Exchanging, event) is AwaitingService
            &&& agent_phase_after(AgentPhase::AwaitingService, event) is Connecting
        }),
{
}

/// The service admits, greets and serves an agent that connects, then listens for the next
/// one; after a failure it waits and listens again.
pub proof fn law_service_goes_on(event: AgentEvent)
    ensures
        ({
            let ok = AgentEvent::Succeeded;
            let no = AgentEvent::Failed;
            &&& bridge_phase_after(BridgePhase::Listening, ok) is Admitting
            &&& bridge_phase_after(BridgePhase::Listening, no) is BackingOff
            &&& bridge_phase_after(BridgePhase::Admitting, ok) is Greeting
            &&& bridge_phase_after(BridgePhase::Admitting, no) is BackingOff
            &&& bridge_phase_after(BridgePhase::Greeting, ok) is Serving
            &&& bridge_phase_after(BridgePhase::Greeting, no) is BackingOff
            &&& bridge_phase_after(BridgePhase::Releasing, event) is Listening
            &&& bridge_phase_after(BridgePhase::BackingOff, event) is Listening
        }),
{
}

} // verus!
