//! The host as a service of the system.

use vstd::prelude::*;

verus! {

/// How many milliseconds lie between two looks at what the service waits for.
pub const SERVICE_POLL_MILLISECONDS: u64 = 250;

/// What the system asks of the service.
#[derive(Debug, Clone, Copy, PartialEq, Eq, Structural)]
pub enum ServiceControl {
    Stop,
    Shutdown,
    Other,
}

/// The answer to the system.
#[derive(Debug, Clone, Copy, PartialEq, Eq, Structural)]
pub enum ControlAnswer {
    /// The service stops.
    Accepted,
    /// The service does not do that.
    NotImplemented,
}

/// What the system gets for what it asks for.
pub open spec fn control_answer(control: ServiceControl) -> ControlAnswer {
    match control {
        ServiceControl::Other => ControlAnswer::NotImplemented,
        _ => ControlAnswer::Accepted,
    }
}

/// What the system asks for and gets: the service stops when it is told to.
pub fn answer_control(control: ServiceControl) -> (answer: ControlAnswer)
    ensures
        answer == control_answer(control),
        answer is Accepted <==> control is Stop || control is Shutdown,
{
    match control {
        ServiceControl::Stop => ControlAnswer::Accepted,
        ServiceControl::Shutdown => ControlAnswer::Accepted,
        ServiceControl::Other => ControlAnswer::NotImplemented,
    }
}

/// How the host's work ended.
#[derive(Debug, Clone, Copy, PartialEq, Eq, Structural)]
pub enum HostResult {
    Succeeded,
    Failed,
}

/// What the service does next.
#[derive(Debug, Clone, Copy, PartialEq, Eq, Structural)]
pub enum ServiceStep {
    /// Wait, then look again.
    Wait,
    /// Report that it stopped as it should.
    StopCleanly,
    /// Report that it stopped with an error of its own, and return the error.
    StopWithError { code: u32 },
}

/// Decides what the service does, from whether it was told to stop and from how the
/// host's work ended, if it did. A service that is told to stop does not ask further.
pub open spec fn service_step(stop_requested: bool, host: Option<HostResult>) -> ServiceStep {
    if stop_requested {
        ServiceStep::StopCleanly
    } else {
        match host {
            None => ServiceStep::Wait,
            Some(HostResult::Succeeded) => ServiceStep::StopCleanly,
            Some(HostResult::Failed) => ServiceStep::StopWithError { code: 1 },
        }
    }
}

/// What the service does next.
pub fn next_service_step(stop_requested: bool, host: Option<HostResult>) -> (step: ServiceStep)
    ensures
        step == service_step(stop_requested, host),
{
    if stop_requested {
        return ServiceStep::StopCleanly;
    }
    match host {
        None => ServiceStep::Wait,
        Some(HostResult::Succeeded) => ServiceStep::StopCleanly,
        Some(HostResult::Failed) => ServiceStep::StopWithError { code: 1 },
    }
}

/// What a service that the system started comes to.
#[derive(Debug, Clone, Copy, PartialEq, Eq, Structural)]
pub enum ServiceError {
    /// This system has no services of this kind.
    Unsupported,
    /// The system did not start the service.
    NotStarted,
}

/// Whether the service ran: `dispatched` is how the system's start of it went, and
/// nothing on a system without such services.
pub fn run(dispatched: Option<bool>) -> (result: Result<(), ServiceError>)
    ensures
        match dispatched {
            None => result matches Err(error) && error == ServiceError::Unsupported,
            Some(started) => if started {
                result is Ok
            } else {
                result matches Err(error) && error == ServiceError::NotStarted
            },
        },
{
    match dispatched {
        None => Err(ServiceError::Unsupported),
        Some(started) => {
            if started {
                Ok(())
            } else {
                Err(ServiceError::NotStarted)
            }
        },
    }
}

/// A service that is told to stop stops without an error, whatever became of the
/// host; an error is reported only where the host failed.
pub proof fn law_stop_is_no_error(host: Option<HostResult>)
    ensures
        service_step(true, host) is StopCleanly,
        service_step(false, host) is StopWithError <==> host == Some(HostResult::Failed),
        service_step(false, host) is Wait <==> host is None,
{
}

/// The service waits while its host runs and nobody asks it to stop; it ends with the
/// error 1 exactly where its host failed on its own.
pub proof fn law_service_runs_as_long_as_its_host(stop_requested: bool, host: Option<HostResult>)
    ensures
        (service_step(stop_requested, host) is Wait) == (!stop_requested && host is None),
        service_step(stop_requested, host) is StopWithError ==> service_step(stop_requested, host)
            == (ServiceStep::StopWithError { code: 1 }),
        (service_step(stop_requested, host) is StopWithError) == (!stop_requested && host == Some(
            HostResult::Failed,
        )),
{
}

/// The service stops when it is told to and when the system shuts down, and does nothing else
/// that it is asked for.
pub proof fn law_service_stops_when_told(control: ServiceControl)
    ensures
        control_answer(control) is Accepted <==> control is Stop || control is Shutdown,
        control_answer(control) is NotImplemented <==> control is Other,
{
}

} // verus!
