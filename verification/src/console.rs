//! The agent on the physical console: which desktop it captures, who may be it, and
//! how the service keeps exactly one of it running.

use vstd::prelude::*;

use crate::bridge::{encode_display_size, encode_keyboard, encode_mouse};
use crate::events::{KeyboardEvent, MouseEvent};
use crate::platform::DesktopSize;
use crate::text::same_text;

verus! {

/// What Windows reports where no session is on the physical console.
pub const NO_ACTIVE_CONSOLE_SESSION: u32 = u32::MAX;

/// How many milliseconds the service waits before it tries again.
pub const RETRY_DELAY_MILLISECONDS: u64 = 1000;

/// How many milliseconds lie between two looks at a running agent.
pub const CONSOLE_AGENT_POLL_MILLISECONDS: u64 = 250;

/// How many milliseconds a replacement agent may take to send its first frame.
pub const CONSOLE_AGENT_HANDOFF_GRACE_MILLISECONDS: u64 = 3000;

/// How many input messages may wait for the agent.
pub const INPUT_QUEUE_LENGTH: usize = 512;

/// The size of the desktop that the service shows before an agent has sent a frame.
pub fn waiting_desktop_size() -> (size: DesktopSize)
    ensures
        size == (DesktopSize { width: 1280, height: 720 }),
{
    DesktopSize { width: 1280, height: 720 }
}

/// The status with which an agent exits when the default desktop receives input.
pub const EXIT_SWITCH_DEFAULT: u32 = 240;

/// The status with which an agent exits when the sign-in desktop receives input.
pub const EXIT_SWITCH_WINLOGON: u32 = 241;

/// The status with which an agent exits when the screen saver receives input.
pub const EXIT_SWITCH_SCREENSAVER: u32 = 242;

/// A desktop of the physical console that can receive input.
#[derive(Debug, Clone, Copy, PartialEq, Eq, Structural)]
pub enum ConsoleDesktop {
    Default,
    Winlogon,
    ScreenSaver,
}

/// A desktop's name that is not known.
#[derive(Debug, PartialEq, Eq)]
pub struct UnsupportedDesktop {
    pub name: String,
}

/// The desktop of a name, whatever its case and the white space around it.
pub open spec fn parsed_desktop(name: Seq<char>) -> Option<ConsoleDesktop> {
    let name = crate::text::ascii_lowercase(crate::text::trimmed(name));
    if name == "default"@ {
        Some(ConsoleDesktop::Default)
    } else if name == "winlogon"@ {
        Some(ConsoleDesktop::Winlogon)
    } else if name == "screensaver"@ || name == "screen-saver"@ {
        Some(ConsoleDesktop::ScreenSaver)
    } else {
        None
    }
}

impl ConsoleDesktop {
    /// The name that an agent is started with.
    pub open spec fn argument_text(self) -> Seq<char> {
        match self {
            ConsoleDesktop::Default => "default"@,
            ConsoleDesktop::Winlogon => "winlogon"@,
            ConsoleDesktop::ScreenSaver => "screensaver"@,
        }
    }

    /// The name of the desktop's Windows object.
    pub open spec fn object_text(self) -> Seq<char> {
        match self {
            ConsoleDesktop::Default => "winsta0\\default"@,
            ConsoleDesktop::Winlogon => "winsta0\\winlogon"@,
            ConsoleDesktop::ScreenSaver => "winsta0\\screensaver"@,
        }
    }

    /// The status with which an agent exits when this desktop receives input.
    pub open spec fn exit_code(self) -> u32 {
        match self {
            ConsoleDesktop::Default => EXIT_SWITCH_DEFAULT,
            ConsoleDesktop::Winlogon => EXIT_SWITCH_WINLOGON,
            ConsoleDesktop::ScreenSaver => EXIT_SWITCH_SCREENSAVER,
        }
    }

    /// The desktop that an exit status asks for.
    pub open spec fn of_exit_code(code: u32) -> Option<ConsoleDesktop> {
        if code == EXIT_SWITCH_DEFAULT {
            Some(ConsoleDesktop::Default)
        } else if code == EXIT_SWITCH_WINLOGON {
            Some(ConsoleDesktop::Winlogon)
        } else if code == EXIT_SWITCH_SCREENSAVER {
            Some(ConsoleDesktop::ScreenSaver)
        } else {
            None
        }
    }

    /// The desktop of a name.
    pub fn parse(value: &str) -> (result: Result<Self, UnsupportedDesktop>)
        ensures
            match parsed_desktop(value@) {
                Some(desktop) => result matches Ok(found) && found == desktop,
                None => result matches Err(error) && error.name@ == value@,
            },
    {
        let name = value.trim().to_ascii_lowercase();
        if same_text(name.as_str(), "default") {
            Ok(ConsoleDesktop::Default)
        } else if same_text(name.as_str(), "winlogon") {
            Ok(ConsoleDesktop::Winlogon)
        } else if same_text(name.as_str(), "screensaver") || same_text(
            name.as_str(),
            "screen-saver",
        ) {
            Ok(ConsoleDesktop::ScreenSaver)
        } else {
            Err(UnsupportedDesktop { name: value.to_owned() })
        }
    }

    /// The name that an agent is started with.
    pub fn argument(self) -> (name: &'static str)
        ensures
            name@ == self.argument_text(),
    {
        match self {
            ConsoleDesktop::Default => "default",
            ConsoleDesktop::Winlogon => "winlogon",
            ConsoleDesktop::ScreenSaver => "screensaver",
        }
    }

    /// The name of the desktop's Windows object.
    pub fn object_name(self) -> (name: &'static str)
        ensures
            name@ == self.object_text(),
    {
        match self {
            ConsoleDesktop::Default => "winsta0\\default",
            ConsoleDesktop::Winlogon => "winsta0\\winlogon",
            ConsoleDesktop::ScreenSaver => "winsta0\\screensaver",
        }
    }

    /// The status with which an agent exits when this desktop receives input.
    pub fn switch_exit_code(self) -> (code: u32)
        ensures
            code == self.exit_code(),
    {
        match self {
            ConsoleDesktop::Default => EXIT_SWITCH_DEFAULT,
            ConsoleDesktop::Winlogon => EXIT_SWITCH_WINLOGON,
            ConsoleDesktop::ScreenSaver => EXIT_SWITCH_SCREENSAVER,
        }
    }

    /// The desktop that an exit status asks for.
    pub fn from_switch_exit_code(code: u32) -> (desktop: Option<Self>)
        ensures
            desktop == Self::of_exit_code(code),
    {
        if code == EXIT_SWITCH_DEFAULT {
            Some(ConsoleDesktop::Default)
        } else if code == EXIT_SWITCH_WINLOGON {
            Some(ConsoleDesktop::Winlogon)
        } else if code == EXIT_SWITCH_SCREENSAVER {
            Some(ConsoleDesktop::ScreenSaver)
        } else {
            None
        }
    }
}

/// A desktop is read back from the status that asks for it and from the name that
/// an agent is started with.
pub proof fn law_desktops_are_read_back(desktop: ConsoleDesktop)
    ensures
        ConsoleDesktop::of_exit_code(desktop.exit_code()) == Some(desktop),
        parsed_desktop(desktop.argument_text()) == Some(desktop),
{
    reveal_strlit("default");
    reveal_strlit("winlogon");
    reveal_strlit("screensaver");
    reveal_strlit("screen-saver");
    let name = desktop.argument_text();
    assert(!crate::text::is_white_space(name[0]) && !crate::text::is_white_space(name.last()));
    assert(crate::text::ascii_lowercase(name) =~= name);
    assert("default"@.len() == 7 && "winlogon"@.len() == 8 && "screensaver"@.len() == 11
        && "screen-saver"@.len() == 12);
}

/// The status with which an agent for one desktop exits because another receives
/// input, or none where it is the right one.
pub open spec fn mismatch_code(expected: ConsoleDesktop, actual: ConsoleDesktop) -> Option<u32> {
    if actual == expected {
        None
    } else {
        Some(actual.exit_code())
    }
}

/// The status with which an agent for one desktop exits because another receives
/// input, or none where it is the right one.
pub fn switch_on_mismatch(expected: ConsoleDesktop, actual: ConsoleDesktop) -> (code: Option<u32>)
    ensures
        code == mismatch_code(expected, actual),
        code == (if actual == expected {
            None
        } else {
            Some(actual.exit_code())
        }),
{
    if actual == expected {
        None
    } else {
        Some(actual.switch_exit_code())
    }
}

/// Why an agent is not accepted.
#[derive(Debug, Clone, Copy, PartialEq, Eq, Structural)]
pub enum AgentRefusal {
    /// No session is on the physical console.
    NoActiveConsole,
    /// The agent runs in another session than the physical console's.
    OtherSession { agent: u32, console: u32 },
    /// The agent does not run as the local system.
    NotLocalSystem,
}

/// Whether an agent's session is the one on the physical console.
pub open spec fn on_console(agent: u32, console: u32) -> bool {
    console != NO_ACTIVE_CONSOLE_SESSION && agent == console
}

/// Whether an agent's session is the one on the physical console.
pub fn is_active_console_session(agent: u32, console: u32) -> (active: bool)
    ensures
        active == on_console(agent, console),
{
    console != NO_ACTIVE_CONSOLE_SESSION && agent == console
}

/// The session on the physical console, as Windows reports it.
pub open spec fn console_session(reported: u32) -> Option<u32> {
    if reported == NO_ACTIVE_CONSOLE_SESSION {
        None
    } else {
        Some(reported)
    }
}

/// The session on the physical console, as Windows reports it.
pub fn active_console_session_id(reported: u32) -> (session: Option<u32>)
    ensures
        session == console_session(reported),
        session == (if reported == NO_ACTIVE_CONSOLE_SESSION {
            None
        } else {
            Some(reported)
        }),
{
    if reported == NO_ACTIVE_CONSOLE_SESSION {
        None
    } else {
        Some(reported)
    }
}

/// What is wrong with the session of an agent, if anything.
pub open spec fn session_refusal(agent: u32, console: u32) -> Option<AgentRefusal> {
    if console == NO_ACTIVE_CONSOLE_SESSION {
        Some(AgentRefusal::NoActiveConsole)
    } else if agent != console {
        Some(AgentRefusal::OtherSession { agent, console })
    } else {
        None
    }
}

/// Checks that an agent runs in the session on the physical console.
pub fn ensure_active_console_session(agent: u32, console: u32) -> (result: Result<(), AgentRefusal>)
    ensures
        match session_refusal(agent, console) {
            Some(expected) => result matches Err(refusal) && refusal == expected,
            None => result is Ok,
        },
{
    match active_console_session_id(console) {
        None => Err(AgentRefusal::NoActiveConsole),
        Some(session) => {
            if is_active_console_session(agent, session) {
                Ok(())
            } else {
                Err(AgentRefusal::OtherSession { agent, console: session })
            }
        },
    }
}

/// What is wrong with an agent, if anything. Only the physical console's own agent,
/// run by the local system, is accepted, unless the console is not asked for.
pub open spec fn agent_refusal(
    require_active_console: bool,
    agent: u32,
    console: u32,
    local_system: bool,
) -> Option<AgentRefusal> {
    if !require_active_console {
        None
    } else if session_refusal(agent, console) is Some {
        session_refusal(agent, console)
    } else if !local_system {
        Some(AgentRefusal::NotLocalSystem)
    } else {
        None
    }
}

/// Decides whether a process that connected is accepted as the agent.
pub fn admit_agent(
    require_active_console: bool,
    agent: u32,
    console: u32,
    local_system: bool,
) -> (result: Result<(), AgentRefusal>)
    ensures
        match agent_refusal(require_active_console, agent, console, local_system) {
            Some(expected) => result matches Err(refusal) && refusal == expected,
            None => result is Ok,
        },
{
    if !require_active_console {
        return Ok(());
    }
    match ensure_active_console_session(agent, console) {
        Err(refusal) => Err(refusal),
        Ok(_) => {
            if local_system {
                Ok(())
            } else {
                Err(AgentRefusal::NotLocalSystem)
            }
        },
    }
}

/// Why a frame of a connected agent is no longer shown, if it is not.
pub open spec fn frame_refusal(required: bool, agent: u32, console: u32) -> Option<AgentRefusal> {
    if required {
        session_refusal(agent, console)
    } else {
        None
    }
}

/// Decides whether a frame of a connected agent is still shown.
pub fn admit_frame(require_active_console: bool, agent: u32, console: u32) -> (result: Result<
    (),
    AgentRefusal,
>)
    ensures
        result is Ok <==> frame_refusal(require_active_console, agent, console) is None,
        result matches Err(refusal) ==> frame_refusal(require_active_console, agent, console)
            == Some(refusal),
        match session_refusal(agent, console) {
            Some(expected) if require_active_console => result matches Err(refusal) && refusal
                == expected,
            _ => result is Ok,
        },
{
    if !require_active_console {
        return Ok(());
    }
    ensure_active_console_session(agent, console)
}

/// Who may open the pipe between the service and the agent, in Windows' notation.
pub open spec fn pipe_rights(system_agent_only: bool) -> Seq<char> {
    if system_agent_only {
        "D:P(A;;GA;;;SY)"@
    } else {
        "D:P(A;;GA;;;SY)(A;;GA;;;BA)(A;;GRGW;;;IU)"@
    }
}

/// Who may open the pipe between the service and the agent, in Windows' notation:
/// the local system alone, or administrators and the user at the console too.
pub fn pipe_security(system_agent_only: bool) -> (descriptor: &'static str)
    ensures
        descriptor@ == pipe_rights(system_agent_only),
        descriptor@ == (if system_agent_only {
            "D:P(A;;GA;;;SY)"@
        } else {
            "D:P(A;;GA;;;SY)(A;;GA;;;BA)(A;;GRGW;;;IU)"@
        }),
{
    if system_agent_only {
        "D:P(A;;GA;;;SY)"
    } else {
        "D:P(A;;GA;;;SY)(A;;GA;;;BA)(A;;GRGW;;;IU)"
    }
}

/// The name of the pipe: the configured one, or the usual one.
pub fn pipe_name(configured: Option<String>) -> (name: String)
    ensures
        match configured {
            Some(configured) => name@ == configured@,
            None => name@ == "\\\\.\\pipe\\SunRemoteDesktop.SessionBridge.v1"@,
        },
{
    match configured {
        Some(configured) => configured,
        None => "\\\\.\\pipe\\SunRemoteDesktop.SessionBridge.v1".to_owned(),
    }
}

/// The command line of an agent.
pub open spec fn command_text(
    executable: Seq<char>,
    config: Seq<char>,
    desktop: ConsoleDesktop,
) -> Seq<char> {
    "\""@ + executable + "\" console-agent --desktop "@ + desktop.argument_text() + " --config \""@
        + config + "\""@
}

/// The command line of an agent.
pub fn agent_command(executable: &str, config: &str, desktop: ConsoleDesktop) -> (command: String)
    ensures
        command@ == command_text(executable@, config@, desktop),
{
    let mut command = "\"".to_owned();
    command.push_str(executable);
    command.push_str("\" console-agent --desktop ");
    command.push_str(desktop.argument());
    command.push_str(" --config \"");
    command.push_str(config);
    command.push_str("\"");
    command
}

/// The number of UTF-16 units for a desktop's name, whose size in bytes Windows
/// reports; nothing where the name is empty.
pub fn desktop_name_units(required: u32) -> (units: Option<usize>)
    ensures
        match units {
            Some(units) => required >= 2 && units == (required + 1) / 2,
            None => required < 2,
        },
{
    if required < 2 {
        return None;
    }
    Some((required / 2 + required % 2) as usize)
}

/// What becomes of an event that is meant for the agent.
#[derive(Debug, PartialEq, Eq)]
pub enum Forward {
    /// The event has no message.
    Nothing,
    /// No agent is connected.
    NotConnected,
    /// The message to queue for the agent.
    Send(Vec<u8>),
}

/// Whether an event is forwarded as these bytes.
pub open spec fn forwarded(bytes: Option<Seq<u8>>, connected: bool, forward: Forward) -> bool {
    match bytes {
        None => forward is Nothing,
        Some(bytes) => if connected {
            forward matches Forward::Send(data) && data@ == bytes
        } else {
            forward is NotConnected
        },
    }
}

/// Forwards a keyboard event.
pub fn forward_keyboard(event: &KeyboardEvent, connected: bool) -> (forward: Forward)
    ensures
        forwarded(crate::bridge::keyboard_bytes(*event), connected, forward),
{
    match encode_keyboard(event) {
        None => Forward::Nothing,
        Some(data) => {
            if connected {
                Forward::Send(data)
            } else {
                Forward::NotConnected
            }
        },
    }
}

/// Forwards a pointer event.
pub fn forward_mouse(event: &MouseEvent, connected: bool) -> (forward: Forward)
    ensures
        forwarded(Some(crate::bridge::mouse_bytes(*event)), connected, forward),
{
    let data = encode_mouse(event);
    if connected {
        Forward::Send(data)
    } else {
        Forward::NotConnected
    }
}

/// Forwards a display size.
pub fn forward_display_size(size: DesktopSize, connected: bool) -> (forward: Forward)
    ensures
        forwarded(Some(crate::bridge::display_size_bytes(size)), connected, forward),
{
    if connected {
        Forward::Send(encode_display_size(size))
    } else {
        Forward::NotConnected
    }
}

/// A desktop's Windows object is the one of its name on the interactive window station, and
/// its status is 240 for the default one, 241 for the sign-in one and 242 for the screen
/// saver; every other status asks for no desktop.
pub proof fn law_desktops_have_their_names_and_statuses(desktop: ConsoleDesktop, code: u32)
    ensures
        desktop.object_text() == "winsta0\\"@ + desktop.argument_text(),
        ConsoleDesktop::Default.exit_code() == 240,
        ConsoleDesktop::Winlogon.exit_code() == 241,
        ConsoleDesktop::ScreenSaver.exit_code() == 242,
        ConsoleDesktop::of_exit_code(code) is Some <==> 240 <= code <= 242,
        ConsoleDesktop::of_exit_code(code) == Some(desktop) <==> code == desktop.exit_code(),
{
    reveal_strlit("winsta0\\");
    reveal_strlit("winsta0\\default");
    reveal_strlit("winsta0\\winlogon");
    reveal_strlit("winsta0\\screensaver");
    reveal_strlit("default");
    reveal_strlit("winlogon");
    reveal_strlit("screensaver");
    assert(desktop.object_text() =~= "winsta0\\"@ + desktop.argument_text());
}

/// A desktop's name is read whatever its case and the white space around it.
pub proof fn law_desktop_names_are_read_in_any_case(name: Seq<char>, other: Seq<char>)
    requires
        crate::text::ascii_lowercase(crate::text::trimmed(name)) == crate::text::ascii_lowercase(
            crate::text::trimmed(other),
        ),
    ensures
        parsed_desktop(name) == parsed_desktop(other),
{
}

/// The screen saver is known under two names, and no desktop under any name but these.
pub proof fn law_known_desktop_names(name: Seq<char>)
    ensures
        parsed_desktop(name) is Some ==> ({
            let plain = crate::text::ascii_lowercase(crate::text::trimmed(name));
            plain == "default"@ || plain == "winlogon"@ || plain == "screensaver"@ || plain
                == "screen-saver"@
        }),
        parsed_desktop("screen-saver"@) == Some(ConsoleDesktop::ScreenSaver),
{
    reveal_strlit("default");
    reveal_strlit("winlogon");
    reveal_strlit("screensaver");
    reveal_strlit("screen-saver");
    let saver = "screen-saver"@;
    assert(!crate::text::is_white_space(saver[0]) && !crate::text::is_white_space(saver.last()));
    assert(crate::text::ascii_lowercase(saver) =~= saver);
    assert("default"@.len() == 7 && "winlogon"@.len() == 8 && "screensaver"@.len() == 11
        && "screen-saver"@.len() == 12);
}

/// Where the physical console is asked for, an agent is accepted exactly if it runs as the
/// local system in the session on that console, and there is one. What is wrong is told,
/// the session first.
pub proof fn law_only_the_console_agent_is_accepted(agent: u32, console: u32, local_system: bool)
    ensures
        agent_refusal(true, agent, console, local_system) is None <==> agent == console && console
            != 0xffff_ffff && local_system,
        agent_refusal(false, agent, console, local_system) is None,
        console == 0xffff_ffff ==> agent_refusal(true, agent, console, local_system) == Some(
            AgentRefusal::NoActiveConsole,
        ),
        console != 0xffff_ffff && agent != console ==> agent_refusal(
            true,
            agent,
            console,
            local_system,
        ) == Some(AgentRefusal::OtherSession { agent, console }),
        console != 0xffff_ffff && agent == console && !local_system ==> agent_refusal(
            true,
            agent,
            console,
            local_system,
        ) == Some(AgentRefusal::NotLocalSystem),
        session_refusal(agent, console) is None <==> on_console(agent, console),
        on_console(agent, console) <==> agent == console && console != 0xffff_ffff,
{
}

/// An agent's command line names the program and the settings file in quotes, and the
/// desktop between them.
pub proof fn law_agent_command_names_its_desktop(
    executable: Seq<char>,
    config: Seq<char>,
    desktop: ConsoleDesktop,
)
    ensures
        ({
            let text = command_text(executable, config, desktop);
            let name = desktop.argument_text();
            let middle = "\" console-agent --desktop "@;
            let option = " --config \""@;
            let from = (1 + executable.len()) as int;
            let at = from + middle.len();
            let behind = at + name.len() + option.len();
            &&& text[0] == '"' && text.last() == '"'
            &&& text.subrange(1, from) == executable
            &&& text.subrange(from, at) == middle
            &&& text.subrange(at, at + name.len()) == name
            &&& text.subrange(at + name.len(), behind) == option
            &&& text.subrange(behind, behind + config.len()) == config
            &&& text.len() == behind + config.len() + 1
        }),
{
    reveal_strlit("\"");
    let text = command_text(executable, config, desktop);
    let name = desktop.argument_text();
    let middle = "\" console-agent --desktop "@;
    let option = " --config \""@;
    let from = (1 + executable.len()) as int;
    let at = from + middle.len();
    let behind = at + name.len() + option.len();
    assert(text.subrange(1, from) =~= executable);
    assert(text.subrange(from, at) =~= middle);
    assert(text.subrange(at, at + name.len()) =~= name);
    assert(text.subrange(at + name.len(), behind) =~= option);
    assert(text.subrange(behind, behind + config.len()) =~= config);
}

/// An event that has a message is sent to a connected agent in exactly its bytes; without an
/// agent that is told, and an event without a message is dropped either way.
pub proof fn law_events_are_forwarded_as_they_are(
    bytes: Seq<u8>,
    connected: bool,
    forward: Forward,
)
    ensures
        forwarded(Some(bytes), true, forward) <==> (forward matches Forward::Send(data) && data@
            == bytes),
        forwarded(Some(bytes), false, forward) <==> forward is NotConnected,
        forwarded(None, connected, forward) <==> forward is Nothing,
{
}

/// An agent goes on exactly while its own desktop receives input; otherwise its status asks for
/// the one that does.
pub proof fn law_agents_leave_for_the_right_desktop(expected: ConsoleDesktop, actual: ConsoleDesktop)
    ensures
        mismatch_code(expected, actual) is None <==> actual == expected,
        mismatch_code(expected, actual) matches Some(code) ==> ConsoleDesktop::of_exit_code(code)
            == Some(actual),
{
}

/// There is a session on the console unless Windows reports the number that stands for none,
/// and it is the one that it reports. Frames are shown exactly if their agent runs in that
/// session, or the console is not asked for.
pub proof fn law_frames_come_from_the_console(required: bool, agent: u32, console: u32)
    ensures
        console_session(console) is None <==> console == 0xffff_ffff,
        console_session(console) matches Some(session) ==> session == console,
        frame_refusal(required, agent, console) is None <==> !required || (agent == console
            && console != 0xffff_ffff),
        required && console == 0xffff_ffff ==> frame_refusal(required, agent, console) == Some(
            AgentRefusal::NoActiveConsole,
        ),
{
}

/// The local system may always open the pipe; where it alone may, nothing stands behind its
/// right, and otherwise those of administrators and of the user at the console do.
pub proof fn law_pipe_is_open_to_the_system(system_agent_only: bool)
    ensures
        ({
            let rights = pipe_rights(system_agent_only);
            let own = "D:P(A;;GA;;;SY)"@;
            &&& rights.take(own.len() as int) == own
            &&& system_agent_only <==> rights.len() == own.len()
            &&& !system_agent_only ==> rights.skip(own.len() as int)
                == "(A;;GA;;;BA)(A;;GRGW;;;IU)"@
        }),
{
    reveal_strlit("D:P(A;;GA;;;SY)");
    reveal_strlit("(A;;GA;;;BA)(A;;GRGW;;;IU)");
    reveal_strlit("D:P(A;;GA;;;SY)(A;;GA;;;BA)(A;;GRGW;;;IU)");
    let rights = pipe_rights(system_agent_only);
    let own = "D:P(A;;GA;;;SY)"@;
    assert(rights.take(own.len() as int) =~= own);
    if !system_agent_only {
        assert(rights.skip(own.len() as int) =~= "(A;;GA;;;BA)(A;;GRGW;;;IU)"@);
    }
}

} // verus!
