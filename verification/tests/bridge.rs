//! Between the service and its agent.

use sun_remote_desktop::bridge::{
    decode_frame_header, decode_handshake, decode_input, encode_display_size, encode_frame_header,
    encode_handshake, encode_keyboard, encode_mouse, frame_bytes, input_payload_length,
    validate_size, BridgeError, InputCommand, FRAME_HEADER_LENGTH, HELLO_LENGTH,
    MINIMUM_PROTOCOL_VERSION, PROTOCOL_VERSION,
};
use sun_remote_desktop::console::{
    active_console_session_id, admit_agent, admit_frame, agent_command, desktop_name_units,
    ensure_active_console_session, forward_display_size, forward_keyboard, forward_mouse,
    is_active_console_session, pipe_name, pipe_security, switch_on_mismatch, waiting_desktop_size,
    AgentRefusal, ConsoleDesktop, Forward, NO_ACTIVE_CONSOLE_SESSION,
};
use sun_remote_desktop::display::FrameHub;
use sun_remote_desktop::events::{KeyboardEvent, MouseButton, MouseEvent};
use sun_remote_desktop::platform::{CapturedFrame, DesktopSize};
use sun_remote_desktop::supervisor::{
    next_agent_phase, next_bridge_phase, AgentEvent, AgentPhase, BridgePhase, Supervisor,
    SupervisorAction, SupervisorEvent, SupervisorPhase,
};

const MAGIC: [u8; 4] = *b"RDPH";

fn size(width: u16, height: u16) -> DesktopSize {
    DesktopSize { width, height }
}

fn hello(version: u16, length: u16, size: DesktopSize) -> Vec<u8> {
    let mut data = Vec::new();
    data.extend_from_slice(&MAGIC);
    data.extend_from_slice(&version.to_le_bytes());
    data.extend_from_slice(&length.to_le_bytes());
    data.extend_from_slice(&size.width.to_le_bytes());
    data.extend_from_slice(&size.height.to_le_bytes());
    data.extend_from_slice(&0u32.to_le_bytes());
    data
}

/// Reads one message to the agent from a stream.
fn read_input(stream: &mut Vec<u8>) -> Result<InputCommand, BridgeError> {
    let kind = stream.remove(0);
    let length = input_payload_length(kind)?;
    let payload: Vec<u8> = stream.drain(..length).collect();
    decode_input(kind, &payload)
}

#[test]
fn handshake_round_trip() {
    let size = size(1920, 1080);
    let data = encode_handshake(size).unwrap();
    assert_eq!(data, hello(PROTOCOL_VERSION, HELLO_LENGTH, size));
    let handshake = decode_handshake(&data).unwrap();
    assert_eq!(handshake.version, PROTOCOL_VERSION);
    assert_eq!(handshake.size, size);
}

#[test]
fn accepts_the_previous_bridge_version_for_in_place_upgrades() {
    let data = hello(MINIMUM_PROTOCOL_VERSION, HELLO_LENGTH, size(640, 480));
    let handshake = decode_handshake(&data).unwrap();
    assert_eq!(handshake.version, MINIMUM_PROTOCOL_VERSION);
}

#[test]
fn rejects_an_unknown_protocol_version() {
    let data = hello(PROTOCOL_VERSION + 1, HELLO_LENGTH, size(640, 480));
    assert_eq!(
        decode_handshake(&data),
        Err(BridgeError::UnsupportedVersion(PROTOCOL_VERSION + 1))
    );
    assert_eq!(
        decode_handshake(&hello(0, HELLO_LENGTH, size(640, 480))),
        Err(BridgeError::UnsupportedVersion(0))
    );
}

#[test]
fn malformed_handshakes_are_told_apart() {
    let mut data = hello(2, HELLO_LENGTH, size(640, 480));
    data[3] = b'X';
    assert_eq!(decode_handshake(&data), Err(BridgeError::InvalidMagic));
    assert_eq!(
        decode_handshake(&hello(2, 17, size(640, 480))),
        Err(BridgeError::UnsupportedLength(17))
    );
    assert_eq!(
        decode_handshake(&hello(2, HELLO_LENGTH, size(0, 480))),
        Err(BridgeError::ZeroSize)
    );
    assert_eq!(encode_handshake(size(640, 0)).err(), Some(BridgeError::ZeroSize));
    assert_eq!(encode_handshake(size(65535, 65535)).err(), Some(BridgeError::TooLarge));
}

#[test]
fn frame_round_trip() {
    let frame = CapturedFrame { width: 4, height: 2, rgba: (0..32).collect() };
    let header = encode_frame_header(&frame).unwrap();
    assert_eq!(header.len(), FRAME_HEADER_LENGTH);
    assert_eq!(header, vec![1, 4, 0, 2, 0, 32, 0, 0, 0]);
    assert_eq!(decode_frame_header(&header), Ok((size(4, 2), frame.rgba.len())));
}

#[test]
fn malformed_frames_are_told_apart() {
    let short = CapturedFrame { width: 4, height: 2, rgba: vec![0; 31] };
    assert_eq!(encode_frame_header(&short).err(), Some(BridgeError::WrongFrameLength));
    let header = vec![2, 4, 0, 2, 0, 32, 0, 0, 0];
    assert_eq!(decode_frame_header(&header), Err(BridgeError::UnexpectedMessage(2)));
    let header = vec![1, 4, 0, 2, 0, 33, 0, 0, 0];
    assert_eq!(decode_frame_header(&header), Err(BridgeError::WrongFrameLength));
    let header = vec![1, 255, 255, 255, 255, 0, 0, 0, 0];
    assert_eq!(decode_frame_header(&header), Err(BridgeError::TooLarge));
    assert_eq!(frame_bytes(size(8192, 4096)), Ok(134217728));
    assert_eq!(frame_bytes(size(8192, 4097)), Err(BridgeError::TooLarge));
    assert_eq!(validate_size(size(8192, 4096)), Ok(()));
}

#[test]
fn input_round_trip() {
    let keyboard = KeyboardEvent::Pressed { code: 42, extended: true };
    let mouse = MouseEvent::Scroll { x: -2, y: 3 };
    let click = MouseEvent::Button { x: 321, y: 654, button: MouseButton::Left, pressed: true };
    let size = size(1600, 900);
    let mut stream = encode_keyboard(&keyboard).unwrap();
    stream.extend(encode_mouse(&mouse));
    stream.extend(encode_mouse(&click));
    stream.extend(encode_display_size(size));

    assert_eq!(read_input(&mut stream), Ok(InputCommand::Keyboard(keyboard)));
    assert_eq!(read_input(&mut stream), Ok(InputCommand::Mouse(mouse)));
    assert_eq!(
        read_input(&mut stream),
        Ok(InputCommand::Mouse(MouseEvent::Move { x: 321, y: 654 }))
    );
    assert_eq!(
        read_input(&mut stream),
        Ok(InputCommand::Mouse(MouseEvent::ButtonRel {
            x: 0,
            y: 0,
            button: MouseButton::Left,
            pressed: true,
        }))
    );
    assert_eq!(read_input(&mut stream), Ok(InputCommand::SetDisplaySize(size)));
    assert!(stream.is_empty());
}

#[test]
fn every_event_arrives() {
    let events = [
        MouseEvent::RelMove { x: i32::MIN, y: i32::MAX },
        MouseEvent::VerticalScroll { value: -3 },
    ];
    for event in events {
        let mut stream = encode_mouse(&event);
        assert_eq!(read_input(&mut stream), Ok(InputCommand::Mouse(event)));
        assert!(stream.is_empty());
    }
    let mut stream = encode_mouse(&MouseEvent::HorizontalScroll { value: -7 });
    assert_eq!(
        read_input(&mut stream),
        Ok(InputCommand::Mouse(MouseEvent::Scroll { x: -7, y: 0 }))
    );
    let buttons = [
        MouseButton::Left,
        MouseButton::Right,
        MouseButton::Middle,
        MouseButton::X1,
        MouseButton::X2,
    ];
    for button in buttons {
        for pressed in [true, false] {
            let mut stream = encode_mouse(&MouseEvent::ButtonRel { x: 1, y: -1, button, pressed });
            assert_eq!(
                read_input(&mut stream),
                Ok(InputCommand::Mouse(MouseEvent::RelMove { x: 1, y: -1 }))
            );
            assert_eq!(
                read_input(&mut stream),
                Ok(InputCommand::Mouse(MouseEvent::ButtonRel { x: 0, y: 0, button, pressed }))
            );
        }
    }
    let other =
        MouseEvent::Button { x: 5, y: 6, button: MouseButton::Other, pressed: true };
    assert_eq!(encode_mouse(&other), vec![0x20, 5, 0, 6, 0]);
    let keys = [
        KeyboardEvent::Released { code: 1, extended: false },
        KeyboardEvent::UnicodePressed(0x20ac),
        KeyboardEvent::UnicodeReleased(0xffff),
    ];
    for key in keys {
        let mut stream = encode_keyboard(&key).unwrap();
        assert_eq!(read_input(&mut stream), Ok(InputCommand::Keyboard(key)));
    }
    assert!(encode_keyboard(&KeyboardEvent::Synchronize(1)).is_none());
}

#[test]
fn refused_messages_are_told_apart() {
    assert_eq!(input_payload_length(0x99), Err(BridgeError::UnknownInput(0x99)));
    assert_eq!(decode_input(0x01, &vec![]), Err(BridgeError::UnknownInput(1)));
    assert_eq!(decode_input(0x30, &vec![0, 0, 1, 0]), Err(BridgeError::ZeroSize));
}

#[test]
fn service_bridge_moves_frames_and_input_in_opposite_directions() {
    let size_before = size(4, 2);
    let mut hub = FrameHub::new_unavailable(size(1280, 720));
    assert!(decode_handshake(&encode_handshake(size_before).unwrap()).is_ok());
    assert!(!hub.is_available());

    let resized = size(6, 3);
    let frames = [
        (size_before, (0..32).collect::<Vec<u8>>()),
        (resized, vec![37; 72]),
        (resized, vec![91; 72]),
    ];
    for (declared, pixels) in frames {
        let frame =
            CapturedFrame { width: declared.width, height: declared.height, rgba: pixels.clone() };
        let header = encode_frame_header(&frame).unwrap();
        let (size, length) = decode_frame_header(&header).unwrap();
        assert_eq!(length, pixels.len());
        hub.publish(CapturedFrame { width: size.width, height: size.height, rgba: frame.rgba });
        assert!(hub.is_available());
        assert_eq!(hub.size(), declared);
        assert_eq!(hub.frame().rgba, pixels);
        hub.set_unavailable_after();
    }

    let key = KeyboardEvent::Pressed { code: 30, extended: false };
    let Forward::Send(mut stream) = forward_keyboard(&key, true) else {
        panic!("the agent is connected");
    };
    assert_eq!(read_input(&mut stream), Ok(InputCommand::Keyboard(key)));
}

#[test]
fn events_without_an_agent_go_nowhere() {
    let key = KeyboardEvent::Pressed { code: 30, extended: false };
    assert_eq!(forward_keyboard(&key, false), Forward::NotConnected);
    assert_eq!(forward_keyboard(&KeyboardEvent::Synchronize(0), true), Forward::Nothing);
    let movement = MouseEvent::Move { x: 1, y: 2 };
    assert_eq!(forward_mouse(&movement, false), Forward::NotConnected);
    assert_eq!(forward_mouse(&movement, true), Forward::Send(vec![0x20, 1, 0, 2, 0]));
    assert_eq!(forward_display_size(size(3, 4), true), Forward::Send(vec![0x30, 3, 0, 4, 0]));
    assert_eq!(forward_display_size(size(3, 4), false), Forward::NotConnected);
}

#[test]
fn active_console_policy_rejects_other_windows_sessions() {
    assert!(is_active_console_session(2, 2));
    assert!(!is_active_console_session(1, 2));
    assert!(!is_active_console_session(2, NO_ACTIVE_CONSOLE_SESSION));
}

#[test]
fn console_desktop_switch_codes_round_trip() {
    for desktop in
        [ConsoleDesktop::Default, ConsoleDesktop::Winlogon, ConsoleDesktop::ScreenSaver]
    {
        assert_eq!(
            ConsoleDesktop::from_switch_exit_code(desktop.switch_exit_code()),
            Some(desktop)
        );
        assert_eq!(ConsoleDesktop::parse(desktop.argument()).unwrap(), desktop);
    }
    assert!(ConsoleDesktop::parse("remote").is_err());
}

#[test]
fn desktops_are_named_whatever_the_case() {
    assert_eq!(ConsoleDesktop::parse(" Screen-Saver\r\n"), Ok(ConsoleDesktop::ScreenSaver));
    assert_eq!(ConsoleDesktop::parse("WINLOGON"), Ok(ConsoleDesktop::Winlogon));
    assert_eq!(ConsoleDesktop::parse("remote").unwrap_err().name, "remote");
    assert_eq!(ConsoleDesktop::Winlogon.object_name(), "winsta0\\winlogon");
    assert_eq!(ConsoleDesktop::from_switch_exit_code(0), None);
    assert_eq!(switch_on_mismatch(ConsoleDesktop::Default, ConsoleDesktop::Default), None);
    assert_eq!(
        switch_on_mismatch(ConsoleDesktop::Default, ConsoleDesktop::Winlogon),
        Some(241)
    );
}

#[test]
fn only_the_consoles_own_agent_is_admitted() {
    assert_eq!(active_console_session_id(NO_ACTIVE_CONSOLE_SESSION), None);
    assert_eq!(active_console_session_id(3), Some(3));
    assert_eq!(
        ensure_active_console_session(1, 2),
        Err(AgentRefusal::OtherSession { agent: 1, console: 2 })
    );
    assert_eq!(admit_agent(true, 2, 2, true), Ok(()));
    assert_eq!(admit_agent(true, 2, 2, false), Err(AgentRefusal::NotLocalSystem));
    assert_eq!(
        admit_agent(true, NO_ACTIVE_CONSOLE_SESSION, NO_ACTIVE_CONSOLE_SESSION, true),
        Err(AgentRefusal::NoActiveConsole)
    );
    assert_eq!(admit_agent(false, 1, 2, false), Ok(()));
    assert_eq!(admit_frame(false, 1, 2), Ok(()));
    assert_eq!(
        admit_frame(true, 1, 2),
        Err(AgentRefusal::OtherSession { agent: 1, console: 2 })
    );
}

#[test]
fn the_agents_surroundings_are_named() {
    assert_eq!(pipe_security(true), "D:P(A;;GA;;;SY)");
    assert_eq!(pipe_security(false), "D:P(A;;GA;;;SY)(A;;GA;;;BA)(A;;GRGW;;;IU)");
    assert_eq!(pipe_name(None), r"\\.\pipe\SunRemoteDesktop.SessionBridge.v1");
    assert_eq!(pipe_name(Some("other".to_string())), "other");
    assert_eq!(
        agent_command("C:\\host.exe", "C:\\config.toml", ConsoleDesktop::Winlogon),
        "\"C:\\host.exe\" console-agent --desktop winlogon --config \"C:\\config.toml\""
    );
    assert_eq!(waiting_desktop_size(), size(1280, 720));
    assert_eq!(desktop_name_units(1), None);
    assert_eq!(desktop_name_units(2), Some(1));
    assert_eq!(desktop_name_units(17), Some(9));
    assert_eq!(desktop_name_units(u32::MAX), Some(2147483648));
}

#[test]
fn the_supervisor_replaces_its_agent() {
    let mut supervisor = Supervisor::new();
    assert_eq!(supervisor.action(), SupervisorAction::PollShutdown);
    assert!(!supervisor.step(SupervisorEvent::KeepRunning));
    assert_eq!(supervisor.action(), SupervisorAction::QuerySession);
    assert!(!supervisor.step(SupervisorEvent::Session(NO_ACTIVE_CONSOLE_SESSION)));
    assert_eq!(supervisor.action(), SupervisorAction::BackOff);
    assert!(!supervisor.step(SupervisorEvent::KeepRunning));
    supervisor.step(SupervisorEvent::KeepRunning);
    supervisor.step(SupervisorEvent::Session(5));
    assert_eq!(
        supervisor.action(),
        SupervisorAction::Start { session_id: 5, desktop: ConsoleDesktop::Default }
    );
    supervisor.step(SupervisorEvent::Started);
    supervisor.step(SupervisorEvent::KeepRunning);
    supervisor.step(SupervisorEvent::Session(5));
    assert_eq!(supervisor.action(), SupervisorAction::WaitForAgent);
    assert!(!supervisor.step(SupervisorEvent::StillRunning));
    supervisor.step(SupervisorEvent::KeepRunning);
    supervisor.step(SupervisorEvent::Session(5));
    assert!(!supervisor.step(SupervisorEvent::Exited(241)));
    assert_eq!(supervisor.desktop, ConsoleDesktop::Winlogon);
    assert_eq!(supervisor.phase, SupervisorPhase::Idle);

    supervisor.step(SupervisorEvent::KeepRunning);
    supervisor.step(SupervisorEvent::Session(5));
    supervisor.step(SupervisorEvent::Started);
    supervisor.step(SupervisorEvent::KeepRunning);
    assert!(supervisor.step(SupervisorEvent::Session(6)), "another session ends the agent");
    supervisor.step(SupervisorEvent::KeepRunning);
    supervisor.step(SupervisorEvent::Session(6));
    supervisor.step(SupervisorEvent::StartFailed);
    assert_eq!(supervisor.action(), SupervisorAction::BackOff);
    supervisor.step(SupervisorEvent::ShutdownDisconnected);
    assert_eq!(supervisor.phase, SupervisorPhase::Idle);
    supervisor.step(SupervisorEvent::KeepRunning);
    supervisor.step(SupervisorEvent::Session(6));
    supervisor.step(SupervisorEvent::Started);
    assert!(supervisor.step(SupervisorEvent::ShutdownReceived), "a stop ends the agent");
    assert_eq!(supervisor.action(), SupervisorAction::Stop);
    assert!(!supervisor.step(SupervisorEvent::KeepRunning));
    assert_eq!(supervisor.action(), SupervisorAction::Stop);
}

#[test]
fn a_crashed_agent_is_started_again_after_a_while() {
    let mut supervisor = Supervisor::new();
    for event in [
        SupervisorEvent::KeepRunning,
        SupervisorEvent::Session(1),
        SupervisorEvent::Started,
        SupervisorEvent::KeepRunning,
        SupervisorEvent::Session(1),
    ] {
        assert!(!supervisor.step(event));
    }
    let mut failed = supervisor;
    assert!(failed.step(SupervisorEvent::WaitFailed));
    assert_eq!(failed.phase, SupervisorPhase::Idle);
    assert!(!supervisor.step(SupervisorEvent::Exited(1)));
    assert_eq!(supervisor.phase, SupervisorPhase::BackingOff);
}

#[test]
fn an_agent_greets_before_it_exchanges() {
    let mut phase = AgentPhase::OpeningCapture;
    phase = next_agent_phase(phase, AgentEvent::Failed);
    assert_eq!(phase, AgentPhase::AwaitingDesktop);
    phase = next_agent_phase(phase, AgentEvent::Succeeded);
    phase = next_agent_phase(phase, AgentEvent::Succeeded);
    assert_eq!(phase, AgentPhase::Connecting);
    assert_eq!(next_agent_phase(phase, AgentEvent::Failed), AgentPhase::AwaitingService);
    phase = next_agent_phase(phase, AgentEvent::Succeeded);
    assert_eq!(phase, AgentPhase::Greeting);
    assert_eq!(next_agent_phase(phase, AgentEvent::Failed), AgentPhase::AwaitingService);
    phase = next_agent_phase(phase, AgentEvent::Succeeded);
    assert_eq!(phase, AgentPhase::Exchanging);
    phase = next_agent_phase(phase, AgentEvent::Failed);
    assert_eq!(next_agent_phase(phase, AgentEvent::Succeeded), AgentPhase::Connecting);
}

#[test]
fn a_served_agent_is_released_before_the_next() {
    let mut phase = BridgePhase::Listening;
    for expected in [
        BridgePhase::Admitting,
        BridgePhase::Greeting,
        BridgePhase::Serving,
        BridgePhase::Releasing,
        BridgePhase::Listening,
    ] {
        phase = next_bridge_phase(phase, AgentEvent::Succeeded);
        assert_eq!(phase, expected);
    }
    for refused in [BridgePhase::Listening, BridgePhase::Admitting, BridgePhase::Greeting] {
        assert_eq!(next_bridge_phase(refused, AgentEvent::Failed), BridgePhase::BackingOff);
    }
    assert_eq!(next_bridge_phase(BridgePhase::Serving, AgentEvent::Failed), BridgePhase::Releasing);
    assert_eq!(
        next_bridge_phase(BridgePhase::BackingOff, AgentEvent::Succeeded),
        BridgePhase::Listening
    );
}
