//! What Windows is told.

use sun_remote_desktop::events::{KeyboardEvent, MouseButton, MouseEvent};
use sun_remote_desktop::platform::{
    DesktopCapture, DesktopSize, InjectedKey, InjectedMouse, InputInjector, UnsupportedCapture,
    UnsupportedInput,
};
use sun_remote_desktop::text::same_text;
use sun_remote_desktop::wide::{text_of_wide, wide};
use sun_remote_desktop::windows::{
    absolute_mouse_position, frame_size, logon_request, mouse_button_flag,
    primary_display_capabilities, set_primary_display_size, supported_primary_display_sizes,
    wheel_data, DisplayMode, DisplayModeError, FrameSizeError, WindowsDesktopCapture,
    WindowsInputInjector,
};

fn size(width: u16, height: u16) -> DesktopSize {
    DesktopSize { width, height }
}

fn mode(width: u32, height: u32) -> DisplayMode {
    DisplayMode { width, height }
}

#[test]
fn frame_size_uses_captured_pixel_dimensions() {
    assert_eq!(frame_size(2556, 1224).unwrap(), size(2556, 1224));
}

#[test]
fn frame_size_rejects_empty_capture() {
    assert!(frame_size(0, 1080).is_err());
    assert!(frame_size(1920, 0).is_err());
}

#[test]
fn oversized_captures_are_told_apart() {
    assert_eq!(frame_size(65536, 0), Err(FrameSizeError::TooWide));
    assert_eq!(frame_size(1, 65536), Err(FrameSizeError::TooTall));
    assert_eq!(frame_size(0, 1), Err(FrameSizeError::Empty));
}

#[test]
fn capture_keeps_its_pace_and_follows_the_size() {
    let mut capture = WindowsDesktopCapture::new(999, 800, 600).unwrap();
    assert_eq!(capture.size(), size(800, 600));
    assert_eq!(capture.pause_after(0), 8_000_000);
    assert_eq!(capture.pause_after(3_000_000), 5_000_000);
    assert_eq!(capture.pause_after(8_000_000), 0);
    assert_eq!(capture.captured(800, 600), Ok((size(800, 600), false)));
    assert_eq!(capture.captured(1024, 768), Ok((size(1024, 768), true)));
    assert_eq!(capture.captured(0, 768), Err(FrameSizeError::Empty));
    assert_eq!(capture.size(), size(1024, 768));
    assert_eq!(WindowsDesktopCapture::new(0, 1, 1).unwrap().pause_after(1), 999_999_999);
    assert_eq!(WindowsDesktopCapture::new(30, 0, 1).err(), Some(FrameSizeError::Empty));
    assert_eq!(UnsupportedCapture.size(), size(1280, 720));
}

#[test]
fn keys_are_injected_with_their_flags() {
    let injector = WindowsInputInjector::new();
    let key = |event: KeyboardEvent| injector.keyboard(&event);
    assert_eq!(
        key(KeyboardEvent::Pressed { code: 30, extended: false }),
        Some(InjectedKey { scan: 30, flags: 8 })
    );
    assert_eq!(
        key(KeyboardEvent::Released { code: 30, extended: true }),
        Some(InjectedKey { scan: 30, flags: 11 })
    );
    assert_eq!(
        key(KeyboardEvent::UnicodePressed(0x20ac)),
        Some(InjectedKey { scan: 0x20ac, flags: 4 })
    );
    assert_eq!(
        key(KeyboardEvent::UnicodeReleased(0x20ac)),
        Some(InjectedKey { scan: 0x20ac, flags: 6 })
    );
    assert_eq!(key(KeyboardEvent::Synchronize(0)), None);
    let press = KeyboardEvent::Pressed { code: 30, extended: false };
    assert_eq!(UnsupportedInput.keyboard(&press), None);
}

#[test]
fn pointer_events_are_injected_with_their_flags() {
    let injector = WindowsInputInjector::new();
    let desktop = size(1921, 1081);
    let mouse = |event: MouseEvent| injector.mouse(&event, desktop);
    let injected =
        |dx: i32, dy: i32, wheel: u32, flags: u32| Some(InjectedMouse { dx, dy, wheel, flags });
    assert_eq!(mouse(MouseEvent::Move { x: 960, y: 0 }), injected(32767, 0, 0, 0x8001));
    assert_eq!(mouse(MouseEvent::RelMove { x: -1, y: 2 }), injected(-1, 2, 0, 1));
    assert_eq!(
        mouse(MouseEvent::Button { x: 1920, y: 1080, button: MouseButton::Right, pressed: true }),
        injected(65535, 65535, 0, 0x8009)
    );
    assert_eq!(
        mouse(MouseEvent::ButtonRel { x: 3, y: 4, button: MouseButton::Middle, pressed: false }),
        injected(3, 4, 0, 0x41)
    );
    assert_eq!(
        mouse(MouseEvent::Button { x: 0, y: 0, button: MouseButton::X1, pressed: true }),
        None
    );
    assert_eq!(mouse(MouseEvent::VerticalScroll { value: 1 }), injected(0, 0, 120, 0x800));
    assert_eq!(
        mouse(MouseEvent::HorizontalScroll { value: -1 }),
        injected(0, 0, (-120i32) as u32, 0x1000)
    );
    assert_eq!(mouse(MouseEvent::Scroll { x: 5, y: 2 }), injected(0, 0, 240, 0x800));
    assert_eq!(mouse(MouseEvent::Scroll { x: 5, y: 0 }), injected(0, 0, 600, 0x1000));
    assert_eq!(UnsupportedInput.mouse(&MouseEvent::Move { x: 0, y: 0 }, desktop), None);
}

#[test]
fn positions_and_wheels_stay_in_range() {
    assert_eq!(absolute_mouse_position(5000, 5000, size(1920, 1080)), (65535, 65535));
    assert_eq!(absolute_mouse_position(1, 1, size(0, 1)), (65535, 65535));
    assert_eq!(wheel_data(i32::MAX), i32::MAX as u32);
    assert_eq!(wheel_data(i32::MIN), i32::MIN as u32);
    assert_eq!(wheel_data(-2), (-240i32) as u32);
    assert_eq!(mouse_button_flag(MouseButton::Left, true), Some(2));
    assert_eq!(mouse_button_flag(MouseButton::Left, false), Some(4));
    assert_eq!(mouse_button_flag(MouseButton::Other, true), None);
}

#[test]
fn usable_modes_are_listed_once() {
    let modes = vec![
        mode(800, 600),
        mode(640, 480),
        mode(800, 600),
        mode(199, 600),
        mode(70000, 600),
        mode(200, 200),
    ];
    assert_eq!(
        supported_primary_display_sizes(&modes),
        Ok(vec![size(800, 600), size(640, 480), size(200, 200)])
    );
    assert_eq!(
        supported_primary_display_sizes(&vec![mode(100, 100)]),
        Err(DisplayModeError::NoModes)
    );
    assert_eq!(
        primary_display_capabilities(mode(1024, 768), &modes),
        Ok((
            size(1024, 768),
            vec![size(200, 200), size(640, 480), size(800, 600), size(1024, 768)]
        ))
    );
    assert_eq!(
        primary_display_capabilities(mode(70000, 1), &vec![]),
        Err(DisplayModeError::CurrentTooWide)
    );
    assert_eq!(
        primary_display_capabilities(mode(800, 600), &vec![]),
        Err(DisplayModeError::NoModes)
    );
}

#[test]
fn only_own_modes_are_set() {
    let modes = vec![mode(800, 600), mode(640, 480)];
    let current = mode(1024, 768);
    assert_eq!(set_primary_display_size(current, &modes, size(1024, 768)), Ok(None));
    assert_eq!(
        set_primary_display_size(current, &modes, size(640, 480)),
        Ok(Some(size(640, 480)))
    );
    assert_eq!(
        set_primary_display_size(current, &modes, size(800, 480)),
        Ok(Some(size(640, 480)))
    );
    assert_eq!(
        set_primary_display_size(current, &modes, size(300, 300)),
        Err(DisplayModeError::NoneSmallEnough(size(300, 300)))
    );
    assert_eq!(
        set_primary_display_size(mode(1, 70000), &modes, size(640, 480)),
        Err(DisplayModeError::CurrentTooTall)
    );
    assert_eq!(
        set_primary_display_size(mode(1, 70000), &vec![], size(640, 480)),
        Err(DisplayModeError::NoModes)
    );
}

#[test]
fn display_takes_the_closest_size_with_no_more_pixels() {
    let modes = vec![mode(2560, 1600), mode(1280, 1440), mode(1024, 768), mode(800, 600)];
    let current = mode(1920, 1200);
    // A tall phone: the proportions count before the size.
    assert_eq!(
        set_primary_display_size(current, &modes, size(1224, 2556)),
        Ok(Some(size(1280, 1440)))
    );
    // Of equal proportions the closer size, never one with more pixels.
    assert_eq!(
        set_primary_display_size(current, &modes, size(1200, 900)),
        Ok(Some(size(1024, 768)))
    );
    assert_eq!(
        set_primary_display_size(current, &modes, size(1000, 750)),
        Ok(Some(size(800, 600)))
    );
    // The current size is one of those to choose from.
    assert_eq!(set_primary_display_size(current, &modes, size(2000, 1250)), Ok(None));
    assert_eq!(set_primary_display_size(mode(640, 360), &modes, size(1280, 720)), Ok(None));
    assert_eq!(
        set_primary_display_size(current, &modes, size(2560, 1600)),
        Ok(Some(size(2560, 1600)))
    );
}

#[test]
fn logon_asks_for_the_given_account() {
    let request = logon_request(" HOST ", "al\u{1f600}", "p\u{e4}ss").unwrap();
    assert_eq!(text_of_wide(&request.domain), "HOST");
    assert_eq!(text_of_wide(&request.username), "al\u{1f600}");
    assert_eq!(text_of_wide(&request.password), "p\u{e4}ss");
    assert_eq!(text_of_wide(&logon_request("  ", "a", "b").unwrap().domain), ".");
    assert!(logon_request("a\0", "b", "c").is_none());
    assert!(logon_request("a", "b\0", "c").is_none());
    assert!(logon_request("a", "b", "\0c").is_none());
}

#[test]
fn wide_text_is_that_of_the_standard_library() {
    for text in ["", "plain", "\u{e9}\u{20ac}", "\u{10000}\u{10ffff}x", "\u{ffff}"] {
        let expected: Vec<u16> = text.encode_utf16().chain(std::iter::once(0)).collect();
        assert_eq!(wide(text), expected);
        assert_eq!(text_of_wide(&expected), text);
    }
    let broken = [0x41, 0xd800, 0x42, 0xdc00, 0xd83d, 0xde00, 0xd83d];
    assert_eq!(text_of_wide(&broken.to_vec()), String::from_utf16_lossy(&broken));
    assert_eq!(text_of_wide(&vec![0x41, 0, 0x42]), "A");
    assert!(same_text("a", "a") && !same_text("a", "b"));
}
