//! What clients see.

use sun_remote_desktop::access::{AccessAction, AccessGate, DesktopPresentation};
use sun_remote_desktop::bitmap::{default_arrow_pointer, placeholder_frame, to_bitmap_update, StripSequence};
use sun_remote_desktop::canvas::Canvas;
use sun_remote_desktop::display::{
    normalize_display_sizes, FrameHub, LayoutOutcome, MonitorLayout, RdpDisplay, ResizeDebounce,
};
use sun_remote_desktop::events::KeyboardEvent;
use sun_remote_desktop::frame::{
    desktop_resize_algorithm, fitted_desktop_viewport, letterbox, scale_frame, DesktopViewport,
    FrameError,
};
use sun_remote_desktop::platform::{CapturedFrame, DesktopSize};
use sun_remote_desktop::scaling::ScalingFilter;
use sun_remote_desktop::scene::{rgba, Shape};
use sun_remote_desktop::session::SessionCoordinator;
use sun_remote_desktop::updates::{
    DisplayError, DisplayUpdate, NextUpdate, RdpDisplayUpdates, WakeEvent,
};

fn size(width: u16, height: u16) -> DesktopSize {
    DesktopSize { width, height }
}

fn test_size() -> DesktopSize {
    size(640, 480)
}

fn solid(size: DesktopSize, value: u8) -> CapturedFrame {
    CapturedFrame {
        width: size.width,
        height: size.height,
        rgba: vec![value; usize::from(size.width) * usize::from(size.height) * 4],
    }
}

/// A connection: what a program around the library keeps together.
struct Connection {
    gate: AccessGate,
    hub: FrameHub,
    sessions: SessionCoordinator,
    display: RdpDisplay,
}

impl Connection {
    fn new(size: DesktopSize) -> Self {
        let hub = FrameHub::new(size);
        let display = RdpDisplay::new(&hub);
        Connection {
            gate: AccessGate::new("unused.toml".to_string()),
            hub,
            sessions: SessionCoordinator::new(1),
            display,
        }
    }

    fn updates(&mut self) -> RdpDisplayUpdates {
        RdpDisplayUpdates::new(&self.display, &mut self.gate, &self.hub, &self.sessions)
    }

    fn access_frame(&self, updates: &RdpDisplayUpdates) -> CapturedFrame {
        let mut canvas = Canvas::new(updates.client_size());
        for shape in &updates.access_scene(&self.gate).shapes {
            canvas.paint(shape);
        }
        canvas.into_frame()
    }

    /// The next update; where the stream waits it is woken by `event`.
    fn next(&mut self, updates: &mut RdpDisplayUpdates, event: WakeEvent) -> DisplayUpdate {
        let mut step = updates
            .next_update(&self.display, &mut self.gate, &self.hub, &self.sessions)
            .unwrap();
        loop {
            step = match step {
                NextUpdate::Send(update) => return update,
                NextUpdate::PaintAccess => {
                    let frame = self.access_frame(updates);
                    return updates.present_access(&frame).unwrap();
                }
                NextUpdate::Nothing => updates
                    .next_update(&self.display, &mut self.gate, &self.hub, &self.sessions)
                    .unwrap(),
                NextUpdate::Wait { .. } => updates
                    .resume(event, &self.display, &mut self.gate, &self.hub, &self.sessions)
                    .unwrap(),
            };
        }
    }

    fn read_screen(&mut self, updates: &mut RdpDisplayUpdates, event: WakeEvent) -> Vec<u8> {
        let size = self.display.size();
        let stride = usize::from(size.width) * 4;
        let mut pixels = vec![0; stride * usize::from(size.height)];
        let mut rows = 0;
        while rows < size.height {
            let DisplayUpdate::Bitmap(bitmap) = self.next(updates, event) else {
                continue;
            };
            assert_eq!(bitmap.x, 0);
            assert_eq!(bitmap.y, rows);
            assert_eq!(bitmap.width, size.width);
            for row in 0..usize::from(bitmap.height) {
                let src = row * bitmap.stride;
                let dst = (usize::from(bitmap.y) + row) * stride;
                pixels[dst..dst + stride].copy_from_slice(&bitmap.data[src..src + stride]);
            }
            rows += bitmap.height;
        }
        pixels
    }
}

#[test]
fn display_stream_advertises_and_moves_a_visible_pointer() {
    let mut connection = Connection::new(test_size());
    let mut updates = connection.updates();

    assert!(matches!(
        connection.next(&mut updates, WakeEvent::Refresh),
        DisplayUpdate::Bitmap(_)
    ));
    assert!(matches!(
        connection.next(&mut updates, WakeEvent::Refresh),
        DisplayUpdate::Pointer(_)
    ));

    connection.hub.publish_pointer_position(123, 45);
    assert!(matches!(
        connection.next(&mut updates, WakeEvent::Pointer),
        DisplayUpdate::PointerPosition { x: 123, y: 45 }
    ));
}

#[test]
fn access_screen_repaints_without_input_or_capture() {
    let mut connection = Connection::new(test_size());
    let mut updates = connection.updates();
    let expected = connection.access_frame(&updates).rgba;
    assert_eq!(connection.read_screen(&mut updates, WakeEvent::Refresh), expected);
    assert_eq!(connection.read_screen(&mut updates, WakeEvent::Refresh), expected);
}

#[test]
fn display_control_request_reactivates_at_the_client_size() {
    let initial = size(1024, 768);
    let resized = size(800, 600);
    let mut connection = Connection::new(initial);
    assert_eq!(
        connection.display.request_initial_size(
            initial,
            &mut connection.gate,
            &connection.hub,
            &connection.sessions
        ),
        initial
    );
    let mut updates = connection.updates();
    let monitors = vec![MonitorLayout { primary: true, width: 800, height: 600 }];
    assert_eq!(
        connection.display.request_layout(&monitors, &mut connection.gate, &connection.sessions),
        LayoutOutcome::Resized(None)
    );

    let update = connection.next(&mut updates, WakeEvent::ClientSize);
    assert!(matches!(update, DisplayUpdate::Resize(DesktopSize { width: 800, height: 600 })));
    assert_eq!(connection.gate.snapshot().client_size(), Some(resized));

    // The client repeats its first size while it is reactivated; the newer layout
    // stands.
    assert_eq!(
        connection.display.request_initial_size(
            initial,
            &mut connection.gate,
            &connection.hub,
            &connection.sessions
        ),
        resized
    );
    assert_eq!(connection.display.size(), resized);
}

#[test]
fn stale_dynamic_layout_does_not_leak_into_a_new_connection() {
    let mut connection = Connection::new(test_size());
    let monitors = vec![MonitorLayout { primary: true, width: 800, height: 600 }];
    connection.display.request_layout(&monitors, &mut connection.gate, &connection.sessions);
    connection.gate.reset();

    let next_client = size(1280, 720);
    assert_eq!(
        connection.display.request_initial_size(
            next_client,
            &mut connection.gate,
            &connection.hub,
            &connection.sessions
        ),
        next_client,
        "a layout queued by a disconnected client must not resize the next connection"
    );
}

#[test]
fn frame_hub_keeps_latest_frame_before_a_client_subscribes() {
    let size_before = test_size();
    let mut hub = FrameHub::new(size_before);
    let frame = solid(size_before, 91);
    let pixels = frame.rgba.clone();
    hub.publish(frame);
    assert!(hub.frame().rgba == pixels, "the latest frame must survive without subscribers");
    let resized = size(320, 200);
    hub.publish(solid(resized, 17));
    assert_eq!(hub.size(), resized);
}

#[test]
fn replacement_frame_cancels_the_agent_handoff_timeout() {
    let size = test_size();
    let mut hub = FrameHub::new(size);
    let generation = hub.set_unavailable_after();
    assert!(hub.is_available(), "the last frame stays live during handoff");

    hub.publish(solid(size, 42));
    hub.expire_grace_period(generation);
    assert!(hub.is_available(), "a replacement agent frame must cancel the old timeout");

    let generation = hub.set_unavailable_after();
    hub.expire_grace_period(generation);
    assert!(
        !hub.is_available(),
        "a genuinely missing agent becomes unavailable after the grace period"
    );
}

#[test]
fn desktop_scaling_produces_the_negotiated_client_size() {
    let source = CapturedFrame { width: 4, height: 2, rgba: [91, 91, 91, 255].repeat(4 * 2) };
    let scaled = scale_frame(&source, size(2, 1)).unwrap();
    assert_eq!((scaled.width, scaled.height), (2, 1));
    assert_eq!(scaled.rgba, [91, 91, 91, 255].repeat(2));
}

#[test]
fn desktop_scaling_preserves_aspect_ratio_with_centered_bars() {
    let source = CapturedFrame { width: 4, height: 2, rgba: [91, 92, 93, 255].repeat(4 * 2) };
    let target = size(4, 4);
    assert_eq!(
        fitted_desktop_viewport(size(source.width, source.height), target),
        DesktopViewport { x: 0, y: 1, width: 4, height: 2 }
    );
    let scaled = scale_frame(&source, target).unwrap();
    let bar = [5, 10, 19, 255].repeat(4);
    let desktop = [91, 92, 93, 255].repeat(4);
    assert_eq!(&scaled.rgba[0..16], &bar);
    assert_eq!(&scaled.rgba[16..32], &desktop);
    assert_eq!(&scaled.rgba[32..48], &desktop);
    assert_eq!(&scaled.rgba[48..64], &bar);
}

#[test]
fn desktop_scaling_uses_sharp_filters_instead_of_bilinear_interpolation() {
    assert_eq!(
        desktop_resize_algorithm(size(1920, 1200), size(2560, 1600)),
        ScalingFilter::CatmullRom
    );
    assert_eq!(
        desktop_resize_algorithm(size(2560, 1600), size(1920, 1200)),
        ScalingFilter::Lanczos3
    );
}

#[test]
fn scaling_resamples_the_pixels() {
    let mut rgba = [0, 0, 0, 255].repeat(2 * 4);
    rgba.extend([200, 200, 200, 255].repeat(2 * 4));
    let source = CapturedFrame { width: 4, height: 4, rgba };
    let scaled = scale_frame(&source, size(2, 2)).unwrap();
    assert_eq!(scaled.rgba.len(), 16);
    assert!(scaled.rgba[0] < 60 && scaled.rgba[8] > 140);
}

#[test]
fn frames_that_cannot_be_used_are_told_apart() {
    let short = CapturedFrame { width: 2, height: 2, rgba: vec![0; 15] };
    assert_eq!(scale_frame(&short, size(1, 1)).err(), Some(FrameError::TooShort));
    let narrow = CapturedFrame { width: 0, height: 2, rgba: vec![] };
    assert_eq!(to_bitmap_update(&narrow).err(), Some(FrameError::ZeroWidth));
    let flat = CapturedFrame { width: 2, height: 0, rgba: vec![] };
    assert_eq!(to_bitmap_update(&flat).err(), Some(FrameError::ZeroHeight));
    assert_eq!(to_bitmap_update(&short).err(), Some(FrameError::WrongLength));
}

#[test]
fn a_canvas_of_the_same_size_gets_the_frame_itself() {
    let frame = solid(size(5, 3), 7);
    assert_eq!(scale_frame(&frame, size(5, 3)).unwrap().rgba, frame.rgba);
    let viewport = DesktopViewport { x: 1, y: 0, width: 1, height: 1 };
    let boxed = letterbox(&vec![1, 2, 3, 4], viewport, size(3, 1));
    assert_eq!(boxed, vec![5, 10, 19, 255, 1, 2, 3, 4, 5, 10, 19, 255]);
}

#[test]
fn a_closed_barrier_sends_the_screen_that_was_rendered_for_the_canvas() {
    let mut connection = Connection::new(test_size());
    let mut updates = connection.updates();
    connection.hub.publish(solid(test_size(), 77));
    let rendered = connection.access_frame(&updates);
    assert_eq!(connection.read_screen(&mut updates, WakeEvent::Refresh), rendered.rgba);
    connection.gate.begin_validation("test-user");
    let checking = connection.access_frame(&updates);
    assert!(checking.rgba != rendered.rgba);
    assert_eq!(connection.read_screen(&mut updates, WakeEvent::Access), checking.rgba);
}

#[test]
fn desktop_stays_gated_and_reconnect_returns_to_access_screen() {
    let size = test_size();
    let mut connection = Connection::new(size);
    let mut updates = connection.updates();
    let frame = solid(size, 91);
    let pixels = frame.rgba.clone();
    connection.hub.publish(frame);
    let access = connection.access_frame(&updates).rgba;
    assert_eq!(connection.read_screen(&mut updates, WakeEvent::Refresh), access);
    assert_eq!(connection.read_screen(&mut updates, WakeEvent::Refresh), access);
    let generation = connection.gate.begin_validation("test-user");
    connection.gate.finish_validation(generation, "test-user", Ok(true), &connection.sessions);
    let enter = KeyboardEvent::Pressed { code: 28, extended: false };
    connection.gate.handle_keyboard(&enter, &mut connection.sessions, size);
    assert_eq!(connection.read_screen(&mut updates, WakeEvent::Frame), pixels);
    connection.gate.reset();
    let mut updates = connection.updates();
    let access = connection.access_frame(&updates).rgba;
    assert_eq!(connection.read_screen(&mut updates, WakeEvent::Refresh), access);
}

#[test]
fn a_client_that_matches_the_display_asks_for_its_size() {
    let desktop = size(1280, 720);
    let mut connection = Connection::new(desktop);
    connection.gate.set_display_sizes(size(800, 600), desktop, &connection.sessions);
    let generation = connection.gate.begin_validation("test-user");
    connection.gate.finish_validation(generation, "test-user", Ok(true), &connection.sessions);
    for code in [15, 28] {
        let key = KeyboardEvent::Pressed { code, extended: false };
        connection.gate.handle_keyboard(&key, &mut connection.sessions, desktop);
    }
    let monitors = vec![MonitorLayout { primary: true, width: 1024, height: 768 }];
    let wanted = size(1024, 768);
    assert_eq!(
        connection.display.request_layout(&monitors, &mut connection.gate, &connection.sessions),
        LayoutOutcome::Resized(Some(AccessAction::ChangeDisplaySize(wanted)))
    );
    let mut debounce = ResizeDebounce::new();
    assert_eq!(debounce.settle(&connection.gate, &connection.sessions), None);
    debounce.request(wanted);
    assert_eq!(debounce.settle(&connection.gate, &connection.sessions), Some(wanted));
    assert_eq!(debounce.settle(&connection.gate, &connection.sessions), None);
}

#[test]
fn a_waiting_size_ends_with_its_connection() {
    let desktop = size(1280, 720);
    let mut connection = Connection::new(desktop);
    connection.gate.set_display_sizes(size(800, 600), desktop, &connection.sessions);
    let generation = connection.gate.begin_validation("test-user");
    connection.gate.finish_validation(generation, "test-user", Ok(true), &connection.sessions);
    for code in [15, 28] {
        let key = KeyboardEvent::Pressed { code, extended: false };
        connection.gate.handle_keyboard(&key, &mut connection.sessions, desktop);
    }
    let mut debounce = ResizeDebounce::new();
    debounce.request(size(800, 600));
    connection.gate.reset();
    assert_eq!(debounce.settle(&connection.gate, &connection.sessions), None);
}

#[test]
fn a_waiting_stream_wakes_for_what_changed() {
    let mut connection = Connection::new(test_size());
    let mut updates = connection.updates();
    assert_eq!(updates.client_size(), test_size());
    connection.read_screen(&mut updates, WakeEvent::Refresh);
    let waits = loop {
        let step = updates
            .next_update(&connection.display, &mut connection.gate, &connection.hub, &connection.sessions)
            .unwrap();
        if let NextUpdate::Wait { desktop } = step {
            break desktop;
        }
    };
    assert!(!waits);
    let pending = |connection: &Connection, updates: &RdpDisplayUpdates, desktop: bool| {
        updates.pending_event(&connection.display, &connection.gate, &connection.hub, desktop)
    };
    assert_eq!(pending(&connection, &updates, false), None);

    connection.hub.publish(solid(test_size(), 9));
    assert_eq!(pending(&connection, &updates, false), None);
    assert_eq!(pending(&connection, &updates, true), Some(WakeEvent::Frame));

    connection.hub.set_available(false);
    assert_eq!(pending(&connection, &updates, false), Some(WakeEvent::Availability));

    connection.hub.publish_pointer_position(3, 4);
    assert_eq!(pending(&connection, &updates, false), Some(WakeEvent::Pointer));

    connection.gate.begin_validation("test-user");
    assert_eq!(pending(&connection, &updates, false), Some(WakeEvent::Access));
}

#[test]
fn a_desktop_cannot_be_scaled_onto_an_empty_canvas() {
    let mut connection = Connection::new(size(1280, 720));
    let canvas = size(0, 600);
    connection.display.request_initial_size(
        canvas,
        &mut connection.gate,
        &connection.hub,
        &connection.sessions,
    );
    let generation = connection.gate.begin_validation("test-user");
    connection.gate.finish_validation(generation, "test-user", Ok(true), &connection.sessions);
    let enter = KeyboardEvent::Pressed { code: 28, extended: false };
    connection.gate.handle_keyboard(&enter, &mut connection.sessions, size(1280, 720));
    assert_eq!(connection.gate.snapshot().presentation(), Some(DesktopPresentation::Scale));

    let mut updates = connection.updates();
    let step = updates.next_update(
        &connection.display,
        &mut connection.gate,
        &connection.hub,
        &connection.sessions,
    );
    assert_eq!(step.err(), Some(DisplayError::Frame(FrameError::ZeroWidth)));
}

#[test]
fn layouts_of_other_kinds_are_refused() {
    let mut connection = Connection::new(test_size());
    let monitor = MonitorLayout { primary: true, width: 800, height: 600 };
    let two = vec![monitor, monitor];
    assert_eq!(
        connection.display.request_layout(&two, &mut connection.gate, &connection.sessions),
        LayoutOutcome::Unsupported
    );
    let huge = vec![MonitorLayout { primary: true, width: 70000, height: 600 }];
    assert_eq!(
        connection.display.request_layout(&huge, &mut connection.gate, &connection.sessions),
        LayoutOutcome::OutOfRange
    );
    let same = vec![MonitorLayout { primary: true, width: 640, height: 480 }];
    assert_eq!(
        connection.display.request_layout(&same, &mut connection.gate, &connection.sessions),
        LayoutOutcome::Unchanged
    );
}

#[test]
fn display_sizes_are_listed_in_order() {
    let sizes = vec![size(1920, 1080), size(0, 5), size(640, 480), size(1920, 1080), size(480, 640)];
    assert_eq!(
        normalize_display_sizes(&sizes),
        vec![size(480, 640), size(640, 480), size(1920, 1080)]
    );
    let mut hub = FrameHub::new_unavailable(size(800, 600));
    assert!(!hub.is_available());
    hub.set_display_capabilities(size(800, 600), vec![size(1024, 768), size(640, 480)]);
    assert_eq!(
        hub.supported_sizes(),
        vec![size(640, 480), size(800, 600), size(1024, 768)]
    );
    hub.set_available(true);
    assert!(hub.is_available());
}

#[test]
fn no_access_screen_is_sent_before_one_is_painted() {
    let mut connection = Connection::new(test_size());
    let mut updates = connection.updates();
    let broken = CapturedFrame { width: 2, height: 2, rgba: vec![0; 3] };
    assert!(matches!(
        updates.present_access(&broken),
        Err(DisplayError::Frame(FrameError::WrongLength))
    ));
    assert!(matches!(
        connection.next(&mut updates, WakeEvent::Refresh),
        DisplayUpdate::Bitmap(_)
    ));
}

#[test]
fn a_native_frame_of_another_size_ends_the_stream() {
    let desktop = test_size();
    let mut connection = Connection::new(desktop);
    connection.gate.set_display_sizes(desktop, desktop, &connection.sessions);
    let generation = connection.gate.begin_validation("test-user");
    connection.gate.finish_validation(generation, "test-user", Ok(true), &connection.sessions);
    assert_eq!(connection.gate.snapshot().presentation(), Some(DesktopPresentation::Native));
    let mut updates = connection.updates();
    let first = connection.next(&mut updates, WakeEvent::Frame);
    assert!(matches!(first, DisplayUpdate::Bitmap(_)));
}

#[test]
fn a_bitmap_is_sent_in_strips() {
    let frame = solid(size(64, 100), 9);
    let bitmap = to_bitmap_update(&frame).unwrap();
    assert_eq!((bitmap.x, bitmap.y, bitmap.width, bitmap.height), (0, 0, 64, 100));
    assert_eq!(bitmap.stride, 256);
    let mut strips = StripSequence::new(bitmap);
    let mut rows = 0;
    loop {
        let (strip, last) = strips.next_strip();
        assert_eq!(strip.y, rows);
        assert_eq!(strip.data.len(), usize::from(strip.height) * 256);
        rows += strip.height;
        if last {
            break;
        }
    }
    assert_eq!(rows, 100);
}

#[test]
fn placeholder_and_pointer_have_pixels() {
    let pixels = placeholder_frame(size(4, 3));
    assert_eq!(pixels.len(), 48);
    let pointer = default_arrow_pointer();
    assert_eq!(
        pointer.data.len(),
        usize::from(pointer.width) * usize::from(pointer.height) * 4
    );
    assert!(pointer.data.iter().any(|byte| *byte != 0));
}

#[test]
fn the_built_in_font_paints_letters() {
    let mut canvas = Canvas::new(size(16, 16));
    canvas.bitmap_text(0, 0, "A", 1, rgba(255, 255, 255, 255), 16);
    let letter = canvas.into_frame().rgba;
    assert!(letter.iter().any(|byte| *byte != 0));
    let mut canvas = Canvas::new(size(16, 16));
    canvas.bitmap_text(0, 0, "B", 1, rgba(255, 255, 255, 255), 16);
    assert!(canvas.into_frame().rgba != letter);
    let mut canvas = Canvas::new(size(16, 16));
    canvas.bitmap_text(0, 0, " ", 1, rgba(255, 255, 255, 255), 16);
    assert!(canvas.into_frame().rgba.iter().all(|byte| *byte == 0));
}

#[test]
fn shapes_are_blended_onto_the_canvas() {
    let mut canvas = Canvas::new(size(2, 1));
    canvas.blend_pixel(0, 0, rgba(200, 100, 50, 255), 255);
    canvas.blend_pixel(7, 7, rgba(200, 100, 50, 255), 255);
    let frame = canvas.into_frame();
    assert_eq!(&frame.rgba[0..4], &[200, 100, 50, 255]);
    assert_eq!(&frame.rgba[4..8], &[0, 0, 0, 0]);
    let mut canvas = Canvas::new(size(8, 8));
    assert!(canvas.paint(&Shape::Gradient));
    let glow = Shape::Glow {
        x_percent: 50,
        y_percent: 50,
        radius_percent: 50,
        color: rgba(1, 2, 3, 4),
    };
    assert!(!canvas.paint(&glow));
}
