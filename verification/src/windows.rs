//! What the host tells Windows and what it makes of Windows' answers: captured
//! frames, injected input, display modes and local accounts.

use vstd::prelude::*;

use crate::display::{insert_size, lists};
use crate::events::{KeyboardEvent, MouseButton, MouseEvent};
use crate::platform::{DesktopCapture, DesktopSize, InjectedKey, InjectedMouse, InputInjector};
use crate::wide::wide;

verus! {

/// Why a captured image cannot be a desktop.
#[derive(Debug, Clone, Copy, PartialEq, Eq, Structural)]
pub enum FrameSizeError {
    /// It is wider than a client can be told.
    TooWide,
    /// It is taller than a client can be told.
    TooTall,
    /// It has no pixels.
    Empty,
}

/// The size of a captured image.
pub open spec fn captured_size(width: u32, height: u32) -> Result<DesktopSize, FrameSizeError> {
    if width > u16::MAX {
        Err(FrameSizeError::TooWide)
    } else if height > u16::MAX {
        Err(FrameSizeError::TooTall)
    } else if width == 0 || height == 0 {
        Err(FrameSizeError::Empty)
    } else {
        Ok(DesktopSize { width: width as u16, height: height as u16 })
    }
}

/// The size of a captured image.
pub fn frame_size(width: u32, height: u32) -> (result: Result<DesktopSize, FrameSizeError>)
    ensures
        result == captured_size(width, height),
{
    if width > 0xffff {
        return Err(FrameSizeError::TooWide);
    }
    if height > 0xffff {
        return Err(FrameSizeError::TooTall);
    }
    if width == 0 || height == 0 {
        return Err(FrameSizeError::Empty);
    }
    Ok(DesktopSize { width: width as u16, height: height as u16 })
}

/// The frames per second that are captured at most and at least.
pub open spec fn clamped_fps(fps: u32) -> u32 {
    if fps < 1 {
        1
    } else if fps > 120 {
        120
    } else {
        fps
    }
}

/// The capture of the primary monitor.
#[derive(Debug, Clone, Copy, PartialEq, Eq, Structural)]
pub struct WindowsDesktopCapture {
    size: DesktopSize,
    fps: u32,
}

/// How many nanoseconds are left of the time of one frame, in whole milliseconds, after a
/// frame that took this many.
pub open spec fn pause_of(rate: u32, elapsed: u64) -> int {
    let period = 1000int / (if rate == 0 {
        1int
    } else {
        rate as int
    }) * 1000000;
    if elapsed < period {
        period - elapsed
    } else {
        0
    }
}

impl WindowsDesktopCapture {
    /// The size of the latest frame.
    pub closed spec fn latest(self) -> DesktopSize {
        self.size
    }

    /// The frames per second.
    pub closed spec fn rate(self) -> u32 {
        self.fps
    }

    /// A capture at a rate, from the size of a first image.
    pub fn new(fps: u32, width: u32, height: u32) -> (result: Result<Self, FrameSizeError>)
        ensures
            match captured_size(width, height) {
                Ok(size) => result matches Ok(capture) && capture.latest() == size && capture.rate()
                    == clamped_fps(fps),
                Err(expected) => result matches Err(error) && error == expected,
            },
    {
        match frame_size(width, height) {
            Ok(size) => {
                let fps: u32 = if fps < 1 {
                    1
                } else if fps > 120 {
                    120
                } else {
                    fps
                };
                Ok(WindowsDesktopCapture { size, fps })
            },
            Err(error) => Err(error),
        }
    }

    /// Takes the next image: its size, and whether the desktop changed its size. An
    /// image that cannot be a desktop changes nothing.
    pub fn captured(&mut self, width: u32, height: u32) -> (result: Result<
        (DesktopSize, bool),
        FrameSizeError,
    >)
        ensures
            final(self).rate() == old(self).rate(),
            match captured_size(width, height) {
                Ok(size) => result matches Ok((found, changed)) && found == size && changed == (size
                    != old(self).latest()) && final(self).latest() == size,
                Err(expected) => result matches Err(error) && error == expected
                    && final(self).latest() == old(self).latest(),
            },
    {
        match frame_size(width, height) {
            Ok(size) => {
                let changed = size != self.size;
                self.size = size;
                Ok((size, changed))
            },
            Err(error) => Err(error),
        }
    }

    /// How many nanoseconds to wait after a frame that took this many: what is left
    /// of the time of one frame, in whole milliseconds.
    pub fn pause_after(&self, elapsed: u64) -> (pause: u64)
        ensures
            pause == pause_of(self.rate(), elapsed),
            ({
                let period = 1000int / (if self.rate() == 0 {
                    1int
                } else {
                    self.rate() as int
                }) * 1000000;
                pause == if elapsed < period {
                    period - elapsed
                } else {
                    0
                }
            }),
    {
        let rate: u64 = if self.fps == 0 {
            1
        } else {
            self.fps as u64
        };
        let milliseconds: u64 = 1000 / rate;
        assert(milliseconds <= 1000) by (nonlinear_arith)
            requires
                milliseconds == 1000u64 / rate,
                rate >= 1,
        ;
        let period: u64 = milliseconds * 1000000;
        if elapsed < period {
            period - elapsed
        } else {
            0
        }
    }
}

impl DesktopCapture for WindowsDesktopCapture {
    fn size(&self) -> (size: DesktopSize)
        ensures
            size == self.latest(),
    {
        self.size
    }
}

/// A key's scan code stands behind the prefix of extended keys.
pub const KEYEVENTF_EXTENDEDKEY: u32 = 0x1;

/// A key is released.
pub const KEYEVENTF_KEYUP: u32 = 0x2;

/// A key is a UTF-16 unit.
pub const KEYEVENTF_UNICODE: u32 = 0x4;

/// A key is a scan code.
pub const KEYEVENTF_SCANCODE: u32 = 0x8;

/// The pointer moves.
pub const MOUSEEVENTF_MOVE: u32 = 0x1;

pub const MOUSEEVENTF_LEFTDOWN: u32 = 0x2;

pub const MOUSEEVENTF_LEFTUP: u32 = 0x4;

pub const MOUSEEVENTF_RIGHTDOWN: u32 = 0x8;

pub const MOUSEEVENTF_RIGHTUP: u32 = 0x10;

pub const MOUSEEVENTF_MIDDLEDOWN: u32 = 0x20;

pub const MOUSEEVENTF_MIDDLEUP: u32 = 0x40;

/// The wheel turns.
pub const MOUSEEVENTF_WHEEL: u32 = 0x800;

/// The wheel tilts.
pub const MOUSEEVENTF_HWHEEL: u32 = 0x1000;

/// The pointer's place is given, not the way to it.
pub const MOUSEEVENTF_ABSOLUTE: u32 = 0x8000;

/// The key that Windows is told.
pub open spec fn injected_key(event: KeyboardEvent) -> Option<InjectedKey> {
    match event {
        KeyboardEvent::Pressed { code, extended } => Some(
            InjectedKey {
                scan: code as u16,
                flags: if extended {
                    KEYEVENTF_SCANCODE | KEYEVENTF_EXTENDEDKEY
                } else {
                    KEYEVENTF_SCANCODE
                },
            },
        ),
        KeyboardEvent::Released { code, extended } => Some(
            InjectedKey {
                scan: code as u16,
                flags: if extended {
                    KEYEVENTF_SCANCODE | KEYEVENTF_KEYUP | KEYEVENTF_EXTENDEDKEY
                } else {
                    KEYEVENTF_SCANCODE | KEYEVENTF_KEYUP
                },
            },
        ),
        KeyboardEvent::UnicodePressed(code) => Some(
            InjectedKey { scan: code, flags: KEYEVENTF_UNICODE },
        ),
        KeyboardEvent::UnicodeReleased(code) => Some(
            InjectedKey { scan: code, flags: KEYEVENTF_UNICODE | KEYEVENTF_KEYUP },
        ),
        KeyboardEvent::Synchronize(_) => None,
    }
}

/// A coordinate on Windows' scale from 0 to 65535 over the desktop's pixels.
pub open spec fn absolute_axis(at: u16, length: u16) -> int {
    let last: int = if length <= 2 {
        1
    } else {
        length - 1
    };
    (if at > last {
        last
    } else {
        at as int
    }) * 65535 / last
}

/// Turns a coordinate into one on Windows' scale.
fn absolute_coordinate(at: u16, length: u16) -> (position: i32)
    ensures
        position == absolute_axis(at, length),
        0 <= position <= 65535,
{
    let last: i64 = if length <= 2 {
        1
    } else {
        length as i64 - 1
    };
    let inside: i64 = if at as i64 > last {
        last
    } else {
        at as i64
    };
    let scaled: i64 = inside * 65535;
    let position: i64 = scaled / last;
    assert(0 <= position <= 65535) by (nonlinear_arith)
        requires
            position == scaled / last,
            scaled == inside * 65535,
            0 <= inside <= last,
            last >= 1,
    ;
    position as i32
}

/// A place on Windows' scale.
pub fn absolute_mouse_position(x: u16, y: u16, desktop: DesktopSize) -> (position: (i32, i32))
    ensures
        position.0 == absolute_axis(x, desktop.width),
        position.1 == absolute_axis(y, desktop.height),
{
    (absolute_coordinate(x, desktop.width), absolute_coordinate(y, desktop.height))
}

/// The flag of a button; the side buttons have none.
pub open spec fn button_flag(button: MouseButton, pressed: bool) -> Option<u32> {
    match button {
        MouseButton::Left => Some(if pressed { MOUSEEVENTF_LEFTDOWN } else { MOUSEEVENTF_LEFTUP }),
        MouseButton::Right => Some(
            if pressed { MOUSEEVENTF_RIGHTDOWN } else { MOUSEEVENTF_RIGHTUP },
        ),
        MouseButton::Middle => Some(
            if pressed { MOUSEEVENTF_MIDDLEDOWN } else { MOUSEEVENTF_MIDDLEUP },
        ),
        _ => None,
    }
}

/// The flag of a button.
pub fn mouse_button_flag(button: MouseButton, pressed: bool) -> (flag: Option<u32>)
    ensures
        flag == button_flag(button, pressed),
{
    match button {
        MouseButton::Left => Some(if pressed { MOUSEEVENTF_LEFTDOWN } else { MOUSEEVENTF_LEFTUP }),
        MouseButton::Right => Some(
            if pressed { MOUSEEVENTF_RIGHTDOWN } else { MOUSEEVENTF_RIGHTUP },
        ),
        MouseButton::Middle => Some(
            if pressed { MOUSEEVENTF_MIDDLEDOWN } else { MOUSEEVENTF_MIDDLEUP },
        ),
        _ => None,
    }
}

/// How far the wheel turns for a number of notches, 120 for each, within what a
/// signed number holds, as the unsigned number of the same bits.
pub open spec fn wheel_units(value: i32) -> u32 {
    let units = value * 120;
    crate::wire::u32_of(
        (if units > i32::MAX {
            i32::MAX as int
        } else if units < i32::MIN {
            i32::MIN as int
        } else {
            units
        }) as i32,
    )
}

/// How far the wheel turns for a number of notches.
pub fn wheel_data(value: i32) -> (units: u32)
    ensures
        units == wheel_units(value),
{
    let units: i64 = value as i64 * 120;
    if units > 0x7fffffff {
        0x7fffffff
    } else if units < -0x80000000 {
        0x80000000
    } else if units < 0 {
        (units + 0x100000000) as u32
    } else {
        units as u32
    }
}

/// A turn of one of the wheels.
pub open spec fn turned(value: i32, flags: u32) -> InjectedMouse {
    InjectedMouse { dx: 0, dy: 0, wheel: wheel_units(value), flags }
}

/// The pointer event that Windows is told.
pub open spec fn injected_mouse(event: MouseEvent, desktop: DesktopSize) -> Option<InjectedMouse> {
    match event {
        MouseEvent::Move { x, y } => Some(
            InjectedMouse {
                dx: absolute_axis(x, desktop.width) as i32,
                dy: absolute_axis(y, desktop.height) as i32,
                wheel: 0,
                flags: MOUSEEVENTF_MOVE | MOUSEEVENTF_ABSOLUTE,
            },
        ),
        MouseEvent::RelMove { x, y } => Some(
            InjectedMouse { dx: x, dy: y, wheel: 0, flags: MOUSEEVENTF_MOVE },
        ),
        MouseEvent::Button { x, y, button, pressed } => match button_flag(button, pressed) {
            Some(flag) => Some(
                InjectedMouse {
                    dx: absolute_axis(x, desktop.width) as i32,
                    dy: absolute_axis(y, desktop.height) as i32,
                    wheel: 0,
                    flags: MOUSEEVENTF_MOVE | MOUSEEVENTF_ABSOLUTE | flag,
                },
            ),
            None => None,
        },
        MouseEvent::ButtonRel { x, y, button, pressed } => match button_flag(button, pressed) {
            Some(flag) => Some(
                InjectedMouse { dx: x, dy: y, wheel: 0, flags: MOUSEEVENTF_MOVE | flag },
            ),
            None => None,
        },
        MouseEvent::VerticalScroll { value } => Some(turned(value as i32, MOUSEEVENTF_WHEEL)),
        MouseEvent::HorizontalScroll { value } => Some(turned(value as i32, MOUSEEVENTF_HWHEEL)),
        MouseEvent::Scroll { x, y } => Some(
            if y != 0 {
                turned(y, MOUSEEVENTF_WHEEL)
            } else {
                turned(x, MOUSEEVENTF_HWHEEL)
            },
        ),
    }
}

/// The injector of Windows.
#[derive(Debug, Clone, Copy, PartialEq, Eq, Structural)]
pub struct WindowsInputInjector;

impl WindowsInputInjector {
    /// An injector.
    pub fn new() -> (injector: Self)
        ensures
            injector == WindowsInputInjector,
    {
        WindowsInputInjector
    }
}

impl InputInjector for WindowsInputInjector {
    open spec fn key_for(&self, event: KeyboardEvent) -> Option<InjectedKey> {
        injected_key(event)
    }

    open spec fn pointer_for(&self, event: MouseEvent, desktop: DesktopSize) -> Option<
        InjectedMouse,
    > {
        injected_mouse(event, desktop)
    }

    fn keyboard(&self, event: &KeyboardEvent) -> (key: Option<InjectedKey>) {
        match *event {
            KeyboardEvent::Pressed { code, extended } => Some(
                InjectedKey {
                    scan: code as u16,
                    flags: if extended {
                        KEYEVENTF_SCANCODE | KEYEVENTF_EXTENDEDKEY
                    } else {
                        KEYEVENTF_SCANCODE
                    },
                },
            ),
            KeyboardEvent::Released { code, extended } => Some(
                InjectedKey {
                    scan: code as u16,
                    flags: if extended {
                        KEYEVENTF_SCANCODE | KEYEVENTF_KEYUP | KEYEVENTF_EXTENDEDKEY
                    } else {
                        KEYEVENTF_SCANCODE | KEYEVENTF_KEYUP
                    },
                },
            ),
            KeyboardEvent::UnicodePressed(code) => Some(
                InjectedKey { scan: code, flags: KEYEVENTF_UNICODE },
            ),
            KeyboardEvent::UnicodeReleased(code) => Some(
                InjectedKey { scan: code, flags: KEYEVENTF_UNICODE | KEYEVENTF_KEYUP },
            ),
            KeyboardEvent::Synchronize(_) => None,
        }
    }

    fn mouse(&self, event: &MouseEvent, desktop: DesktopSize) -> (pointer: Option<InjectedMouse>) {
        match *event {
            MouseEvent::Move { x, y } => {
                let (dx, dy) = absolute_mouse_position(x, y, desktop);
                Some(
                    InjectedMouse { dx, dy, wheel: 0, flags: MOUSEEVENTF_MOVE | MOUSEEVENTF_ABSOLUTE },
                )
            },
            MouseEvent::RelMove { x, y } => Some(
                InjectedMouse { dx: x, dy: y, wheel: 0, flags: MOUSEEVENTF_MOVE },
            ),
            MouseEvent::Button { x, y, button, pressed } => {
                match mouse_button_flag(button, pressed) {
                    Some(flag) => {
                        let (dx, dy) = absolute_mouse_position(x, y, desktop);
                        let flags: u32 = MOUSEEVENTF_MOVE | MOUSEEVENTF_ABSOLUTE | flag;
                        Some(InjectedMouse { dx, dy, wheel: 0, flags })
                    },
                    None => None,
                }
            },
            MouseEvent::ButtonRel { x, y, button, pressed } => {
                match mouse_button_flag(button, pressed) {
                    Some(flag) => Some(
                        InjectedMouse { dx: x, dy: y, wheel: 0, flags: MOUSEEVENTF_MOVE | flag },
                    ),
                    None => None,
                }
            },
            MouseEvent::VerticalScroll { value } => Some(
                InjectedMouse {
                    dx: 0,
                    dy: 0,
                    wheel: wheel_data(value as i32),
                    flags: MOUSEEVENTF_WHEEL,
                },
            ),
            MouseEvent::HorizontalScroll { value } => Some(
                InjectedMouse {
                    dx: 0,
                    dy: 0,
                    wheel: wheel_data(value as i32),
                    flags: MOUSEEVENTF_HWHEEL,
                },
            ),
            MouseEvent::Scroll { x, y } => {
                if y != 0 {
                    Some(
                        InjectedMouse { dx: 0, dy: 0, wheel: wheel_data(y), flags: MOUSEEVENTF_WHEEL },
                    )
                } else {
                    Some(
                        InjectedMouse {
                            dx: 0,
                            dy: 0,
                            wheel: wheel_data(x),
                            flags: MOUSEEVENTF_HWHEEL,
                        },
                    )
                }
            },
        }
    }
}

/// The first pixel of an axis is the start of Windows' scale, the last its end, and
/// a pixel behind another is not before it there.
pub proof fn law_absolute_positions_span_the_screen(length: u16, near: u16, far: u16)
    requires
        length >= 2,
        near <= far,
    ensures
        absolute_axis(0, length) == 0,
        absolute_axis((length - 1) as u16, length) == 65535,
        0 <= absolute_axis(near, length) <= absolute_axis(far, length) <= 65535,
{
    let last: int = length - 1;
    let a: int = if near > last {
        last
    } else {
        near as int
    };
    let b: int = if far > last {
        last
    } else {
        far as int
    };
    assert(last * 65535 / last == 65535 && 0 <= a * 65535 / last <= b * 65535 / last <= 65535)
        by (nonlinear_arith)
        requires
            last >= 1,
            0 <= a <= b <= last,
    ;
}

/// A display mode as Windows lists it.
#[derive(Debug, Clone, Copy, PartialEq, Eq, Structural)]
pub struct DisplayMode {
    pub width: u32,
    pub height: u32,
}

/// Why a display size cannot be set or listed.
#[derive(Debug, Clone, Copy, PartialEq, Eq, Structural)]
pub enum DisplayModeError {
    /// No mode of the display can be used.
    NoModes,
    /// The current mode is wider than a client can be told.
    CurrentTooWide,
    /// The current mode is taller than a client can be told.
    CurrentTooTall,
    /// The display has no mode with as few pixels as this size.
    NoneSmallEnough(DesktopSize),
}

impl DisplayMode {
    /// Whether the mode's width and height can be told to a client.
    pub open spec fn fits(self) -> bool {
        self.width <= u16::MAX && self.height <= u16::MAX
    }

    /// The size of the mode.
    pub open spec fn as_size(self) -> DesktopSize {
        DesktopSize { width: self.width as u16, height: self.height as u16 }
    }

    /// Whether the mode is offered: it can be told, and neither side is below 200.
    pub open spec fn usable(self) -> bool {
        self.fits() && self.width >= 200 && self.height >= 200
    }
}

/// The sizes of the usable modes, each where it comes first.
pub open spec fn usable_sizes(modes: Seq<DisplayMode>) -> Seq<DesktopSize>
    decreases modes.len(),
{
    if modes.len() == 0 {
        Seq::empty()
    } else {
        let earlier = usable_sizes(modes.drop_last());
        let last = modes.last();
        if last.usable() && !earlier.contains(last.as_size()) {
            earlier.push(last.as_size())
        } else {
            earlier
        }
    }
}

/// The sizes that a display can take, in the order of its modes.
pub fn supported_primary_display_sizes(modes: &Vec<DisplayMode>) -> (result: Result<
    Vec<DesktopSize>,
    DisplayModeError,
>)
    ensures
        if usable_sizes(modes@).len() == 0 {
            result matches Err(error) && error == DisplayModeError::NoModes
        } else {
            result matches Ok(sizes) && sizes@ == usable_sizes(modes@)
        },
{
    let mut sizes: Vec<DesktopSize> = Vec::new();
    let mut k: usize = 0;
    assert(modes@.take(0) =~= Seq::<DisplayMode>::empty());
    while k < modes.len()
        invariant
            k <= modes.len(),
            sizes@ == usable_sizes(modes@.take(k as int)),
        decreases modes.len() - k,
    {
        let mode = modes[k];
        proof {
            let next = modes@.take(k + 1);
            assert(next.drop_last() =~= modes@.take(k as int));
            assert(next.last() == mode);
        }
        if mode.width <= 0xffff && mode.height <= 0xffff && mode.width >= 200 && mode.height
            >= 200 {
            let size = DesktopSize { width: mode.width as u16, height: mode.height as u16 };
            if !lists(&sizes, size) {
                sizes.push(size);
            }
        }
        k += 1;
    }
    assert(modes@.take(modes@.len() as int) =~= modes@);
    if sizes.len() == 0 {
        return Err(DisplayModeError::NoModes);
    }
    Ok(sizes)
}

/// What is wrong with the current mode, if anything.
pub open spec fn current_error(current: DisplayMode) -> Option<DisplayModeError> {
    if current.width > u16::MAX {
        Some(DisplayModeError::CurrentTooWide)
    } else if current.height > u16::MAX {
        Some(DisplayModeError::CurrentTooTall)
    } else {
        None
    }
}

/// The size of the current mode.
fn current_size(current: DisplayMode) -> (result: Result<DesktopSize, DisplayModeError>)
    ensures
        match current_error(current) {
            Some(expected) => result matches Err(error) && error == expected,
            None => result matches Ok(size) && size == current.as_size(),
        },
{
    if current.width > 0xffff {
        return Err(DisplayModeError::CurrentTooWide);
    }
    if current.height > 0xffff {
        return Err(DisplayModeError::CurrentTooTall);
    }
    Ok(DesktopSize { width: current.width as u16, height: current.height as u16 })
}

/// The sizes that a display can be given: the one it has, and those of its usable
/// modes.
pub open spec fn candidate_sizes(current: DisplayMode, modes: Seq<DisplayMode>) -> Seq<
    DesktopSize,
> {
    seq![current.as_size()] + usable_sizes(modes)
}

/// How far the proportions of a size are from those of the wanted one: the difference of
/// their ratios of width to height, times both heights. A missing side counts as one.
pub open spec fn proportion_error(size: DesktopSize, wanted: DesktopSize) -> int {
    let error = crate::frame::side(size.width) * crate::frame::side(wanted.height)
        - crate::frame::side(wanted.width) * crate::frame::side(size.height);
    if error < 0 {
        -error
    } else {
        error
    }
}

/// How far the sides of a size are from those of the wanted one, together.
pub open spec fn side_error(size: DesktopSize, wanted: DesktopSize) -> int {
    let across = size.width - wanted.width;
    let down = size.height - wanted.height;
    (if across < 0 {
        -across
    } else {
        across
    }) + (if down < 0 {
        -down
    } else {
        down
    })
}

/// Whether a size is closer to the wanted one than another: its proportions are, or
/// they are as close and its sides are closer.
pub open spec fn closer(a: DesktopSize, b: DesktopSize, wanted: DesktopSize) -> bool {
    let first = proportion_error(a, wanted) * crate::frame::side(b.height);
    let second = proportion_error(b, wanted) * crate::frame::side(a.height);
    first < second || (first == second && side_error(a, wanted) < side_error(b, wanted))
}

/// The closest of the sizes that have no more pixels than the wanted one, the first of
/// those that are equally close.
pub open spec fn closest(sizes: Seq<DesktopSize>, wanted: DesktopSize) -> Option<DesktopSize>
    decreases sizes.len(),
{
    if sizes.len() == 0 {
        None
    } else {
        let last = sizes.last();
        match closest(sizes.drop_last(), wanted) {
            Some(best) => if last.pixels() <= wanted.pixels() && closer(last, best, wanted) {
                Some(last)
            } else {
                Some(best)
            },
            None => if last.pixels() <= wanted.pixels() {
                Some(last)
            } else {
                None
            },
        }
    }
}

/// What becomes of a wish to match a size: the change to the closest size that the
/// display can be given, none where it has that size already, or why there is none.
pub open spec fn display_change(
    current: DisplayMode,
    modes: Seq<DisplayMode>,
    size: DesktopSize,
) -> Result<Option<DesktopSize>, DisplayModeError> {
    if usable_sizes(modes).len() == 0 {
        Err(DisplayModeError::NoModes)
    } else if current_error(current) is Some {
        Err(current_error(current)->Some_0)
    } else {
        match closest(candidate_sizes(current, modes), size) {
            None => Err(DisplayModeError::NoneSmallEnough(size)),
            Some(chosen) => if chosen == current.as_size() {
                Ok(None)
            } else {
                Ok(Some(chosen))
            },
        }
    }
}

/// The size that a display has after a wish was met.
pub open spec fn size_after(current: DisplayMode, change: Option<DesktopSize>) -> DesktopSize {
    match change {
        Some(chosen) => chosen,
        None => current.as_size(),
    }
}

fn side_of(length: u16) -> (positive: i64)
    ensures
        positive == crate::frame::side(length),
        1 <= positive <= 0xffff,
{
    if length == 0 {
        1
    } else {
        length as i64
    }
}

fn gap(a: u16, b: u16) -> (distance: i64)
    ensures
        distance == if a >= b {
            a - b
        } else {
            b - a
        },
{
    if a >= b {
        (a - b) as i64
    } else {
        (b - a) as i64
    }
}

fn error_of(size: DesktopSize, wanted: DesktopSize) -> (error: i64)
    ensures
        error == proportion_error(size, wanted),
        0 <= error <= 0xffff * 0xffff,
{
    let (w, h) = (side_of(size.width), side_of(size.height));
    let (x, y) = (side_of(wanted.width), side_of(wanted.height));
    assert(1 <= w * y <= 0xffff * 0xffff && 1 <= x * h <= 0xffff * 0xffff) by (nonlinear_arith)
        requires
            1 <= w <= 0xffff,
            1 <= h <= 0xffff,
            1 <= x <= 0xffff,
            1 <= y <= 0xffff,
    ;
    let error: i64 = w * y - x * h;
    if error < 0 {
        -error
    } else {
        error
    }
}

/// Whether a size is closer to the wanted one than another.
fn is_closer(a: DesktopSize, b: DesktopSize, wanted: DesktopSize) -> (nearer: bool)
    ensures
        nearer == closer(a, b, wanted),
{
    let (p, q) = (error_of(a, wanted), error_of(b, wanted));
    let (g, h) = (side_of(a.height), side_of(b.height));
    assert(0 <= p * h <= 0xffff * 0xffff * 0xffff && 0 <= q * g <= 0xffff * 0xffff * 0xffff)
        by (nonlinear_arith)
        requires
            0 <= p <= 0xffff * 0xffff,
            0 <= q <= 0xffff * 0xffff,
            1 <= g <= 0xffff,
            1 <= h <= 0xffff,
    ;
    let first: i64 = p * h;
    let second: i64 = q * g;
    first < second || (first == second && gap(a.width, wanted.width) + gap(a.height, wanted.height)
        < gap(b.width, wanted.width) + gap(b.height, wanted.height))
}

/// Whether a size has no more pixels than another.
fn within_pixels(size: DesktopSize, wanted: DesktopSize) -> (within: bool)
    ensures
        within == (size.pixels() <= wanted.pixels()),
{
    assert(0 <= size.width * size.height <= 0xffff * 0xffff && 0 <= wanted.width * wanted.height
        <= 0xffff * 0xffff) by (nonlinear_arith)
        requires
            size.width <= 0xffff,
            size.height <= 0xffff,
            wanted.width <= 0xffff,
            wanted.height <= 0xffff,
    ;
    size.width as u64 * size.height as u64 <= wanted.width as u64 * wanted.height as u64
}

/// Decides what becomes of a wish to match a size: the display takes the closest size
/// of its own with no more pixels, so that a client never shrinks a larger desktop.
pub fn set_primary_display_size(
    current: DisplayMode,
    modes: &Vec<DisplayMode>,
    size: DesktopSize,
) -> (result: Result<Option<DesktopSize>, DisplayModeError>)
    ensures
        result == display_change(current, modes@, size),
        result matches Ok(change) ==> {
            let chosen = size_after(current, change);
            &&& candidate_sizes(current, modes@).contains(chosen)
            &&& chosen.pixels() <= size.pixels()
            &&& forall|other: DesktopSize| #[trigger]
                candidate_sizes(current, modes@).contains(other) && other.pixels() <= size.pixels()
                    ==> !closer(other, chosen, size)
            &&& candidate_sizes(current, modes@).contains(size) ==> chosen == size
        },
{
    proof {
        law_display_takes_the_closest_size(current, modes@, size);
    }
    let supported = match supported_primary_display_sizes(modes) {
        Ok(supported) => supported,
        Err(error) => {
            return Err(error);
        },
    };
    let current = match current_size(current) {
        Ok(current) => current,
        Err(error) => {
            return Err(error);
        },
    };
    let ghost all = seq![current] + supported@;
    let mut best: Option<DesktopSize> = if within_pixels(current, size) {
        Some(current)
    } else {
        None
    };
    let mut k: usize = 0;
    proof {
        reveal_with_fuel(closest, 2);
        assert(all.take(1) =~= seq![current]);
        assert(all.take(1).drop_last() =~= Seq::<DesktopSize>::empty());
    }
    while k < supported.len()
        invariant
            k <= supported.len(),
            all == seq![current] + supported@,
            best == closest(all.take(k + 1), size),
        decreases supported.len() - k,
    {
        let next = supported[k];
        proof {
            let longer = all.take(k + 2);
            assert(longer.drop_last() =~= all.take(k + 1));
            assert(longer.last() == next);
        }
        if within_pixels(next, size) {
            best = match best {
                Some(chosen) => if is_closer(next, chosen, size) {
                    Some(next)
                } else {
                    Some(chosen)
                },
                None => Some(next),
            };
        }
        k += 1;
    }
    assert(all.take(k + 1) =~= all);
    match best {
        None => Err(DisplayModeError::NoneSmallEnough(size)),
        Some(chosen) => if chosen == current {
            Ok(None)
        } else {
            Ok(Some(chosen))
        },
    }
}

/// The current size of the display and the sizes that it can take, the current one
/// among them, in order and each once.
pub fn primary_display_capabilities(current: DisplayMode, modes: &Vec<DisplayMode>) -> (result:
    Result<(DesktopSize, Vec<DesktopSize>), DisplayModeError>)
    ensures
        if current_error(current) is Some {
            result matches Err(error) && Some(error) == current_error(current)
        } else if usable_sizes(modes@).len() == 0 {
            result matches Err(error) && error == DisplayModeError::NoModes
        } else {
            result matches Ok((size, sizes)) && size == current.as_size()
                && crate::display::in_order(sizes@) && forall|other: DesktopSize| #[trigger]
                sizes@.contains(other) <==> usable_sizes(modes@).contains(other) || other == size
        },
{
    let size = match current_size(current) {
        Ok(size) => size,
        Err(error) => {
            return Err(error);
        },
    };
    let supported = match supported_primary_display_sizes(modes) {
        Ok(supported) => supported,
        Err(error) => {
            return Err(error);
        },
    };
    let mut sizes: Vec<DesktopSize> = Vec::new();
    insert_size(&mut sizes, size);
    let mut k: usize = 0;
    while k < supported.len()
        invariant
            k <= supported.len(),
            crate::display::in_order(sizes@),
            forall|other: DesktopSize| #[trigger]
                sizes@.contains(other) <==> supported@.take(k as int).contains(other) || other
                    == size,
        decreases supported.len() - k,
    {
        let ghost earlier = supported@.take(k as int);
        insert_size(&mut sizes, supported[k]);
        proof {
            let next = supported@.take(k + 1);
            assert(next =~= earlier.push(supported@[k as int]));
            assert forall|other: DesktopSize| #[trigger] sizes@.contains(other) <==> next.contains(
                other,
            ) || other == size by {
                if earlier.contains(other) {
                    let i = choose|i: int| 0 <= i < earlier.len() && earlier[i] == other;
                    assert(next[i] == other);
                }
                assert(next[k as int] == supported@[k as int]);
                if next.contains(other) && other != supported@[k as int] {
                    let i = choose|i: int| 0 <= i < next.len() && next[i] == other;
                    assert(earlier[i] == other);
                }
            }
        }
        k += 1;
    }
    assert(supported@.take(supported@.len() as int) =~= supported@);
    Ok((size, sizes))
}

/// What Windows is asked in order to check a local account: names and password in
/// UTF-16, each with a zero at its end.
#[derive(Debug, PartialEq, Eq)]
pub struct LogonRequest {
    pub domain: Vec<u16>,
    pub username: Vec<u16>,
    pub password: Vec<u16>,
}

/// Whether a text holds a zero, which would end it early.
pub open spec fn holds_zero(text: Seq<char>) -> bool {
    text.contains('\0')
}

/// Whether a text holds a zero.
fn has_zero(text: &str) -> (found: bool)
    ensures
        found == holds_zero(text@),
{
    let list = crate::text::characters(text);
    let mut k: usize = 0;
    while k < list.len()
        invariant
            k <= list.len(),
            list@ == text@,
            forall|i: int| 0 <= i < k ==> list@[i] != '\0',
        decreases list.len() - k,
    {
        if list[k] == '\0' {
            assert(text@[k as int] == '\0');
            return true;
        }
        k += 1;
    }
    false
}

/// The domain that is asked: the given one, or the machine's own.
pub open spec fn logon_domain(domain: Seq<char>) -> Seq<char> {
    if crate::text::trimmed(domain).len() == 0 {
        "."@
    } else {
        crate::text::trimmed(domain)
    }
}

/// What to ask Windows about an account; nothing where a zero in a name or in the
/// password would make it another one, and the account is then refused.
pub fn logon_request(domain: &str, username: &str, password: &str) -> (request: Option<
    LogonRequest,
>)
    ensures
        request is None <==> holds_zero(username@) || holds_zero(password@) || holds_zero(domain@),
        request matches Some(request) ==> {
            &&& request.domain@ == crate::wide::utf16(logon_domain(domain@)).push(0)
            &&& request.username@ == crate::wide::utf16(username@).push(0)
            &&& request.password@ == crate::wide::utf16(password@).push(0)
        },
{
    if has_zero(username) || has_zero(password) || has_zero(domain) {
        return None;
    }
    let trimmed = domain.trim();
    let domain = if trimmed.is_empty() {
        "."
    } else {
        trimmed
    };
    Some(
        LogonRequest { domain: wide(domain), username: wide(username), password: wide(password) },
    )
}

/// Windows is asked about exactly the account and the password that were given.
pub proof fn law_logon_asks_for_the_given_account(username: Seq<char>, password: Seq<char>)
    requires
        !holds_zero(username),
        !holds_zero(password),
    ensures
        crate::wide::from_utf16(
            crate::wide::before_zero(crate::wide::utf16(username).push(0)),
        ) == username,
        crate::wide::from_utf16(
            crate::wide::before_zero(crate::wide::utf16(password).push(0)),
        ) == password,
{
    assert forall|i: int| 0 <= i < username.len() implies #[trigger] username[i] != '\0' by {
        assert(username.contains(username[i]));
    }
    assert forall|i: int| 0 <= i < password.len() implies #[trigger] password[i] != '\0' by {
        assert(password.contains(password[i]));
    }
    crate::wide::law_wide_text_is_read_back(username);
    crate::wide::law_wide_text_is_read_back(password);
}

/// Products of two fractions' parts compare as the fractions do, one behind the other.
proof fn lemma_fractions_in_a_row(p: int, g: int, q: int, h: int, r: int, k: int)
    requires
        0 <= p && 0 <= q && 0 <= r,
        1 <= g && 1 <= h && 1 <= k,
        p * h <= q * g,
        q * k <= r * h,
    ensures
        p * k <= r * g,
        p * h < q * g || q * k < r * h ==> p * k < r * g,
{
    assert((p * h) * k <= (q * g) * k && (q * k) * g <= (r * h) * g) by (nonlinear_arith)
        requires
            p * h <= q * g,
            q * k <= r * h,
            1 <= g,
            1 <= k,
    ;
    assert((p * h) * k == (p * k) * h && (q * g) * k == (q * k) * g && (r * h) * g == (r * g) * h)
        by (nonlinear_arith);
    let x = p * k;
    let y = r * g;
    assert(x <= y) by (nonlinear_arith)
        requires
            x * h <= y * h,
            1 <= h,
    ;
    if p * h < q * g || q * k < r * h {
        if p * h < q * g {
            assert((p * h) * k < (q * g) * k) by (nonlinear_arith)
                requires
                    p * h < q * g,
                    1 <= k,
            ;
        } else {
            assert((q * k) * g < (r * h) * g) by (nonlinear_arith)
                requires
                    q * k < r * h,
                    1 <= g,
            ;
        }
        assert(x < y) by (nonlinear_arith)
            requires
                x * h < y * h,
                1 <= h,
        ;
    }
}

/// A size that is closer than one that is closer is closer.
proof fn lemma_closer_in_a_row(a: DesktopSize, b: DesktopSize, c: DesktopSize, wanted: DesktopSize)
    requires
        closer(a, b, wanted),
        closer(b, c, wanted),
    ensures
        closer(a, c, wanted),
{
    let (p, q, r) = (
        proportion_error(a, wanted),
        proportion_error(b, wanted),
        proportion_error(c, wanted),
    );
    let g = crate::frame::side(a.height);
    let h = crate::frame::side(b.height);
    let k = crate::frame::side(c.height);
    lemma_fractions_in_a_row(p, g, q, h, r, k);
    if p * h == q * g && q * k == r * h {
        lemma_fractions_in_a_row(r, k, q, h, p, g);
    }
}

/// The closest size is one of the sizes, has few enough pixels, and no other such size
/// is closer; there is one where any size has few enough pixels.
proof fn lemma_closest(sizes: Seq<DesktopSize>, wanted: DesktopSize)
    ensures
        closest(sizes, wanted) is None ==> forall|i: int|
            0 <= i < sizes.len() ==> (#[trigger] sizes[i]).pixels() > wanted.pixels(),
        closest(sizes, wanted) matches Some(best) ==> {
            &&& sizes.contains(best)
            &&& best.pixels() <= wanted.pixels()
            &&& forall|i: int|
                0 <= i < sizes.len() && (#[trigger] sizes[i]).pixels() <= wanted.pixels()
                    ==> !closer(sizes[i], best, wanted)
        },
    decreases sizes.len(),
{
    if sizes.len() > 0 {
        let earlier = sizes.drop_last();
        let last = sizes.last();
        lemma_closest(earlier, wanted);
        assert forall|i: int| 0 <= i < earlier.len() implies #[trigger] sizes[i] == earlier[i] by {}
        if let Some(best) = closest(sizes, wanted) {
            if best == last {
                assert(sizes[sizes.len() - 1] == best);
            } else {
                let at = choose|at: int| 0 <= at < earlier.len() && earlier[at] == best;
                assert(sizes[at] == best);
            }
            assert forall|i: int|
                0 <= i < sizes.len() && (#[trigger] sizes[i]).pixels()
                    <= wanted.pixels() implies !closer(sizes[i], best, wanted) by {
                if i < earlier.len() {
                    assert(earlier[i] == sizes[i]);
                    if let Some(passed) = closest(earlier, wanted) {
                        if passed != best && closer(sizes[i], best, wanted) {
                            lemma_closer_in_a_row(sizes[i], best, passed, wanted);
                        }
                    }
                }
            }
        }
    }
}

/// A size is closer to itself than any other.
proof fn lemma_own_size_is_closest(other: DesktopSize, wanted: DesktopSize)
    requires
        other != wanted,
    ensures
        closer(wanted, other, wanted),
{
    let q = proportion_error(other, wanted);
    let h = crate::frame::side(other.height);
    let g = crate::frame::side(wanted.height);
    assert(0 * h == 0 && 0 <= q * g) by (nonlinear_arith)
        requires
            0 <= q,
            1 <= g,
    ;
}

/// A display that is to match a size takes the closest of its own sizes that has no
/// more pixels: its own size stays or one of its usable modes is set, none of the others
/// is closer, and the wanted size itself is taken where the display has it. It fails only
/// where no mode can be used, the current one cannot be told, or all are too large.
pub proof fn law_display_takes_the_closest_size(
    current: DisplayMode,
    modes: Seq<DisplayMode>,
    size: DesktopSize,
)
    ensures
        display_change(current, modes, size) matches Ok(change) ==> {
            let chosen = size_after(current, change);
            &&& candidate_sizes(current, modes).contains(chosen)
            &&& chosen.pixels() <= size.pixels()
            &&& forall|other: DesktopSize| #[trigger]
                candidate_sizes(current, modes).contains(other) && other.pixels() <= size.pixels()
                    ==> !closer(other, chosen, size)
            &&& candidate_sizes(current, modes).contains(size) ==> chosen == size
        },
        display_change(current, modes, size) is Err <==> {
            ||| usable_sizes(modes).len() == 0
            ||| !current.fits()
            ||| forall|other: DesktopSize| #[trigger]
                candidate_sizes(current, modes).contains(other) ==> other.pixels() > size.pixels()
        },
{
    let sizes = candidate_sizes(current, modes);
    lemma_closest(sizes, size);
    assert forall|other: DesktopSize| #[trigger] sizes.contains(other) implies exists|i: int|
        0 <= i < sizes.len() && #[trigger] sizes[i] == other by {}
    if let Some(chosen) = closest(sizes, size) {
        if sizes.contains(size) && chosen != size {
            lemma_own_size_is_closest(chosen, size);
        }
    }
}

/// A display is only ever set to a size that one of its modes has, so it never shows
/// a picture that its screen cannot.
pub proof fn law_only_own_modes_are_set(
    current: DisplayMode,
    modes: Seq<DisplayMode>,
    size: DesktopSize,
)
    ensures
        display_change(current, modes, size) matches Ok(Some(chosen)) ==> exists|i: int|
            0 <= i < modes.len() && (#[trigger] modes[i]).usable() && modes[i].as_size() == chosen,
{
    law_display_takes_the_closest_size(current, modes, size);
    if let Ok(Some(chosen)) = display_change(current, modes, size) {
        let sizes = candidate_sizes(current, modes);
        let at = choose|at: int| 0 <= at < sizes.len() && sizes[at] == chosen;
        assert(at > 0);
        assert(usable_sizes(modes)[at - 1] == chosen);
        lemma_usable_sizes_have_modes(modes, chosen);
    }
}

/// A listed size is the size of a usable mode.
proof fn lemma_usable_sizes_have_modes(modes: Seq<DisplayMode>, size: DesktopSize)
    requires
        usable_sizes(modes).contains(size),
    ensures
        exists|i: int|
            0 <= i < modes.len() && (#[trigger] modes[i]).usable() && modes[i].as_size() == size,
    decreases modes.len(),
{
    if modes.len() > 0 {
        let earlier = usable_sizes(modes.drop_last());
        let last = modes.last();
        if earlier.contains(size) {
            lemma_usable_sizes_have_modes(modes.drop_last(), size);
            let i = choose|i: int|
                0 <= i < modes.drop_last().len() && (#[trigger] modes.drop_last()[i]).usable()
                    && modes.drop_last()[i].as_size() == size;
            assert(modes[i] == modes.drop_last()[i]);
        } else {
            let at = choose|at: int|
                0 <= at < usable_sizes(modes).len() && usable_sizes(modes)[at] == size;
            if at < earlier.len() {
                assert(earlier[at] == size);
            }
            assert(modes[modes.len() - 1].usable());
        }
    }
}

/// Windows is told of a key by its scan code (flag 8), pressed or released (flag 2), and
/// extended or not (flag 1): a release differs from the press of the same key in the flag of
/// releases alone, and an extended key in the flag of extended keys alone.
pub proof fn law_keys_go_down_and_up(code: u8, extended: bool)
    ensures
        ({
            let pressed = WindowsInputInjector.key_for(KeyboardEvent::Pressed { code, extended });
            let released = WindowsInputInjector.key_for(
                KeyboardEvent::Released { code, extended },
            );
            &&& pressed matches Some(down) && released matches Some(up) && {
                &&& down.scan == code && up.scan == code
                &&& down.flags & 2 == 0 && up.flags & 2 == 2
                &&& up.flags == down.flags | 2
                &&& down.flags & 8 == 8 && down.flags & 4 == 0
                &&& (down.flags & 1 == 1) == extended && (up.flags & 1 == 1) == extended
                &&& down.flags == if extended { 9u32 } else { 8u32 }
            }
        }),
{
    assert(8u32 | 1 == 9 && 8u32 | 2 == 10 && 8u32 | 2 | 1 == 11) by (bit_vector);
    assert(8u32 & 2 == 0 && 9u32 & 2 == 0 && 10u32 & 2 == 2 && 11u32 & 2 == 2 && 9u32 | 2 == 11
        && 8u32 & 8 == 8 && 9u32 & 8 == 8 && 8u32 & 4 == 0 && 9u32 & 4 == 0 && 8u32 & 1 == 0
        && 9u32 & 1 == 1 && 10u32 & 1 == 0 && 11u32 & 1 == 1) by (bit_vector);
}

/// Windows is told of a character by its UTF-16 unit (flag 4), pressed or released (flag 2)
/// as a key is. The state of the lock keys is not told.
pub proof fn law_characters_go_down_and_up(unit: u16, event: KeyboardEvent)
    ensures
        ({
            let pressed = WindowsInputInjector.key_for(KeyboardEvent::UnicodePressed(unit));
            let released = WindowsInputInjector.key_for(KeyboardEvent::UnicodeReleased(unit));
            &&& pressed == Some(InjectedKey { scan: unit, flags: 4 })
            &&& released == Some(InjectedKey { scan: unit, flags: 6 })
        }),
        WindowsInputInjector.key_for(event) is None <==> event is Synchronize,
{
    assert(4u32 | 2 == 6) by (bit_vector);
}

/// A move is told as a place on Windows' scale (flags 1 and 0x8000), a movement by a distance
/// as that distance (flag 1). A button is told at the same place, or by the same distance,
/// with one flag more: 2, 8 or 0x20 for the left, right or middle one going down, and twice
/// that for going up. The side buttons are not told.
pub proof fn law_buttons_go_down_and_up(
    x: u16,
    y: u16,
    dx: i32,
    dy: i32,
    button: MouseButton,
    pressed: bool,
    desktop: DesktopSize,
)
    ensures
        ({
            let moved = WindowsInputInjector.pointer_for(MouseEvent::Move { x, y }, desktop);
            let pushed = WindowsInputInjector.pointer_for(MouseEvent::RelMove { x: dx, y: dy }, desktop);
            let at = WindowsInputInjector.pointer_for(
                MouseEvent::Button { x, y, button, pressed },
                desktop,
            );
            let by = WindowsInputInjector.pointer_for(
                MouseEvent::ButtonRel { x: dx, y: dy, button, pressed },
                desktop,
            );
            let down: u32 = match button {
                MouseButton::Left => 2,
                MouseButton::Right => 8,
                MouseButton::Middle => 0x20,
                _ => 0,
            };
            let flag: u32 = if pressed { down } else { (2 * down) as u32 };
            &&& moved matches Some(place) && {
                &&& place.dx == absolute_axis(x, desktop.width)
                &&& place.dy == absolute_axis(y, desktop.height)
                &&& place.wheel == 0 && place.flags == 0x8001
                &&& at == if down == 0 {
                    None
                } else {
                    Some(InjectedMouse { flags: 0x8001 | flag, ..place })
                }
            }
            &&& pushed == Some(InjectedMouse { dx, dy, wheel: 0, flags: 1 })
            &&& by == if down == 0 {
                None
            } else {
                Some(InjectedMouse { dx, dy, wheel: 0, flags: 1 | flag })
            }
        }),
{
    lemma_absolute_axis_bounds(x, desktop.width);
    lemma_absolute_axis_bounds(y, desktop.height);
    assert(1u32 | 0x8000 == 0x8001) by (bit_vector);
}

proof fn lemma_absolute_axis_bounds(at: u16, length: u16)
    ensures
        0 <= absolute_axis(at, length) <= 65535,
{
    let last: int = if length <= 2 { 1 } else { length - 1 };
    let inside: int = if at > last { last } else { at as int };
    assert(0 <= inside * 65535 / last <= 65535) by (nonlinear_arith)
        requires
            0 <= inside <= last,
            last >= 1,
    ;
}

/// A place on Windows' scale is in proportion to the pixel, rounded down.
pub proof fn law_absolute_positions_are_in_proportion(at: u16, length: u16)
    requires
        length >= 2,
        at < length,
    ensures
        absolute_axis(at, length) * (length - 1) <= at * 65535 < (absolute_axis(at, length) + 1) * (
        length - 1),
{
    let last: int = length - 1;
    let n: int = at * 65535;
    vstd::arithmetic::div_mod::lemma_fundamental_div_mod(n, last);
    vstd::arithmetic::div_mod::lemma_mod_bound(n, last);
    let q = n / last;
    assert(q * last <= n < (q + 1) * last) by (nonlinear_arith)
        requires
            n == last * q + n % last,
            0 <= n % last < last,
    ;
}

/// A wheel turns by 120 for each notch, in the direction of the notches: as the number
/// itself where it is positive, as the number below 2^32 where it is negative, and as far
/// as 31 bits reach. The upright wheel has flag 0x800, the other one 0x1000, and of a turn of
/// both the upright one counts where it turns at all. The pointer stays.
pub proof fn law_wheels_turn_by_notches(value: i16, x: i32, y: i32, desktop: DesktopSize)
    ensures
        ({
            let upright = WindowsInputInjector.pointer_for(
                MouseEvent::VerticalScroll { value },
                desktop,
            );
            let across = WindowsInputInjector.pointer_for(
                MouseEvent::HorizontalScroll { value },
                desktop,
            );
            let both = WindowsInputInjector.pointer_for(MouseEvent::Scroll { x, y }, desktop);
            let units: u32 = if value >= 0 {
                (value * 120) as u32
            } else {
                (0x1_0000_0000 + value * 120) as u32
            };
            &&& upright == Some(InjectedMouse { dx: 0, dy: 0, wheel: units, flags: 0x800 })
            &&& across == Some(InjectedMouse { dx: 0, dy: 0, wheel: units, flags: 0x1000 })
            &&& both == if y != 0 {
                Some(InjectedMouse { dx: 0, dy: 0, wheel: wheel_units(y), flags: 0x800 })
            } else {
                Some(InjectedMouse { dx: 0, dy: 0, wheel: wheel_units(x), flags: 0x1000 })
            }
        }),
        0 <= x * 120 <= 0x7fff_ffff ==> wheel_units(x) == x * 120,
        -0x8000_0000 <= x * 120 < 0 ==> wheel_units(x) == 0x1_0000_0000 + x * 120,
        x * 120 > 0x7fff_ffff ==> wheel_units(x) == 0x7fff_ffff,
        x * 120 < -0x8000_0000 ==> wheel_units(x) == 0x8000_0000,
{
}

/// A captured image is taken exactly if it has pixels and neither side is above 65535; its
/// size is its own, and too wide is told before too tall.
pub proof fn law_captured_images_keep_their_size(width: u32, height: u32)
    ensures
        captured_size(width, height) is Ok <==> 1 <= width <= 65535 && 1 <= height <= 65535,
        captured_size(width, height) matches Ok(size) ==> size.width == width && size.height
            == height,
        width > 65535 <==> captured_size(width, height) == Err::<DesktopSize, FrameSizeError>(
            FrameSizeError::TooWide,
        ),
        width <= 65535 && height > 65535 <==> captured_size(width, height) == Err::<
            DesktopSize,
            FrameSizeError,
        >(FrameSizeError::TooTall),
{
}

/// Between one and 120 frames are captured in a second, and as many as were asked for
/// within these bounds.
pub proof fn law_capture_rates_are_bounded(fps: u32)
    ensures
        1 <= clamped_fps(fps) <= 120,
        1 <= fps <= 120 ==> clamped_fps(fps) == fps,
        fps > 120 ==> clamped_fps(fps) == 120,
{
}

/// The sizes that a display is offered are those of its modes of 200 to 65535 pixels each
/// way, each once.
pub proof fn law_offered_sizes_are_the_modes(modes: Seq<DisplayMode>, k: int, i: int, j: int)
    requires
        0 <= k < modes.len(),
    ensures
        200 <= modes[k].width <= 65535 && 200 <= modes[k].height <= 65535 ==> usable_sizes(
            modes,
        ).contains(
            DesktopSize { width: modes[k].width as u16, height: modes[k].height as u16 },
        ),
        0 <= i < usable_sizes(modes).len() ==> usable_sizes(modes)[i].width >= 200 && usable_sizes(
            modes,
        )[i].height >= 200,
        0 <= i < j < usable_sizes(modes).len() ==> usable_sizes(modes)[i] != usable_sizes(modes)[j],
    decreases modes.len(),
{
    let front = modes.drop_last();
    let earlier = usable_sizes(front);
    let all = usable_sizes(modes);
    let last = modes.last();
    if front.len() > 0 {
        let before = if k < front.len() {
            k
        } else {
            0
        };
        law_offered_sizes_are_the_modes(front, before, i, j);
    }
    if last.usable() {
        if earlier.contains(last.as_size()) {
            assert(all.contains(last.as_size()));
        } else {
            assert(all[all.len() - 1] == last.as_size());
        }
    }
    if k < front.len() && modes[k].usable() {
        assert(front[k] == modes[k]);
        let at = choose|at: int| 0 <= at < earlier.len() && earlier[at] == modes[k].as_size();
        assert(all[at] == modes[k].as_size());
    }
    if 0 <= i < j < all.len() && j == earlier.len() {
        assert(earlier.contains(earlier[i]));
    }
}

/// Of two sizes the one is closer to the wanted one whose ratio of width to height differs
/// less from the wanted ratio, whatever their sides. Of two that differ equally it is the one
/// whose sides do, together; no size is closer than itself.
pub proof fn law_proportions_come_before_sides(a: DesktopSize, b: DesktopSize, wanted: DesktopSize)
    requires
        a.width > 0 && a.height > 0,
        b.width > 0 && b.height > 0,
        wanted.width > 0 && wanted.height > 0,
    ensures
        ({
            let first = a.width * wanted.height - wanted.width * a.height;
            let second = b.width * wanted.height - wanted.width * b.height;
            let here = (if first < 0 { -first } else { first }) * b.height;
            let there = (if second < 0 { -second } else { second }) * a.height;
            let across = a.width - wanted.width;
            let down = a.height - wanted.height;
            let across_other = b.width - wanted.width;
            let down_other = b.height - wanted.height;
            let near = (if across < 0 { -across } else { across }) + (if down < 0 {
                -down
            } else {
                down
            });
            let far = (if across_other < 0 { -across_other } else { across_other }) + (if down_other
                < 0 {
                -down_other
            } else {
                down_other
            });
            &&& here < there ==> closer(a, b, wanted) && !closer(b, a, wanted)
            &&& here == there ==> (closer(a, b, wanted) <==> near < far)
        }),
        !closer(a, a, wanted),
{
}

/// A blank domain is this machine's own, and every other one is asked without the white
/// space around it.
pub proof fn law_blank_domains_are_local(domain: Seq<char>)
    ensures
        crate::text::trimmed(domain).len() == 0 <==> logon_domain(domain) == "."@
            && crate::text::trimmed(domain) != "."@,
        crate::text::trimmed(domain).len() > 0 ==> logon_domain(domain) == crate::text::trimmed(
            domain,
        ),
        logon_domain(domain).len() > 0,
{
    reveal_strlit(".");
}

/// A frame and the pause behind it take the time of one frame at the rate, short of it by less
/// than a millisecond: at most a second for all frames of one. A frame that took longer is
/// followed by the next at once.
pub proof fn law_frames_keep_their_rate(rate: u32, elapsed: u64)
    requires
        1 <= rate <= 120,
    ensures
        ({
            let pause = pause_of(rate, elapsed);
            let whole = elapsed + pause;
            &&& pause >= 0
            &&& pause > 0 ==> rate * whole <= 1000000000 && rate * (whole + 1000000) > 1000000000
            &&& rate * elapsed > 1000000000 ==> pause == 0
            &&& rate * (elapsed + 1000000) <= 1000000000 ==> pause > 0
        }),
{
    let r = rate as int;
    let q = 1000int / r;
    let e = elapsed as int;
    assert(r * q <= 1000 && r * (q + 1) > 1000) by (nonlinear_arith)
        requires
            q == 1000int / r,
            1 <= r <= 120,
    ;
    let period = q * 1000000;
    assert(r * period == (r * q) * 1000000) by (nonlinear_arith)
        requires
            period == q * 1000000,
    ;
    assert(r * (period + 1000000) == (r * (q + 1)) * 1000000) by (nonlinear_arith)
        requires
            period == q * 1000000,
    ;
    if r * e > 1000000000 {
        assert(e > period) by (nonlinear_arith)
            requires
                r * e > 1000000000,
                r * period <= 1000000000,
                1 <= r,
        ;
    }
    if r * (e + 1000000) <= 1000000000 {
        assert(e < period) by (nonlinear_arith)
            requires
                r * (e + 1000000) <= 1000000000,
                r * (period + 1000000) > 1000000000,
                1 <= r,
        ;
    }
}

} // verus!
