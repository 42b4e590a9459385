//! Sizes and frames that the desktop backends hand to the rest of the host.

use vstd::prelude::*;

use crate::events::{KeyboardEvent, MouseEvent};

verus! {

/// The size of a desktop, in pixels.
#[derive(Debug, Clone, Copy, PartialEq, Eq, Structural)]
pub struct DesktopSize {
    pub width: u16,
    pub height: u16,
}

impl DesktopSize {
    /// The number of pixels of a desktop of this size.
    pub open spec fn pixels(self) -> nat {
        self.width as nat * self.height as nat
    }

    /// Whether both sides have at least one pixel.
    pub open spec fn nonempty(self) -> bool {
        self.width > 0 && self.height > 0
    }

    /// Whether the machine can address the bytes of a frame of this size.
    pub open spec fn addressable(self) -> bool {
        self.pixels() * 4 <= usize::MAX
    }

    /// Whether the machine can address the bytes of a frame of this size.
    pub fn is_addressable(self) -> (addressable: bool)
        ensures
            addressable == self.addressable(),
    {
        assert(0 <= self.width * self.height <= 0xffff * 0xffff) by (nonlinear_arith)
            requires
                self.width <= 0xffff,
                self.height <= 0xffff,
        ;
        self.width as u64 * self.height as u64 * 4 <= usize::MAX as u64
    }
}

/// A frame, as mathematical values.
#[verifier::ext_equal]
pub struct FrameModel {
    pub size: DesktopSize,
    pub rgba: Seq<u8>,
}

/// One captured desktop frame.
#[derive(Debug)]
pub struct CapturedFrame {
    pub width: u16,
    pub height: u16,
    /// RGBA pixels, one tightly packed row after another.
    pub rgba: Vec<u8>,
}

impl CapturedFrame {
    /// The size that the frame declares.
    pub open spec fn declared_size(self) -> DesktopSize {
        DesktopSize { width: self.width, height: self.height }
    }

    /// The size and the bytes of the frame.
    pub open spec fn model(self) -> FrameModel {
        FrameModel { size: self.declared_size(), rgba: self.rgba@ }
    }

    /// Whether the frame holds exactly four bytes for each of its pixels.
    pub open spec fn packed(self) -> bool {
        self.rgba@.len() == self.declared_size().pixels() * 4
    }

    /// The size that the frame declares.
    pub fn size(&self) -> (size: DesktopSize)
        ensures
            size == self.declared_size(),
    {
        DesktopSize { width: self.width, height: self.height }
    }
}

impl Clone for CapturedFrame {
    fn clone(&self) -> (copy: Self)
        ensures
            copy.width == self.width,
            copy.height == self.height,
            copy.rgba@ == self.rgba@,
    {
        let rgba = self.rgba.clone();
        assert(rgba@ =~= self.rgba@);
        CapturedFrame { width: self.width, height: self.height, rgba }
    }
}

/// A source of desktop frames.
pub trait DesktopCapture {
    /// The size of the frames that the source delivers at first.
    fn size(&self) -> (size: DesktopSize);
}

/// The capture source of a machine without a desktop backend.
pub struct UnsupportedCapture;

impl DesktopCapture for UnsupportedCapture {
    fn size(&self) -> (size: DesktopSize)
        ensures
            size == (DesktopSize { width: 1280, height: 720 }),
    {
        DesktopSize { width: 1280, height: 720 }
    }
}

/// A key as it is handed to the system: a scan code or a UTF-16 unit, and flags.
#[derive(Debug, Clone, Copy, PartialEq, Eq, Structural)]
pub struct InjectedKey {
    pub scan: u16,
    pub flags: u32,
}

/// A pointer event as it is handed to the system: where to, how far to turn the
/// wheel, and flags.
#[derive(Debug, Clone, Copy, PartialEq, Eq, Structural)]
pub struct InjectedMouse {
    pub dx: i32,
    pub dy: i32,
    pub wheel: u32,
    pub flags: u32,
}

/// What turns a client's input into input of the local desktop.
pub trait InputInjector {
    /// The key that an event presses or releases.
    spec fn key_for(&self, event: KeyboardEvent) -> Option<InjectedKey>;

    /// The pointer event of a desktop of this size.
    spec fn pointer_for(&self, event: MouseEvent, desktop: DesktopSize) -> Option<InjectedMouse>;

    fn keyboard(&self, event: &KeyboardEvent) -> (key: Option<InjectedKey>)
        ensures
            key == self.key_for(*event),
    ;

    fn mouse(&self, event: &MouseEvent, desktop: DesktopSize) -> (pointer: Option<InjectedMouse>)
        ensures
            pointer == self.pointer_for(*event, desktop),
    ;
}

/// The injector of a system that cannot be controlled: it does nothing.
pub struct UnsupportedInput;

impl InputInjector for UnsupportedInput {
    open spec fn key_for(&self, event: KeyboardEvent) -> Option<InjectedKey> {
        None
    }

    open spec fn pointer_for(&self, event: MouseEvent, desktop: DesktopSize) -> Option<
        InjectedMouse,
    > {
        None
    }

    fn keyboard(&self, event: &KeyboardEvent) -> (key: Option<InjectedKey>) {
        None
    }

    fn mouse(&self, event: &MouseEvent, desktop: DesktopSize) -> (pointer: Option<InjectedMouse>) {
        None
    }
}

} // verus!
