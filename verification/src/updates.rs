//! The stream of updates that one client gets.
//!
//! The stream decides what is sent next: a new canvas, the desktop, the access
//! screen in strips, the pointer, or nothing until something happens. The program
//! waits where the stream says so, and paints the access screen where it asks for
//! it.

use vstd::prelude::*;

use crate::access::{AccessGate, DesktopPresentation, GateModel};
use crate::bitmap::{
    default_arrow_pointer, to_bitmap_update, BitmapUpdate, RgbaPointer, StripSequence,
};
use crate::display::{DisplayModel, FrameHub, HubModel, RdpDisplay};
use crate::frame::{scale_frame, FrameError};
use crate::platform::{CapturedFrame, DesktopSize, FrameModel};
use crate::scene::{Scene, ShapeModel};
use crate::session::{SessionCoordinator, SessionModel};

verus! {

/// Something that is sent to a client.
#[derive(Debug)]
pub enum DisplayUpdate {
    /// The canvas gets another size.
    Resize(DesktopSize),
    /// Pixels of the canvas change.
    Bitmap(BitmapUpdate),
    /// The pointer gets a shape.
    Pointer(RgbaPointer),
    /// The pointer is at a place of the canvas.
    PointerPosition { x: u16, y: u16 },
}

/// What the stream does next.
#[derive(Debug)]
pub enum NextUpdate {
    /// It sends an update.
    Send(DisplayUpdate),
    /// It has nothing to send after all.
    Nothing,
    /// It needs the access screen, which is handed to `present_access`.
    PaintAccess,
    /// It waits for one of the events for which `resume` is called: for frames
    /// where the desktop is open, for the next repaint otherwise.
    Wait { desktop: bool },
}

/// Why the stream ends.
#[derive(Clone, Copy, Debug, PartialEq, Eq, Structural)]
pub enum DisplayError {
    /// A frame that is to be shown pixel by pixel has not the size of the canvas.
    NativeSizeMismatch,
    /// The desktop is open without a presentation.
    NoPresentation,
    /// A frame cannot be used.
    Frame(FrameError),
    /// No access screen is being sent.
    NoAccessScreen,
}

/// What a waiting stream is woken by.
#[derive(Clone, Copy, Debug, PartialEq, Eq, Structural)]
pub enum WakeEvent {
    ClientSize,
    Access,
    Pointer,
    Frame,
    HostSize,
    SupportedSizes,
    Availability,
    Refresh,
}

/// The state of a stream. Each `..._seen` is the revision that was seen last.
#[verifier::ext_equal]
pub struct StreamModel {
    pub client_size: DesktopSize,
    pub client_seen: u64,
    pub access_seen: u64,
    pub pointer_seen: u64,
    pub frame_seen: u64,
    pub size_seen: u64,
    pub supported_seen: u64,
    pub available_seen: u64,
    pub sent_initial: bool,
    pub pointer_shape_sent: bool,
    pub pointer_position_sent: bool,
    /// The access screen that is being sent.
    pub strips: Option<StripSequence>,
}

impl StreamModel {
    /// Whether an access screen that is being sent has rows left, and the machine
    /// can address the canvas.
    pub open spec fn valid(self) -> bool {
        &&& self.strips matches Some(strips) ==> strips.unfinished()
        &&& self.client_size.addressable()
    }

    /// The stream on a new canvas.
    pub open spec fn on_canvas(self, display: DisplayModel) -> StreamModel {
        StreamModel {
            client_size: display.client_size,
            client_seen: display.client_revision,
            strips: None,
            pointer_shape_sent: false,
            pointer_position_sent: false,
            ..self
        }
    }

    /// The stream after it has looked at the displays.
    pub open spec fn after_sync(self, hub: HubModel) -> StreamModel {
        StreamModel {
            size_seen: hub.size_revision,
            supported_seen: hub.supported_revision,
            available_seen: hub.available_revision,
            ..self
        }
    }

    /// The stream after it has looked at the pointer.
    pub open spec fn after_pointer(self, hub: HubModel) -> StreamModel {
        StreamModel { pointer_seen: hub.pointer_revision, ..self }
    }

    /// What has happened since the stream looked, the most urgent first. Frames count
    /// only where the desktop is open: the access screen shows none.
    pub open spec fn woken_by(
        self,
        display: DisplayModel,
        gate: GateModel,
        hub: HubModel,
        desktop: bool,
    ) -> Option<WakeEvent> {
        if display.client_revision != self.client_seen {
            Some(WakeEvent::ClientSize)
        } else if gate.revision != self.access_seen {
            Some(WakeEvent::Access)
        } else if hub.pointer_revision != self.pointer_seen {
            Some(WakeEvent::Pointer)
        } else if desktop && hub.frame_revision != self.frame_seen {
            Some(WakeEvent::Frame)
        } else if hub.size_revision != self.size_seen {
            Some(WakeEvent::HostSize)
        } else if hub.supported_revision != self.supported_seen {
            Some(WakeEvent::SupportedSizes)
        } else if hub.available_revision != self.available_seen {
            Some(WakeEvent::Availability)
        } else {
            None
        }
    }

    /// Where the pointer stands on the canvas.
    pub open spec fn pointer_on_canvas(self, hub: HubModel) -> Option<(u16, u16)> {
        match hub.pointer {
            Some((x, y)) => Some(
                (
                    last_within(x, self.client_size.width),
                    last_within(y, self.client_size.height),
                ),
            ),
            None => None,
        }
    }
}

/// A coordinate moved onto a side of the canvas.
pub open spec fn last_within(value: u16, length: u16) -> u16 {
    if length == 0 {
        0
    } else if value < length {
        value
    } else {
        (length - 1) as u16
    }
}

/// Whether a step sends a frame as it is.
pub open spec fn sends_frame(frame: FrameModel, step: Result<NextUpdate, DisplayError>) -> bool {
    if frame.size.width == 0 {
        step matches Err(error) && error == DisplayError::Frame(FrameError::ZeroWidth)
    } else if frame.size.height == 0 {
        step matches Err(error) && error == DisplayError::Frame(FrameError::ZeroHeight)
    } else if frame.rgba.len() != frame.size.pixels() * 4 {
        step matches Err(error) && error == DisplayError::Frame(FrameError::WrongLength)
    } else {
        step matches Ok(NextUpdate::Send(DisplayUpdate::Bitmap(bitmap))) && bitmap.covers(
            frame.size,
            frame.rgba,
        )
    }
}

/// Whether a step shows the desktop on a canvas.
pub open spec fn shows_desktop(
    frame: FrameModel,
    client: DesktopSize,
    presentation: Option<DesktopPresentation>,
    step: Result<NextUpdate, DisplayError>,
) -> bool {
    match presentation {
        Some(DesktopPresentation::Native) => if frame.size == client {
            sends_frame(frame, step)
        } else {
            step matches Err(error) && error == DisplayError::NativeSizeMismatch
        },
        Some(DesktopPresentation::Scale) => if frame.size == client {
            sends_frame(frame, step)
        } else if client.width == 0 {
            step matches Err(error) && error == DisplayError::Frame(FrameError::ZeroWidth)
        } else if client.height == 0 {
            step matches Err(error) && error == DisplayError::Frame(FrameError::ZeroHeight)
        } else if frame.rgba.len() < frame.size.pixels() * 4 {
            step matches Err(error) && error == DisplayError::Frame(FrameError::TooShort)
        } else {
            step matches Ok(NextUpdate::Send(DisplayUpdate::Bitmap(bitmap))) && bitmap.covers(
                client,
                bitmap.data@,
            ) && crate::frame::is_scaled(frame, client, bitmap.data@)
        },
        None => step matches Err(error) && error == DisplayError::NoPresentation,
    }
}

/// Whether a step shows the screen of the moment: the desktop where the barrier is
/// open, the access screen otherwise.
pub open spec fn shows_current(
    before: StreamModel,
    gate: GateModel,
    hub: HubModel,
    after: StreamModel,
    step: Result<NextUpdate, DisplayError>,
) -> bool {
    let snapshot = gate.state.snapshot();
    if snapshot.desktop_ready() {
        &&& after == (StreamModel { strips: None, frame_seen: hub.frame_revision, ..before })
        &&& shows_desktop(hub.frame, before.client_size, snapshot.presentation, step)
    } else {
        &&& after == (StreamModel { strips: None, ..before })
        &&& step matches Ok(NextUpdate::PaintAccess)
    }
}

/// Whether a step sends the next strip of the access screen.
pub open spec fn sends_strip(
    before: StreamModel,
    after: StreamModel,
    update: DisplayUpdate,
) -> bool {
    let strips = before.strips->0;
    let whole = strips.whole();
    let row = strips.position() as int;
    let rows = crate::bitmap::rows_at(whole.height as int, row);
    &&& after == (StreamModel { strips: after.strips, ..before })
    &&& after.strips is None <==> row + rows == whole.height
    &&& after.strips matches Some(rest) ==> rest.whole() == whole && rest.position() == row + rows
    &&& update matches DisplayUpdate::Bitmap(strip) && {
        &&& strip.complete()
        &&& strip.x == whole.x && strip.y == whole.y + row
        &&& strip.width == whole.width && strip.height == rows
        &&& strip.data@ == whole.data@.subrange(row * whole.stride, (row + rows) * whole.stride)
    }
}

/// Whether a step tells where the pointer is.
pub open spec fn sends_pointer(
    position: Option<(u16, u16)>,
    step: Result<NextUpdate, DisplayError>,
) -> bool {
    match position {
        Some((x, y)) => step matches Ok(NextUpdate::Send(DisplayUpdate::PointerPosition { x: px, y: py }))
            && px == x && py == y,
        None => step matches Ok(NextUpdate::Nothing),
    }
}

/// Whether a step sends the shape of the pointer.
pub open spec fn sends_arrow(step: Result<NextUpdate, DisplayError>) -> bool {
    step matches Ok(NextUpdate::Send(DisplayUpdate::Pointer(pointer))) && {
        &&& pointer.width == 24 && pointer.height == 24
        &&& pointer.cache_index == 0 && pointer.hot_x == 1 && pointer.hot_y == 1
        &&& pointer.data@ == Seq::new(2304, |i: int| crate::bitmap::arrow_byte(i))
    }
}

/// What the stream does next after it has looked at the displays, where `gate` has
/// been told of them.
pub open spec fn next_in_order(
    before: StreamModel,
    gate: GateModel,
    hub: HubModel,
    after: StreamModel,
    step: Result<NextUpdate, DisplayError>,
) -> bool {
    if !before.sent_initial || gate.revision != before.access_seen {
        shows_current(
            StreamModel { sent_initial: true, access_seen: gate.revision, ..before },
            gate,
            hub,
            after,
            step,
        )
    } else if !before.pointer_shape_sent {
        after == (StreamModel { pointer_shape_sent: true, ..before }) && sends_arrow(step)
    } else if before.pointer_position_sent && hub.pointer_revision != before.pointer_seen {
        after == before.after_pointer(hub) && sends_pointer(before.pointer_on_canvas(hub), step)
    } else {
        let placed = if before.pointer_position_sent {
            before
        } else {
            StreamModel { pointer_position_sent: true, ..before.after_pointer(hub) }
        };
        if !before.pointer_position_sent && hub.pointer is Some {
            after == placed && sends_pointer(before.pointer_on_canvas(hub), step)
        } else if before.strips is Some {
            step matches Ok(NextUpdate::Send(update)) && sends_strip(placed, after, update)
        } else {
            after == placed && (step matches Ok(NextUpdate::Wait { desktop }) && desktop
                == gate.published.desktop_ready())
        }
    }
}

/// What `next_update` does: a new canvas comes first; then the barrier, which stands
/// after the step as the second part, has been told of the displays.
pub open spec fn decides(
    before: (StreamModel, GateModel),
    display: DisplayModel,
    hub: HubModel,
    sessions: SessionModel,
    after: (StreamModel, GateModel),
    step: Result<NextUpdate, DisplayError>,
) -> bool {
    if display.client_revision != before.0.client_seen {
        &&& after.0 == before.0.on_canvas(display)
        &&& after.1 == before.1
        &&& step matches Ok(NextUpdate::Send(DisplayUpdate::Resize(size))) && size
            == display.client_size
    } else {
        &&& after.1 == crate::display::synced(before.1, before.0.client_size, hub, sessions)
        &&& next_in_order(before.0.after_sync(hub), after.1, hub, after.0, step)
    }
}

/// What `resume` does after a wait.
pub open spec fn resumes(
    event: WakeEvent,
    before: (StreamModel, GateModel),
    display: DisplayModel,
    hub: HubModel,
    sessions: SessionModel,
    after: (StreamModel, GateModel),
    step: Result<NextUpdate, DisplayError>,
) -> bool {
    match event {
        WakeEvent::ClientSize => {
            &&& after.0 == before.0.on_canvas(display)
            &&& after.1 == before.1
            &&& step matches Ok(NextUpdate::Send(DisplayUpdate::Resize(size))) && size
                == display.client_size
        },
        WakeEvent::Access => {
            &&& after.1 == before.1
            &&& shows_current(
                StreamModel { access_seen: before.1.revision, ..before.0 },
                before.1,
                hub,
                after.0,
                step,
            )
        },
        WakeEvent::Pointer => {
            &&& after.1 == before.1
            &&& after.0 == before.0.after_pointer(hub)
            &&& sends_pointer(before.0.pointer_on_canvas(hub), step)
        },
        WakeEvent::Frame => {
            &&& after.1 == before.1
            &&& shows_current(
                StreamModel { frame_seen: hub.frame_revision, ..before.0 },
                before.1,
                hub,
                after.0,
                step,
            )
        },
        _ => {
            &&& after.1 == crate::display::synced(before.1, before.0.client_size, hub, sessions)
            &&& shows_current(before.0.after_sync(hub), after.1, hub, after.0, step)
        },
    }
}

/// The stream of updates of one client.
pub struct RdpDisplayUpdates {
    client_size: DesktopSize,
    client_seen: u64,
    access_seen: u64,
    pointer_seen: u64,
    frame_seen: u64,
    size_seen: u64,
    supported_seen: u64,
    available_seen: u64,
    sent_initial: bool,
    pointer_shape_sent: bool,
    pointer_position_sent: bool,
    strips: Option<StripSequence>,
}

impl View for RdpDisplayUpdates {
    type V = StreamModel;

    closed spec fn view(&self) -> StreamModel {
        StreamModel {
            client_size: self.client_size,
            client_seen: self.client_seen,
            access_seen: self.access_seen,
            pointer_seen: self.pointer_seen,
            frame_seen: self.frame_seen,
            size_seen: self.size_seen,
            supported_seen: self.supported_seen,
            available_seen: self.available_seen,
            sent_initial: self.sent_initial,
            pointer_shape_sent: self.pointer_shape_sent,
            pointer_position_sent: self.pointer_position_sent,
            strips: self.strips,
        }
    }
}

impl RdpDisplayUpdates {
    fn client_resize_update(&mut self, display: &RdpDisplay) -> (update: DisplayUpdate)
        ensures
            final(self)@ == old(self)@.on_canvas(display@),
            update matches DisplayUpdate::Resize(size) && size == display@.client_size,
    {
        self.client_size = display.size();
        self.client_seen = display.revision();
        self.strips = None;
        self.pointer_shape_sent = false;
        self.pointer_position_sent = false;
        DisplayUpdate::Resize(self.client_size)
    }

    fn pointer_position_update(&mut self, hub: &FrameHub) -> (update: Option<DisplayUpdate>)
        ensures
            final(self)@ == old(self)@.after_pointer(hub@),
            match old(self)@.pointer_on_canvas(hub@) {
                Some((x, y)) => update matches Some(DisplayUpdate::PointerPosition { x: px, y: py })
                    && px == x && py == y,
                None => update is None,
            },
    {
        self.pointer_seen = hub.pointer_revision();
        match hub.pointer_position() {
            Some((x, y)) => Some(
                DisplayUpdate::PointerPosition {
                    x: clip(x, self.client_size.width),
                    y: clip(y, self.client_size.height),
                },
            ),
            None => None,
        }
    }

    fn sync_display_state(
        &mut self,
        gate: &mut AccessGate,
        hub: &FrameHub,
        sessions: &SessionCoordinator,
    )
        ensures
            final(self)@ == old(self)@.after_sync(hub@),
            final(gate)@ == crate::display::synced(
                old(gate)@,
                old(self)@.client_size,
                hub@,
                sessions@,
            ),
    {
        self.size_seen = hub.size_revision();
        self.supported_seen = hub.supported_revision();
        self.available_seen = hub.available_revision();
        gate.set_display_state(self.client_size, hub.size(), hub.is_available(), sessions);
    }

    fn current_update(&mut self, gate: &AccessGate, hub: &FrameHub) -> (step: Result<
        NextUpdate,
        DisplayError,
    >)
        requires
            old(self)@.client_size.addressable(),
            hub@.frame.size.addressable(),
        ensures
            shows_current(old(self)@, gate@, hub@, final(self)@, step),
    {
        self.strips = None;
        let snapshot = gate.snapshot();
        if !snapshot.is_desktop_ready() {
            return Ok(NextUpdate::PaintAccess);
        }
        self.frame_seen = hub.frame_revision();
        let frame = hub.frame();
        let bitmap = match snapshot.presentation() {
            Some(DesktopPresentation::Native) => {
                if frame.size() != self.client_size {
                    return Err(DisplayError::NativeSizeMismatch);
                }
                to_bitmap_update(frame)
            },
            Some(DesktopPresentation::Scale) => {
                if frame.size() != self.client_size && self.client_size.width == 0 {
                    Err(FrameError::ZeroWidth)
                } else if frame.size() != self.client_size && self.client_size.height == 0 {
                    Err(FrameError::ZeroHeight)
                } else {
                    match scale_frame(frame, self.client_size) {
                        Ok(scaled) => to_bitmap_update(&scaled),
                        Err(error) => Err(error),
                    }
                }
            },
            None => {
                return Err(DisplayError::NoPresentation);
            },
        };
        match bitmap {
            Ok(bitmap) => Ok(NextUpdate::Send(DisplayUpdate::Bitmap(bitmap))),
            Err(error) => Err(DisplayError::Frame(error)),
        }
    }
}

fn clip(value: u16, length: u16) -> (clipped: u16)
    ensures
        clipped == last_within(value, length),
{
    if length == 0 {
        0
    } else if value < length {
        value
    } else {
        length - 1
    }
}

impl StreamModel {
    /// A stream that has sent nothing yet and has seen everything so far.
    pub open spec fn opened(display: DisplayModel, gate: GateModel, hub: HubModel) -> StreamModel {
        StreamModel {
            client_size: display.client_size,
            client_seen: display.client_revision,
            access_seen: gate.revision,
            pointer_seen: hub.pointer_revision,
            frame_seen: hub.frame_revision,
            size_seen: hub.size_revision,
            supported_seen: hub.supported_revision,
            available_seen: hub.available_revision,
            sent_initial: false,
            pointer_shape_sent: false,
            pointer_position_sent: false,
            strips: None,
        }
    }
}

/// What `present_access` sends for the access screen in `frame`.
pub open spec fn presents(
    frame: FrameModel,
    before: StreamModel,
    after: StreamModel,
    result: Result<DisplayUpdate, DisplayError>,
) -> bool {
    if frame.size.width == 0 {
        after == before && (result matches Err(error) && error == DisplayError::Frame(
            FrameError::ZeroWidth,
        ))
    } else if frame.size.height == 0 {
        after == before && (result matches Err(error) && error == DisplayError::Frame(
            FrameError::ZeroHeight,
        ))
    } else if frame.rgba.len() != frame.size.pixels() * 4 {
        after == before && (result matches Err(error) && error == DisplayError::Frame(
            FrameError::WrongLength,
        ))
    } else {
        exists|strips: StripSequence| #[trigger]
            strips.whole().covers(frame.size, frame.rgba) && strips.position() == 0 && (
            result matches Ok(update) && sends_strip(
                StreamModel { strips: Some(strips), ..before },
                after,
                update,
            ))
    }
}

impl RdpDisplayUpdates {
    /// Opens the stream of a client, after telling the barrier of the displays.
    pub fn new(
        display: &RdpDisplay,
        gate: &mut AccessGate,
        hub: &FrameHub,
        sessions: &SessionCoordinator,
    ) -> (updates: Self)
        ensures
            final(gate)@ == crate::display::synced(
                old(gate)@,
                display@.client_size,
                hub@,
                sessions@,
            ),
            updates@ == StreamModel::opened(display@, final(gate)@, hub@),
    {
        gate.set_display_state(display.size(), hub.size(), hub.is_available(), sessions);
        RdpDisplayUpdates {
            client_size: display.size(),
            client_seen: display.revision(),
            access_seen: gate.revision(),
            pointer_seen: hub.pointer_revision(),
            frame_seen: hub.frame_revision(),
            size_seen: hub.size_revision(),
            supported_seen: hub.supported_revision(),
            available_seen: hub.available_revision(),
            sent_initial: false,
            pointer_shape_sent: false,
            pointer_position_sent: false,
            strips: None,
        }
    }

    fn next_access_strip(&mut self) -> (result: Result<DisplayUpdate, DisplayError>)
        requires
            old(self)@.strips matches Some(strips) ==> strips.unfinished(),
        ensures
            old(self)@.strips is None ==> final(self)@ == old(self)@ && (result matches Err(error)
                && error == DisplayError::NoAccessScreen),
            old(self)@.strips is Some ==> (result matches Ok(update) && sends_strip(
                old(self)@,
                final(self)@,
                update,
            )),
            final(self)@.strips matches Some(strips) ==> strips.unfinished(),
    {
        match self.strips.take() {
            Some(strips) => {
                let mut strips = strips;
                let (strip, last) = strips.next_strip();
                if !last {
                    self.strips = Some(strips);
                }
                Ok(DisplayUpdate::Bitmap(strip))
            },
            None => Err(DisplayError::NoAccessScreen),
        }
    }

    /// The size of the picture that the client is shown.
    pub fn client_size(&self) -> (size: DesktopSize)
        ensures
            size == self@.client_size,
    {
        self.client_size
    }

    /// The access screen that is to be painted for this stream, on the client's canvas.
    pub fn access_scene(&self, gate: &AccessGate) -> (scene: Scene)
        ensures
            scene@ == crate::scene::access_screen(self@.client_size, gate@.published),
    {
        gate.render_frame(self.client_size)
    }

    /// Starts to send the access screen that `next_update` or `resume` has asked
    /// for, and returns its first strip.
    ///
    /// The screen is sent in strips rather than whole: an encoder that remembers
    /// whole frames would drop a repaint that looks the same, and a client that
    /// missed the first one would never see the screen.
    pub fn present_access(&mut self, frame: &CapturedFrame) -> (result: Result<
        DisplayUpdate,
        DisplayError,
    >)
        requires
            old(self)@.valid(),
        ensures
            presents(frame.model(), old(self)@, final(self)@, result),
            final(self)@.valid(),
    {
        match to_bitmap_update(frame) {
            Ok(bitmap) => {
                let strips = StripSequence::new(bitmap);
                self.strips = Some(strips);
                let ghost sending = self@;
                let result = self.next_access_strip();
                proof {
                    assert(strips.whole().covers(frame.model().size, frame.model().rgba));
                    assert(sending == StreamModel { strips: Some(strips), ..old(self)@ });
                }
                result
            },
            Err(error) => Err(DisplayError::Frame(error)),
        }
    }

    /// Decides what is sent next. A new canvas comes first; then, once the barrier
    /// has been told of the displays, the screen if it is new, the pointer, and
    /// the rest of the access screen.
    pub fn next_update(
        &mut self,
        display: &RdpDisplay,
        gate: &mut AccessGate,
        hub: &FrameHub,
        sessions: &SessionCoordinator,
    ) -> (step: Result<NextUpdate, DisplayError>)
        requires
            old(self)@.valid(),
            display@.client_size.addressable(),
            hub@.frame.size.addressable(),
        ensures
            decides(
                (old(self)@, old(gate)@),
                display@,
                hub@,
                sessions@,
                (final(self)@, final(gate)@),
                step,
            ),
            final(self)@.valid(),
    {
        if display.revision() != self.client_seen {
            return Ok(NextUpdate::Send(self.client_resize_update(display)));
        }
        self.sync_display_state(gate, hub, sessions);
        if !self.sent_initial || gate.revision() != self.access_seen {
            self.sent_initial = true;
            self.access_seen = gate.revision();
            return self.current_update(gate, hub);
        }
        if !self.pointer_shape_sent {
            self.pointer_shape_sent = true;
            return Ok(NextUpdate::Send(DisplayUpdate::Pointer(default_arrow_pointer())));
        }
        if !self.pointer_position_sent {
            self.pointer_position_sent = true;
            if let Some(update) = self.pointer_position_update(hub) {
                return Ok(NextUpdate::Send(update));
            }
        } else if hub.pointer_revision() != self.pointer_seen {
            return match self.pointer_position_update(hub) {
                Some(update) => Ok(NextUpdate::Send(update)),
                None => Ok(NextUpdate::Nothing),
            };
        }
        if self.strips.is_some() {
            return match self.next_access_strip() {
                Ok(update) => Ok(NextUpdate::Send(update)),
                Err(error) => Err(error),
            };
        }
        Ok(NextUpdate::Wait { desktop: gate.published().is_desktop_ready() })
    }

    /// What a waiting stream is to be woken by, if anything has happened.
    pub fn pending_event(
        &self,
        display: &RdpDisplay,
        gate: &AccessGate,
        hub: &FrameHub,
        desktop: bool,
    ) -> (event: Option<WakeEvent>)
        ensures
            event == self@.woken_by(display@, gate@, hub@, desktop),
    {
        if display.revision() != self.client_seen {
            Some(WakeEvent::ClientSize)
        } else if gate.revision() != self.access_seen {
            Some(WakeEvent::Access)
        } else if hub.pointer_revision() != self.pointer_seen {
            Some(WakeEvent::Pointer)
        } else if desktop && hub.frame_revision() != self.frame_seen {
            Some(WakeEvent::Frame)
        } else if hub.size_revision() != self.size_seen {
            Some(WakeEvent::HostSize)
        } else if hub.supported_revision() != self.supported_seen {
            Some(WakeEvent::SupportedSizes)
        } else if hub.available_revision() != self.available_seen {
            Some(WakeEvent::Availability)
        } else {
            None
        }
    }

    /// Decides what is sent after a wait.
    pub fn resume(
        &mut self,
        event: WakeEvent,
        display: &RdpDisplay,
        gate: &mut AccessGate,
        hub: &FrameHub,
        sessions: &SessionCoordinator,
    ) -> (step: Result<NextUpdate, DisplayError>)
        requires
            old(self)@.valid(),
            display@.client_size.addressable(),
            hub@.frame.size.addressable(),
        ensures
            resumes(
                event,
                (old(self)@, old(gate)@),
                display@,
                hub@,
                sessions@,
                (final(self)@, final(gate)@),
                step,
            ),
            final(self)@.valid(),
    {
        match event {
            WakeEvent::ClientSize => Ok(NextUpdate::Send(self.client_resize_update(display))),
            WakeEvent::Access => {
                self.access_seen = gate.revision();
                self.current_update(gate, hub)
            },
            WakeEvent::Pointer => match self.pointer_position_update(hub) {
                Some(update) => Ok(NextUpdate::Send(update)),
                None => Ok(NextUpdate::Nothing),
            },
            WakeEvent::Frame => {
                self.frame_seen = hub.frame_revision();
                self.current_update(gate, hub)
            },
            _ => {
                self.sync_display_state(gate, hub, sessions);
                self.current_update(gate, hub)
            },
        }
    }
}

/// While the barrier is closed no pixel of the desktop is sent: the stream sends no
/// bitmap but the strips of the access screen that were handed to it, and asks for
/// that screen where it would show the desktop.
pub proof fn law_closed_gate_hides_the_desktop(
    before: StreamModel,
    gate: GateModel,
    hub: HubModel,
    after: StreamModel,
    step: Result<NextUpdate, DisplayError>,
)
    requires
        !gate.state.snapshot().desktop_ready(),
        (before.strips is None && next_in_order(before, gate, hub, after, step)) || shows_current(
            before,
            gate,
            hub,
            after,
            step,
        ),
    ensures
        !(step matches Ok(NextUpdate::Send(DisplayUpdate::Bitmap(_)))),
{
}

/// Something that happens to a stream: it decides what to send, it goes on after a
/// wait, or it is handed the access screen of the moment, painted for its canvas.
pub enum Turn {
    Next {
        display: DisplayModel,
        hub: HubModel,
        sessions: SessionModel,
        gate: GateModel,
        told: GateModel,
        step: Result<NextUpdate, DisplayError>,
    },
    Resume {
        event: WakeEvent,
        display: DisplayModel,
        hub: HubModel,
        sessions: SessionModel,
        gate: GateModel,
        told: GateModel,
        step: Result<NextUpdate, DisplayError>,
    },
    Present { gate: GateModel, result: Result<DisplayUpdate, DisplayError> },
}

/// The access screen that the barrier publishes, rendered for a canvas and painted.
pub open spec fn painted_screen(
    paint: spec_fn(DesktopSize, Seq<ShapeModel>) -> FrameModel,
    client: DesktopSize,
    gate: GateModel,
) -> FrameModel {
    paint(client, crate::scene::access_screen(client, gate.published))
}

impl Turn {
    /// Whether the turn leads from one state of the stream to another, where `paint`
    /// turns scenes into pixels.
    pub open spec fn leads(
        self,
        paint: spec_fn(DesktopSize, Seq<ShapeModel>) -> FrameModel,
        before: StreamModel,
        after: StreamModel,
    ) -> bool {
        match self {
            Turn::Next { display, hub, sessions, gate, told, step } => decides(
                (before, gate),
                display,
                hub,
                sessions,
                (after, told),
                step,
            ),
            Turn::Resume { event, display, hub, sessions, gate, told, step } => resumes(
                event,
                (before, gate),
                display,
                hub,
                sessions,
                (after, told),
                step,
            ),
            Turn::Present { gate, result } => presents(
                painted_screen(paint, before.client_size, gate),
                before,
                after,
                result,
            ),
        }
    }

    /// Whether the barrier is closed in the turn.
    pub open spec fn closed_out(self) -> bool {
        match self {
            Turn::Next { told, .. } => !told.state.snapshot().desktop_ready(),
            Turn::Resume { told, .. } => !told.state.snapshot().desktop_ready(),
            Turn::Present { gate, .. } => !gate.state.snapshot().desktop_ready(),
        }
    }

    /// Whether the turn shows the desktop, which is open.
    pub open spec fn shows_open_desktop(self, before: StreamModel) -> bool {
        match self {
            Turn::Next { hub, told, step, .. } => told.state.snapshot().desktop_ready()
                && shows_desktop(
                hub.frame,
                before.client_size,
                told.state.snapshot().presentation,
                step,
            ),
            Turn::Resume { hub, told, step, .. } => told.state.snapshot().desktop_ready()
                && shows_desktop(
                hub.frame,
                before.client_size,
                told.state.snapshot().presentation,
                step,
            ),
            Turn::Present { .. } => false,
        }
    }

    /// The bitmap that is sent in the turn.
    pub open spec fn bitmap(self) -> Option<BitmapUpdate> {
        match self {
            Turn::Next { step: Ok(NextUpdate::Send(DisplayUpdate::Bitmap(bitmap))), .. } => Some(
                bitmap,
            ),
            Turn::Resume { step: Ok(NextUpdate::Send(DisplayUpdate::Bitmap(bitmap))), .. } => Some(
                bitmap,
            ),
            Turn::Present { result: Ok(DisplayUpdate::Bitmap(bitmap)), .. } => Some(bitmap),
            _ => None,
        }
    }
}

impl Turn {
    /// Whether the turn neither changes the canvas nor asks for another screen.
    pub open spec fn undisturbed(self) -> bool {
        match self {
            Turn::Next { step, .. } => !starts_anew(step),
            Turn::Resume { step, .. } => !starts_anew(step),
            Turn::Present { .. } => false,
        }
    }
}

/// Whether a step changes the canvas or asks for the access screen.
pub open spec fn starts_anew(step: Result<NextUpdate, DisplayError>) -> bool {
    match step {
        Ok(NextUpdate::PaintAccess) => true,
        Ok(NextUpdate::Send(DisplayUpdate::Resize(_))) => true,
        _ => false,
    }
}

/// The bytes of the bitmaps that a run of turns sends, one after another.
pub open spec fn sent_bytes(turns: Seq<Turn>) -> Seq<u8>
    decreases turns.len(),
{
    if turns.len() == 0 {
        Seq::empty()
    } else {
        match turns.last().bitmap() {
            Some(bitmap) => sent_bytes(turns.drop_last()) + bitmap.data@,
            None => sent_bytes(turns.drop_last()),
        }
    }
}

/// The number of rows that a run of turns sends.
pub open spec fn sent_rows(turns: Seq<Turn>) -> nat
    decreases turns.len(),
{
    if turns.len() == 0 {
        0
    } else {
        match turns.last().bitmap() {
            Some(bitmap) => sent_rows(turns.drop_last()) + bitmap.height as nat,
            None => sent_rows(turns.drop_last()),
        }
    }
}

/// Whether a bitmap is whole rows of a picture, at their place.
pub open spec fn is_rows_of(bitmap: BitmapUpdate, picture: FrameModel) -> bool {
    let stride = picture.size.width * 4;
    &&& bitmap.complete()
    &&& bitmap.x == 0 && bitmap.width == picture.size.width
    &&& bitmap.y + bitmap.height <= picture.size.height
    &&& bitmap.data@ == picture.rgba.subrange(
        bitmap.y * stride,
        (bitmap.y + bitmap.height) * stride,
    )
}

/// Whether a run of turns leads a stream that sends nothing through the given states,
/// where painted scenes have the size of their canvas.
pub open spec fn runs(
    paint: spec_fn(DesktopSize, Seq<ShapeModel>) -> FrameModel,
    stages: Seq<StreamModel>,
    turns: Seq<Turn>,
) -> bool {
    &&& stages.len() == turns.len() + 1
    &&& stages[0].strips is None
    &&& forall|client: DesktopSize, shapes: Seq<ShapeModel>|
        (#[trigger] paint(client, shapes)).size == client
    &&& forall|i: int|
        0 <= i < turns.len() ==> (#[trigger] turns[i]).leads(paint, stages[i], stages[i + 1])
}

/// Whether a run of turns happens behind a closed barrier.
pub open spec fn kept_out(
    paint: spec_fn(DesktopSize, Seq<ShapeModel>) -> FrameModel,
    stages: Seq<StreamModel>,
    turns: Seq<Turn>,
) -> bool {
    &&& runs(paint, stages, turns)
    &&& forall|i: int| 0 <= i < turns.len() ==> (#[trigger] turns[i]).closed_out()
}

/// Whether a turn handed the stream an access screen for the canvas that it has at a
/// later stage.
pub open spec fn handed_screen(stages: Seq<StreamModel>, turns: Seq<Turn>, j: int, k: int) -> bool {
    &&& 0 <= j < turns.len()
    &&& turns[j] is Present
    &&& stages[j].client_size == stages[k].client_size
}

/// The strips that are left to be sent are those of a screen that was handed over.
proof fn lemma_strips_of_a_screen(
    paint: spec_fn(DesktopSize, Seq<ShapeModel>) -> FrameModel,
    stages: Seq<StreamModel>,
    turns: Seq<Turn>,
    k: int,
)
    requires
        runs(paint, stages, turns),
        0 <= k < stages.len(),
    ensures
        stages[k].strips matches Some(strips) ==> exists|j: int|
            j < k && #[trigger] handed_screen(stages, turns, j, k) && strips.whole().covers(
                stages[k].client_size,
                painted_screen(
                    paint,
                    stages[k].client_size,
                    turns[j]->Present_gate,
                ).rgba,
            ),
    decreases k,
{
    if k > 0 {
        let turn = turns[k - 1];
        lemma_strips_of_a_screen(paint, stages, turns, k - 1);
        assert(turn.leads(paint, stages[k - 1], stages[k]));
        if let Some(strips) = stages[k].strips {
            if turn.bitmap() is Some && turn is Present {
                let before = stages[k - 1];
                let picture = painted_screen(paint, before.client_size, turn->Present_gate);
                let handed = choose|handed: StripSequence| #[trigger]
                    handed.whole().covers(picture.size, picture.rgba) && handed.position() == 0 && (
                    turn->Present_result matches Ok(update) && sends_strip(
                        StreamModel { strips: Some(handed), ..before },
                        stages[k],
                        update,
                    ));
                assert(strips.whole() == handed.whole());
                assert(handed_screen(stages, turns, k - 1, k));
            } else {
                assert(stages[k - 1].strips is Some);
                assert(stages[k - 1].client_size == stages[k].client_size);
                let left = stages[k - 1].strips->0;
                assert(strips.whole() == left.whole());
                let j = choose|j: int|
                    j < k - 1 && #[trigger] handed_screen(stages, turns, j, k - 1)
                        && left.whole().covers(
                        stages[k - 1].client_size,
                        painted_screen(
                            paint,
                            stages[k - 1].client_size,
                            turns[j]->Present_gate,
                        ).rgba,
                    );
                assert(handed_screen(stages, turns, j, k));
            }
        }
    }
}

/// Every bitmap that is sent is rows of an access screen that was rendered from what the
/// barrier published, for the very canvas that the client has, and handed over before; or
/// the barrier is open, and it is the desktop as the client may see it.
pub proof fn law_bitmaps_show_the_screen_or_an_open_desktop(
    paint: spec_fn(DesktopSize, Seq<ShapeModel>) -> FrameModel,
    stages: Seq<StreamModel>,
    turns: Seq<Turn>,
    k: int,
)
    requires
        runs(paint, stages, turns),
        0 <= k < turns.len(),
        turns[k].bitmap() is Some,
    ensures
        turns[k].shows_open_desktop(stages[k]) || exists|j: int|
            j <= k && #[trigger] handed_screen(stages, turns, j, k) && is_rows_of(
                turns[k].bitmap()->0,
                painted_screen(paint, stages[k].client_size, turns[j]->Present_gate),
            ),
{
    let turn = turns[k];
    let before = stages[k];
    lemma_strips_of_a_screen(paint, stages, turns, k);
    assert(turn.leads(paint, before, stages[k + 1]));
    if let Turn::Present { gate, .. } = turn {
        assert(handed_screen(stages, turns, k, k));
        let picture = painted_screen(paint, before.client_size, gate);
        let strips = choose|strips: StripSequence| #[trigger]
            strips.whole().covers(picture.size, picture.rgba) && strips.position() == 0 && (
            turn->Present_result matches Ok(update) && sends_strip(
                StreamModel { strips: Some(strips), ..before },
                stages[k + 1],
                update,
            ));
        assert(is_rows_of(turn.bitmap()->0, picture));
    } else if !turn.shows_open_desktop(before) {
        assert(before.strips is Some);
        let strips = before.strips->0;
        let j = choose|j: int|
            j < k && #[trigger] handed_screen(stages, turns, j, k) && strips.whole().covers(
                before.client_size,
                painted_screen(paint, before.client_size, turns[j]->Present_gate).rgba,
            );
        assert(is_rows_of(
            turn.bitmap()->0,
            painted_screen(paint, before.client_size, turns[j]->Present_gate),
        ));
    }
}

/// While the barrier is closed every bitmap that is sent is rows of an access screen: of
/// one that was rendered from what the barrier published, for the very canvas that the
/// client has, and handed over before.
pub proof fn law_closed_gate_sends_the_rendered_screen(
    paint: spec_fn(DesktopSize, Seq<ShapeModel>) -> FrameModel,
    stages: Seq<StreamModel>,
    turns: Seq<Turn>,
    k: int,
)
    requires
        kept_out(paint, stages, turns),
        0 <= k < turns.len(),
        turns[k].bitmap() is Some,
    ensures
        exists|j: int|
            j <= k && #[trigger] handed_screen(stages, turns, j, k) && is_rows_of(
                turns[k].bitmap()->0,
                painted_screen(paint, stages[k].client_size, turns[j]->Present_gate),
            ),
{
    law_bitmaps_show_the_screen_or_an_open_desktop(paint, stages, turns, k);
    assert(turns[k].closed_out());
}

/// Whether a run of turns begins with an access screen that is handed over and goes on
/// undisturbed, behind a closed barrier.
pub open spec fn shows_one_screen(
    paint: spec_fn(DesktopSize, Seq<ShapeModel>) -> FrameModel,
    stages: Seq<StreamModel>,
    turns: Seq<Turn>,
) -> bool {
    &&& stages.len() == turns.len() + 1
    &&& turns.len() > 0
    &&& turns[0] is Present && turns[0].bitmap() is Some
    &&& forall|i: int|
        0 <= i < turns.len() ==> (#[trigger] turns[i]).closed_out() && turns[i].leads(
            paint,
            stages[i],
            stages[i + 1],
        )
    &&& forall|i: int| 1 <= i < turns.len() ==> (#[trigger] turns[i]).undisturbed()
}

/// Whether so much of a picture has been sent: the rows before the strips that are left,
/// or all of it.
pub open spec fn has_sent(turns: Seq<Turn>, stage: StreamModel, picture: FrameModel) -> bool {
    let stride = picture.size.width * 4;
    match stage.strips {
        Some(strips) => {
            &&& strips.whole().covers(picture.size, picture.rgba)
            &&& sent_rows(turns) == strips.position()
            &&& strips.position() <= picture.size.height
            &&& sent_bytes(turns) == picture.rgba.subrange(0, strips.position() * stride)
        },
        None => {
            &&& sent_rows(turns) == picture.size.height
            &&& sent_bytes(turns) == picture.rgba
        },
    }
}

/// A strip adds its rows to what has been sent.
proof fn lemma_strip_is_added(
    turns: Seq<Turn>,
    before: StreamModel,
    after: StreamModel,
    picture: FrameModel,
)
    requires
        turns.len() > 0,
        before.strips is Some,
        has_sent(turns.drop_last(), before, picture),
        turns.last().bitmap() matches Some(bitmap) && sends_strip(
            before,
            after,
            DisplayUpdate::Bitmap(bitmap),
        ),
    ensures
        has_sent(turns, after, picture),
        is_rows_of(turns.last().bitmap()->0, picture),
        turns.last().bitmap()->0.y == sent_rows(turns.drop_last()),
{
    let bitmap = turns.last().bitmap()->0;
    let strips = before.strips->0;
    let whole = strips.whole();
    let stride = picture.size.width * 4;
    let row = strips.position() as int;
    let rows = crate::bitmap::rows_at(whole.height as int, row);
    assert(0 <= row * stride <= (row + rows) * stride <= stride * whole.height) by (nonlinear_arith)
        requires
            0 <= row,
            1 <= rows,
            row + rows <= whole.height,
            0 <= stride,
    ;
    assert(picture.rgba.subrange(0, row * stride) + picture.rgba.subrange(
        row * stride,
        (row + rows) * stride,
    ) =~= picture.rgba.subrange(0, (row + rows) * stride));
    if row + rows == whole.height {
        assert((row + rows) * stride == stride * whole.height) by (nonlinear_arith)
            requires
                row + rows == whole.height,
        ;
        assert(picture.rgba.subrange(0, (row + rows) * stride) =~= picture.rgba);
    }
}

/// What has been sent after some of the turns.
proof fn lemma_sent_so_far(
    paint: spec_fn(DesktopSize, Seq<ShapeModel>) -> FrameModel,
    stages: Seq<StreamModel>,
    turns: Seq<Turn>,
    k: int,
)
    requires
        shows_one_screen(paint, stages, turns),
        1 <= k <= turns.len(),
    ensures
        ({
            let picture = painted_screen(
                paint,
                stages[0].client_size,
                turns[0]->Present_gate,
            );
            &&& has_sent(turns.take(k), stages[k], picture)
            &&& turns[k - 1].bitmap() matches Some(bitmap) ==> is_rows_of(bitmap, picture)
                && bitmap.y == sent_rows(turns.take(k - 1))
        }),
    decreases k,
{
    let picture = painted_screen(paint, stages[0].client_size, turns[0]->Present_gate);
    let turn = turns[k - 1];
    let sent = turns.take(k);
    let before = stages[k - 1];
    assert(sent.drop_last() =~= turns.take(k - 1));
    assert(sent.last() == turn);
    assert(turn.closed_out() && turn.leads(paint, before, stages[k]));
    if k == 1 {
        assert(turns.take(0).len() == 0);
        let strips = choose|strips: StripSequence| #[trigger]
            strips.whole().covers(picture.size, picture.rgba) && strips.position() == 0 && (
            turn->Present_result matches Ok(update) && sends_strip(
                StreamModel { strips: Some(strips), ..before },
                stages[k],
                update,
            ));
        let started = StreamModel { strips: Some(strips), ..before };
        assert(picture.rgba.subrange(0, 0 * (picture.size.width * 4)) =~= Seq::<u8>::empty());
        assert(has_sent(turns.take(0), started, picture));
        lemma_strip_is_added(sent, started, stages[k], picture);
    } else {
        lemma_sent_so_far(paint, stages, turns, k - 1);
        assert(turn.undisturbed());
        if turn.bitmap() is Some {
            assert(before.strips is Some);
            let placed = StreamModel { strips: before.strips, ..stages[k] };
            assert(sends_strip(placed, stages[k], DisplayUpdate::Bitmap(turn.bitmap()->0)));
            lemma_strip_is_added(sent, placed, stages[k], picture);
        } else {
            assert(stages[k].strips == before.strips);
        }
    }
}

/// While the barrier is closed and neither the screen nor the canvas changes, the bitmaps
/// tile the access screen that was handed over: each is whole rows of it, at the row
/// behind those that went before, and once no strip is left they carry, in order, the
/// strips of the whole screen, which is every byte of it.
pub proof fn law_closed_gate_sends_the_whole_screen(
    paint: spec_fn(DesktopSize, Seq<ShapeModel>) -> FrameModel,
    stages: Seq<StreamModel>,
    turns: Seq<Turn>,
)
    requires
        shows_one_screen(paint, stages, turns),
    ensures
        ({
            let picture = painted_screen(
                paint,
                stages[0].client_size,
                turns[0]->Present_gate,
            );
            let stride = picture.size.width * 4;
            let height = picture.size.height as int;
            &&& forall|k: int|
                0 <= k < turns.len() ==> ((#[trigger] turns[k]).bitmap() matches Some(bitmap)
                    ==> is_rows_of(bitmap, picture) && bitmap.y == sent_rows(turns.take(k)))
            &&& has_sent(turns, stages.last(), picture)
            &&& stages.last().strips is None ==> sent_bytes(turns) == picture.rgba
                && sent_bytes(turns) == crate::bitmap::strip_bytes(
                picture.rgba,
                stride,
                height,
                0,
            )
        }),
{
    let picture = painted_screen(paint, stages[0].client_size, turns[0]->Present_gate);
    let stride = picture.size.width * 4;
    let height = picture.size.height as int;
    assert forall|k: int| 0 <= k < turns.len() implies ((#[trigger] turns[k]).bitmap() matches Some(
        bitmap,
    ) ==> is_rows_of(bitmap, picture) && bitmap.y == sent_rows(turns.take(k))) by {
        lemma_sent_so_far(paint, stages, turns, k + 1);
    }
    lemma_sent_so_far(paint, stages, turns, turns.len() as int);
    assert(turns.take(turns.len() as int) =~= turns);
    assert(turns[0].leads(paint, stages[0], stages[1]));
    assert(picture.size.pixels() * 4 == stride * height) by (nonlinear_arith)
        requires
            picture.size.pixels() == picture.size.width * picture.size.height,
            stride == picture.size.width * 4,
            height == picture.size.height,
    ;
    crate::bitmap::law_strips_carry_the_whole_bitmap(picture.rgba, stride, height, 0);
    assert(picture.rgba.subrange(0 * stride, picture.rgba.len() as int) =~= picture.rgba);
}

/// A stream that has nothing more urgent to send goes on with the access screen: each
/// turn sends the next strip until none is left.
pub proof fn law_settled_stream_sends_the_next_strip(
    before: StreamModel,
    gate: GateModel,
    display: DisplayModel,
    hub: HubModel,
    sessions: SessionModel,
    after: (StreamModel, GateModel),
    step: Result<NextUpdate, DisplayError>,
)
    requires
        decides((before, gate), display, hub, sessions, after, step),
        before.strips is Some,
        display.client_revision == before.client_seen,
        before.sent_initial && after.1.revision == before.access_seen,
        before.pointer_shape_sent && before.pointer_position_sent,
        hub.pointer_revision == before.pointer_seen,
    ensures
        step matches Ok(NextUpdate::Send(DisplayUpdate::Bitmap(_))),
        after.0.strips matches Some(rest) ==> rest.whole() == before.strips->0.whole()
            && rest.position() > before.strips->0.position(),
{
}

/// Once the barrier is open and the desktop has the size of the canvas, what is shown is
/// the latest frame, byte by byte.
pub proof fn law_open_gate_shows_the_latest_frame(
    before: StreamModel,
    gate: GateModel,
    hub: HubModel,
    after: StreamModel,
    step: Result<NextUpdate, DisplayError>,
)
    requires
        gate.state.snapshot().desktop_ready(),
        shows_current(before, gate, hub, after, step),
        hub.frame.size == before.client_size,
        hub.frame.size.width > 0 && hub.frame.size.height > 0,
        hub.frame.rgba.len() == hub.frame.size.pixels() * 4,
    ensures
        step matches Ok(NextUpdate::Send(DisplayUpdate::Bitmap(bitmap))) && bitmap.covers(
            before.client_size,
            hub.frame.rgba,
        ),
        after.frame_seen == hub.frame_revision,
{
}

/// A barrier that was reset shows the access screen again: the first thing that a new
/// stream asks for is that screen, whatever frames have been published.
pub proof fn law_reset_returns_to_the_access_screen(
    gate: GateModel,
    display: DisplayModel,
    hub: HubModel,
    later: HubModel,
    sessions: SessionModel,
    after: (StreamModel, GateModel),
    step: Result<NextUpdate, DisplayError>,
)
    requires
        ({
            let reset = GateModel {
                remembered: crate::trusted_clients::PreferencesModel::nothing(),
                ..gate.publishing(gate.state.after_reset())
            };
            let told = crate::display::synced(reset, display.client_size, hub, sessions);
            decides(
                (StreamModel::opened(display, told, hub), told),
                display,
                later,
                sessions,
                after,
                step,
            )
        }),
    ensures
        step matches Ok(NextUpdate::PaintAccess),
        !after.1.state.snapshot().desktop_ready(),
{
}

/// The frames of the desktop have no influence on what the stream does while the
/// barrier is closed.
pub proof fn law_closed_gate_ignores_frames(
    before: StreamModel,
    gate: GateModel,
    hub: HubModel,
    frame: FrameModel,
    frame_revision: u64,
    after: StreamModel,
    step: Result<NextUpdate, DisplayError>,
)
    requires
        !gate.state.snapshot().desktop_ready(),
        next_in_order(before, gate, hub, after, step),
    ensures
        next_in_order(before, gate, HubModel { frame, frame_revision, ..hub }, after, step),
{
}

/// A change of what the barrier publishes is shown before anything else on the same
/// canvas.
pub proof fn law_access_changes_come_first(
    before: StreamModel,
    gate: GateModel,
    hub: HubModel,
    after: StreamModel,
    step: Result<NextUpdate, DisplayError>,
)
    requires
        gate.revision != before.access_seen,
        next_in_order(before, gate, hub, after, step),
    ensures
        after.access_seen == gate.revision,
        !gate.state.snapshot().desktop_ready() ==> (step matches Ok(NextUpdate::PaintAccess)),
{
}

/// A canvas of another size comes before everything else: it is told, the screen that was
/// being sent is dropped, and the pointer is to be sent anew. It is told once.
pub proof fn law_new_canvas_comes_first(
    before: (StreamModel, GateModel),
    display: DisplayModel,
    hub: HubModel,
    sessions: SessionModel,
    after: (StreamModel, GateModel),
    step: Result<NextUpdate, DisplayError>,
)
    requires
        decides(before, display, hub, sessions, after, step),
    ensures
        display.client_revision != before.0.client_seen ==> {
            &&& step matches Ok(NextUpdate::Send(DisplayUpdate::Resize(size))) && size
                == display.client_size
            &&& after.0.client_size == display.client_size
            &&& after.0.strips is None
            &&& !after.0.pointer_shape_sent && !after.0.pointer_position_sent
            &&& after.0.sent_initial == before.0.sent_initial
            &&& after.1 == before.1
        },
        after.0.client_seen == display.client_revision,
        display.client_revision == before.0.client_seen ==> {
            &&& after.0.client_size == before.0.client_size
            &&& !(step matches Ok(NextUpdate::Send(DisplayUpdate::Resize(_))))
        },
{
}

/// On a canvas that is known the first picture comes before the pointer, then the pointer's
/// shape, then its place, then what is left of the screen; the stream waits exactly if all
/// that is sent, and says whether it waits for frames.
pub proof fn law_updates_come_in_order(
    before: (StreamModel, GateModel),
    display: DisplayModel,
    hub: HubModel,
    sessions: SessionModel,
    after: (StreamModel, GateModel),
    step: Result<NextUpdate, DisplayError>,
)
    requires
        decides(before, display, hub, sessions, after, step),
        display.client_revision == before.0.client_seen,
    ensures
        ({
            let shown = before.0.sent_initial && after.1.revision == before.0.access_seen;
            let pointed = before.0.pointer_position_sent;
            let placed = if pointed {
                hub.pointer_revision == before.0.pointer_seen
            } else {
                hub.pointer is None
            };
            let ready = shown && before.0.pointer_shape_sent;
            &&& !shown ==> after.0.sent_initial && after.0.access_seen == after.1.revision
            &&& !shown ==> !(step matches Ok(NextUpdate::Wait { .. })) && !(step matches Ok(
                NextUpdate::Send(DisplayUpdate::Pointer(_)),
            ))
            &&& shown && !before.0.pointer_shape_sent ==> (step matches Ok(
                NextUpdate::Send(DisplayUpdate::Pointer(_)),
            )) && after.0.pointer_shape_sent
            &&& ready && !placed && hub.pointer is Some ==> (step matches Ok(
                NextUpdate::Send(DisplayUpdate::PointerPosition { .. }),
            ))
            &&& ready && pointed && !placed && hub.pointer is None ==> (step matches Ok(
                NextUpdate::Nothing,
            ))
            &&& ready && placed && before.0.strips is Some ==> (step matches Ok(
                NextUpdate::Send(DisplayUpdate::Bitmap(_)),
            ))
            &&& (step matches Ok(NextUpdate::Wait { .. })) <==> ready && placed
                && before.0.strips is None
            &&& step matches Ok(NextUpdate::Wait { desktop }) ==> desktop
                == after.1.published.desktop_ready()
            &&& ready ==> after.0.pointer_position_sent && after.0.pointer_seen
                == hub.pointer_revision
        }),
        after.0.size_seen == hub.size_revision && after.0.supported_seen == hub.supported_revision
            && after.0.available_seen == hub.available_revision,
{
}

/// The pointer is sent where it was seen last, moved onto the canvas where it lies outside.
pub proof fn law_pointer_stays_on_the_canvas(stream: StreamModel, hub: HubModel)
    ensures
        stream.pointer_on_canvas(hub) is Some <==> hub.pointer is Some,
        hub.pointer matches Some((x, y)) ==> {
            let (px, py) = stream.pointer_on_canvas(hub)->0;
            &&& x < stream.client_size.width ==> px == x
            &&& y < stream.client_size.height ==> py == y
            &&& x >= stream.client_size.width > 0 ==> px == stream.client_size.width - 1
            &&& y >= stream.client_size.height > 0 ==> py == stream.client_size.height - 1
            &&& stream.client_size.width == 0 ==> px == 0
            &&& stream.client_size.height == 0 ==> py == 0
        },
{
}

/// A place that is sent is that of the pointer on the canvas.
pub proof fn law_sent_places_are_the_pointers(
    event: WakeEvent,
    before: (StreamModel, GateModel),
    display: DisplayModel,
    hub: HubModel,
    sessions: SessionModel,
    after: (StreamModel, GateModel),
    step: Result<NextUpdate, DisplayError>,
    x: u16,
    y: u16,
)
    requires
        decides(before, display, hub, sessions, after, step) || resumes(
            event,
            before,
            display,
            hub,
            sessions,
            after,
            step,
        ),
        step == Ok::<NextUpdate, DisplayError>(
            NextUpdate::Send(DisplayUpdate::PointerPosition { x, y }),
        ),
    ensures
        before.0.pointer_on_canvas(hub) == Some((x, y)),
        after.0.pointer_seen == hub.pointer_revision,
        after.0.client_size == before.0.client_size,
{
}

/// The stream wakes exactly if something has changed since it looked: the size of the canvas
/// first, then who has access, then the pointer, then the frame where the desktop is open,
/// then the display and the desktop's being there.
pub proof fn law_stream_wakes_for_what_changed(
    stream: StreamModel,
    display: DisplayModel,
    gate: GateModel,
    hub: HubModel,
    desktop: bool,
)
    ensures
        ({
            let woken = stream.woken_by(display, gate, hub, desktop);
            let size = display.client_revision != stream.client_seen;
            let access = gate.revision != stream.access_seen;
            let pointer = hub.pointer_revision != stream.pointer_seen;
            let frame = desktop && hub.frame_revision != stream.frame_seen;
            let host = hub.size_revision != stream.size_seen;
            let sizes = hub.supported_revision != stream.supported_seen;
            let available = hub.available_revision != stream.available_seen;
            &&& woken is None <==> !size && !access && !pointer && !frame && !host && !sizes
                && !available
            &&& size <==> woken == Some(WakeEvent::ClientSize)
            &&& access && !size <==> woken == Some(WakeEvent::Access)
            &&& pointer && !size && !access <==> woken == Some(WakeEvent::Pointer)
            &&& frame && !size && !access && !pointer <==> woken == Some(WakeEvent::Frame)
            &&& woken == Some(WakeEvent::HostSize) ==> host && !frame
            &&& woken == Some(WakeEvent::SupportedSizes) ==> sizes && !host
            &&& woken == Some(WakeEvent::Availability) ==> available && !sizes
            &&& woken != Some(WakeEvent::Refresh)
        }),
{
}

/// What woke the stream is taken note of, so that it does not wake it again.
pub proof fn law_stream_wakes_once(
    event: WakeEvent,
    before: (StreamModel, GateModel),
    display: DisplayModel,
    hub: HubModel,
    sessions: SessionModel,
    after: (StreamModel, GateModel),
    step: Result<NextUpdate, DisplayError>,
)
    requires
        resumes(event, before, display, hub, sessions, after, step),
    ensures
        event is ClientSize ==> after.0.client_seen == display.client_revision && (
        step matches Ok(NextUpdate::Send(DisplayUpdate::Resize(size))) && size
            == display.client_size),
        event is Access ==> after.0.access_seen == before.1.revision,
        event is Pointer ==> after.0.pointer_seen == hub.pointer_revision && after.0.strips
            == before.0.strips,
        event is Frame ==> after.0.frame_seen == hub.frame_revision,
        event is HostSize || event is SupportedSizes || event is Availability || event is Refresh
            ==> after.0.size_seen == hub.size_revision && after.0.supported_seen
            == hub.supported_revision && after.0.available_seen == hub.available_revision,
        event is ClientSize || event is Access || event is Pointer || event is Frame ==> after.1
            == before.1,
        !(event is ClientSize) ==> after.0.client_size == before.0.client_size,
{
}

/// An open desktop is shown exactly if its frame can be: whole and of the canvas's size, or
/// scaled onto a canvas with pixels. What is wrong with it is told.
pub proof fn law_desktops_are_shown_exactly_if(
    frame: FrameModel,
    client: DesktopSize,
    presentation: DesktopPresentation,
    step: Result<NextUpdate, DisplayError>,
)
    requires
        shows_desktop(frame, client, Some(presentation), step),
    ensures
        ({
            let bytes = frame.size.width * frame.size.height * 4;
            let whole = frame.size.nonempty() && frame.rgba.len() == bytes;
            let same = frame.size == client;
            &&& same ==> (step is Ok <==> whole)
            &&& same && whole ==> (step matches Ok(
                NextUpdate::Send(DisplayUpdate::Bitmap(bitmap)),
            ) && bitmap.x == 0 && bitmap.y == 0 && bitmap.width == client.width && bitmap.height
                == client.height && bitmap.stride == client.width * 4 && bitmap.data@ == frame.rgba)
            &&& !same && presentation is Native <==> step == Err::<NextUpdate, DisplayError>(
                DisplayError::NativeSizeMismatch,
            )
            &&& !same && presentation is Scale ==> (step is Ok <==> client.width > 0
                && client.height > 0 && frame.rgba.len() >= bytes)
            &&& !same && presentation is Scale && step is Ok ==> (step matches Ok(
                NextUpdate::Send(DisplayUpdate::Bitmap(bitmap)),
            ) && bitmap.width == client.width && bitmap.height == client.height
                && bitmap.data@.len() == client.width * client.height * 4)
        }),
{
    if frame.size != client && presentation is Scale && step is Ok {
        if let Ok(NextUpdate::Send(DisplayUpdate::Bitmap(bitmap))) = step {
            assert(bitmap.data@.len() == bitmap.stride * bitmap.height);
            assert((client.width * 4) * client.height == client.width * client.height * 4)
                by (nonlinear_arith);
        }
    }
}

/// A stream that opens has sent nothing yet and has seen everything that is there.
pub proof fn law_opened_stream_starts_fresh(
    display: DisplayModel,
    gate: GateModel,
    hub: HubModel,
    desktop: bool,
)
    ensures
        ({
            let stream = StreamModel::opened(display, gate, hub);
            &&& !stream.sent_initial && !stream.pointer_shape_sent && !stream.pointer_position_sent
            &&& stream.strips is None
            &&& stream.client_size == display.client_size
            &&& stream.woken_by(display, gate, hub, desktop) is None
        }),
{
}

/// The pointer that is sent is the arrow: 24 by 24 pixels of four bytes, with its hot spot one
/// pixel from the corner.
pub proof fn law_pointer_is_the_arrow(step: Result<NextUpdate, DisplayError>)
    requires
        sends_arrow(step),
    ensures
        step matches Ok(NextUpdate::Send(DisplayUpdate::Pointer(pointer))) && pointer.width == 24
            && pointer.height == 24 && pointer.hot_x == 1 && pointer.hot_y == 1
            && pointer.cache_index == 0 && pointer.data@.len() == 24 * 24 * 4
            && pointer.data@[2119] == 255 && pointer.data@[3] == 0,
{
    crate::bitmap::law_arrow_has_a_rim(1, 1);
    crate::bitmap::law_arrow_has_a_rim(0, 23);
}

} // verus!
