//! Where the keys and the pointer of a client go: to the access barrier, or to the
//! desktop once it is open.

use vstd::prelude::*;

use crate::access::{AccessGate, AccessResponse, AccessStep, DesktopPresentation, GateModel};
use crate::display::{FrameHub, HubModel};
use crate::events::{KeyboardEvent, MouseEvent};
use crate::frame::{fitted_desktop_viewport, DesktopViewport};
use crate::platform::DesktopSize;
use crate::session::{SessionCoordinator, SessionModel};

verus! {

/// What the program has to do with an event of a client.
pub enum InputOutcome {
    /// The barrier has taken the event and asks for something.
    Gate(AccessResponse),
    /// A key is to be injected into the desktop.
    InjectKeyboard(KeyboardEvent),
    /// A pointer event is to be injected into a desktop of the given size.
    InjectMouse(MouseEvent, DesktopSize),
    /// The client may only watch.
    Ignored,
}

/// A number moved into the range from 0 to a limit.
pub open spec fn clamped(value: int, limit: int) -> int {
    if value < 0 {
        0
    } else if value > limit {
        limit
    } else {
        value
    }
}

/// The last coordinate of a side.
pub open spec fn last_of(length: u16) -> int {
    if length == 0 {
        0
    } else {
        length - 1
    }
}

/// Where the pointer is after a movement from a place, or from the middle of the
/// canvas.
pub open spec fn moved_from(client: DesktopSize, current: Option<(u16, u16)>, x: int, y: int) -> (
    u16,
    u16,
) {
    let start = match current {
        Some((x, y)) => (x as int, y as int),
        None => (last_of(client.width) / 2, last_of(client.height) / 2),
    };
    (
        clamped(start.0 + x, last_of(client.width)) as u16,
        clamped(start.1 + y, last_of(client.height)) as u16,
    )
}

/// Where the pointer is on the canvas after an event, if the event tells.
pub open spec fn tracked_position(
    event: MouseEvent,
    client: DesktopSize,
    current: Option<(u16, u16)>,
) -> Option<(u16, u16)> {
    match event {
        MouseEvent::Move { x, y } => Some(
            (
                clamped(x as int, last_of(client.width)) as u16,
                clamped(y as int, last_of(client.height)) as u16,
            ),
        ),
        MouseEvent::Button { x, y, .. } => Some(
            (
                clamped(x as int, last_of(client.width)) as u16,
                clamped(y as int, last_of(client.height)) as u16,
            ),
        ),
        MouseEvent::RelMove { x, y } => Some(moved_from(client, current, x as int, y as int)),
        MouseEvent::ButtonRel { x, y, .. } => Some(
            moved_from(client, current, x as int, y as int),
        ),
        _ => None,
    }
}

fn clamp_coordinate(value: i64, length: u16) -> (clamped_value: u16)
    ensures
        clamped_value == clamped(value as int, last_of(length)),
{
    let last: i64 = if length == 0 { 0 } else { length as i64 - 1 };
    if value < 0 {
        0
    } else if value > last {
        last as u16
    } else {
        value as u16
    }
}

/// Follows the pointer of a client on its canvas, also where the client reports
/// relative movements only.
pub fn track_pointer_position(
    event: &MouseEvent,
    client: DesktopSize,
    current: Option<(u16, u16)>,
) -> (position: Option<(u16, u16)>)
    ensures
        position == tracked_position(*event, client, current),
{
    let (absolute, x, y): (bool, i64, i64) = match *event {
        MouseEvent::Move { x, y } => (true, x as i64, y as i64),
        MouseEvent::Button { x, y, .. } => (true, x as i64, y as i64),
        MouseEvent::RelMove { x, y } => (false, x as i64, y as i64),
        MouseEvent::ButtonRel { x, y, .. } => (false, x as i64, y as i64),
        _ => {
            return None;
        },
    };
    if absolute {
        return Some((clamp_coordinate(x, client.width), clamp_coordinate(y, client.height)));
    }
    let (current_x, current_y): (u16, u16) = match current {
        Some((x, y)) => (x, y),
        None => (
            (if client.width == 0 { 0 } else { client.width - 1 }) / 2,
            (if client.height == 0 { 0 } else { client.height - 1 }) / 2,
        ),
    };
    Some(
        (
            clamp_coordinate(current_x as i64 + x, client.width),
            clamp_coordinate(current_y as i64 + y, client.height),
        ),
    )
}

/// A relative event as the absolute one at the pointer's place.
pub open spec fn absolute_event(event: MouseEvent, position: Option<(u16, u16)>) -> Option<
    MouseEvent,
> {
    match position {
        Some((x, y)) => match event {
            MouseEvent::RelMove { .. } => Some(MouseEvent::Move { x, y }),
            MouseEvent::ButtonRel { button, pressed, .. } => Some(
                MouseEvent::Button { x, y, button, pressed },
            ),
            _ => None,
        },
        None => None,
    }
}

/// Turns a relative event into the absolute one at the pointer's place.
pub fn normalized_pointer_event(event: &MouseEvent, pointer_position: Option<(u16, u16)>) -> (
normalized: Option<MouseEvent>)
    ensures
        normalized == absolute_event(*event, pointer_position),
{
    match pointer_position {
        Some((x, y)) => match *event {
            MouseEvent::RelMove { .. } => Some(MouseEvent::Move { x, y }),
            MouseEvent::ButtonRel { button, pressed, .. } => Some(
                MouseEvent::Button { x, y, button, pressed },
            ),
            _ => None,
        },
        None => None,
    }
}

/// The coordinate of the desktop that stands at a coordinate of the canvas: the
/// viewport's first and last columns are the desktop's, the bars belong to the
/// nearest column.
pub open spec fn mapped_axis(value: u16, offset: u16, shown: u16, target: u16) -> u16 {
    let span = if shown <= 2 { 1int } else { shown - 1 };
    (clamped(value - offset, span) * last_of(target) / span) as u16
}

/// Maps a coordinate of the canvas to the desktop.
pub fn map_viewport_axis(value: u16, offset: u16, source_extent: u16, target_extent: u16) -> (
mapped: u16)
    ensures
        mapped == mapped_axis(value, offset, source_extent, target_extent),
        target_extent > 0 ==> mapped < target_extent,
        target_extent == 0 ==> mapped == 0,
{
    let source_max: u32 = if source_extent <= 2 { 1 } else { source_extent as u32 - 1 };
    let target_max: u32 = if target_extent == 0 { 0 } else { target_extent as u32 - 1 };
    let local: u32 = if value <= offset {
        0
    } else if value as u32 - offset as u32 > source_max {
        source_max
    } else {
        value as u32 - offset as u32
    };
    assert(0 <= local * target_max <= 65534 * 65534 && local * target_max <= source_max
        * target_max) by (nonlinear_arith)
        requires
            0 <= local <= source_max <= 65534,
            0 <= target_max <= 65534,
    ;
    assert(0 <= (local * target_max) / source_max as int <= target_max) by (nonlinear_arith)
        requires
            0 <= local * target_max <= source_max * target_max,
            1 <= source_max,
            0 <= target_max,
    ;
    ((local * target_max) / source_max) as u16
}

/// A pointer event on the canvas as one on the desktop.
pub open spec fn mapped_event(
    event: MouseEvent,
    client: DesktopSize,
    host: DesktopSize,
    presentation: Option<DesktopPresentation>,
) -> MouseEvent {
    let viewport = crate::frame::viewport_of(host, client);
    if presentation != Some(DesktopPresentation::Scale) {
        event
    } else {
        match event {
            MouseEvent::Move { x, y } => MouseEvent::Move {
                x: mapped_axis(x, viewport.x, viewport.width, host.width),
                y: mapped_axis(y, viewport.y, viewport.height, host.height),
            },
            MouseEvent::Button { x, y, button, pressed } => MouseEvent::Button {
                x: mapped_axis(x, viewport.x, viewport.width, host.width),
                y: mapped_axis(y, viewport.y, viewport.height, host.height),
                button,
                pressed,
            },
            other => other,
        }
    }
}

/// Maps a pointer event from the canvas to the desktop that stands on it.
pub fn map_mouse_event(
    event: MouseEvent,
    client: DesktopSize,
    host: DesktopSize,
    presentation: Option<DesktopPresentation>,
) -> (mapped: MouseEvent)
    requires
        presentation == Some(DesktopPresentation::Scale) && (event is Move || event is Button)
            ==> client.nonempty(),
    ensures
        mapped == mapped_event(event, client, host, presentation),
{
    if presentation != Some(DesktopPresentation::Scale) {
        return event;
    }
    match event {
        MouseEvent::Move { x, y } => {
            let viewport = fitted_desktop_viewport(host, client);
            MouseEvent::Move {
                x: map_viewport_axis(x, viewport.x, viewport.width, host.width),
                y: map_viewport_axis(y, viewport.y, viewport.height, host.height),
            }
        },
        MouseEvent::Button { x, y, button, pressed } => {
            let viewport = fitted_desktop_viewport(host, client);
            MouseEvent::Button {
                x: map_viewport_axis(x, viewport.x, viewport.width, host.width),
                y: map_viewport_axis(y, viewport.y, viewport.height, host.height),
                button,
                pressed,
            }
        },
        other => other,
    }
}

/// The first and last columns of a viewport are the first and last columns of the
/// desktop, everything outside counts as the nearest of them, and columns keep
/// their order.
pub proof fn law_axis_mapping_keeps_edges_and_order(
    viewport: DesktopViewport,
    target: u16,
    a: u16,
    b: u16,
)
    requires
        viewport.width >= 2,
        target > 0,
        a <= b,
    ensures
        a <= viewport.x ==> mapped_axis(a, viewport.x, viewport.width, target) == 0,
        b >= viewport.x + viewport.width - 1 ==> mapped_axis(b, viewport.x, viewport.width, target)
            == target - 1,
        mapped_axis(a, viewport.x, viewport.width, target) <= mapped_axis(
            b,
            viewport.x,
            viewport.width,
            target,
        ) < target,
{
    let span = if viewport.width <= 2 { 1int } else { viewport.width - 1 };
    let top = target - 1;
    let la = clamped(a - viewport.x, span);
    let lb = clamped(b - viewport.x, span);
    assert(0 <= la * top <= lb * top && lb * top <= span * top) by (nonlinear_arith)
        requires
            0 <= la <= lb <= span,
            0 <= top,
    ;
    if la == 0 {
        assert(la * top == 0) by (nonlinear_arith)
            requires
                la == 0,
        ;
        vstd::arithmetic::div_mod::lemma_div_basics(span);
    }
    vstd::arithmetic::div_mod::lemma_div_is_ordered(la * top, lb * top, span);
    vstd::arithmetic::div_mod::lemma_div_is_ordered(lb * top, span * top, span);
    vstd::arithmetic::div_mod::lemma_div_multiples_vanish(top, span);
    vstd::arithmetic::div_mod::lemma_div_pos_is_pos(la * top, span);
}

/// The canvas on which a client's pointer moves: its own, or the desktop while its
/// canvas is unknown.
pub open spec fn canvas_of(gate: GateModel, hub: HubModel) -> DesktopSize {
    match gate.state.client_size {
        Some(size) => size,
        None => hub.size,
    }
}

/// Whether an event stands at a place of the canvas, as moves and buttons do.
pub open spec fn has_place(event: MouseEvent) -> bool {
    event is Move || event is Button || event is RelMove || event is ButtonRel
}

/// Whether the barrier has taken an event: it made the step, and the outcome hands
/// over what the step asks for.
pub open spec fn barrier_takes(
    step: AccessStep,
    desktop: DesktopSize,
    before: (GateModel, SessionModel),
    after: (GateModel, SessionModel),
    outcome: InputOutcome,
) -> bool {
    &&& after.0 == before.0.after_step(step)
    &&& outcome matches InputOutcome::Gate(response) && {
        &&& response.action == step.action
        &&& response.remember == step.remember
        &&& crate::access::submission_view(response.submission) == step.submission
        &&& before.0.handover(step, before.1, desktop, after.1, response.disconnected@)
    }
}

/// What a key comes to: the barrier takes it while the desktop is closed; then it is
/// injected as it is, for a client that may control the desktop.
pub open spec fn takes_key(
    controls: bool,
    event: KeyboardEvent,
    desktop: DesktopSize,
    before: (GateModel, SessionModel),
    after: (GateModel, SessionModel),
    outcome: InputOutcome,
) -> bool {
    if !before.0.state.snapshot().desktop_ready() {
        let step = before.0.state.key_step(event, before.0.other_owner(before.1));
        barrier_takes(step, desktop, before, after, outcome)
    } else {
        &&& after == before
        &&& controls ==> (outcome matches InputOutcome::InjectKeyboard(key) && key == event)
        &&& !controls ==> outcome is Ignored
    }
}

/// What a pointer event comes to: the barrier takes it while the desktop is closed;
/// then it is injected where it points at on the desktop, for a client that may
/// control it.
pub open spec fn takes_pointer(
    controls: bool,
    event: MouseEvent,
    canvas: DesktopSize,
    desktop: DesktopSize,
    before: (GateModel, SessionModel),
    after: (GateModel, SessionModel),
    outcome: InputOutcome,
) -> bool {
    if !before.0.state.snapshot().desktop_ready() {
        let step = before.0.state.mouse_step(event, before.0.other_owner(before.1));
        barrier_takes(step, desktop, before, after, outcome)
    } else {
        &&& after == before
        &&& controls ==> (outcome matches InputOutcome::InjectMouse(mapped, size) && mapped
            == mapped_event(event, canvas, desktop, before.0.state.presentation) && size
            == desktop)
        &&& !controls ==> outcome is Ignored
    }
}

/// Whether input reaches the desktop.
pub open spec fn reaches_desktop(outcome: InputOutcome) -> bool {
    outcome is InjectKeyboard || outcome is InjectMouse
}

/// Keys and the pointer reach the desktop exactly where it is open to a signed-in
/// client that may control it; before, the barrier takes them, and a client that may
/// only watch moves nothing.
pub proof fn law_input_reaches_an_open_desktop_only(
    controls: bool,
    key: KeyboardEvent,
    pointer: MouseEvent,
    canvas: DesktopSize,
    desktop: DesktopSize,
    before: (GateModel, SessionModel),
    after: (GateModel, SessionModel),
    outcome: InputOutcome,
)
    requires
        takes_key(controls, key, desktop, before, after, outcome) || takes_pointer(
            controls,
            pointer,
            canvas,
            desktop,
            before,
            after,
            outcome,
        ),
    ensures
        reaches_desktop(outcome) <==> before.0.state.snapshot().desktop_ready() && controls,
        reaches_desktop(outcome) ==> before.0.state.authenticated,
        outcome is Gate <==> !before.0.state.snapshot().desktop_ready(),
{
}

/// The pointer never leaves the canvas of its client.
pub proof fn law_pointer_stays_on_the_canvas(
    event: MouseEvent,
    canvas: DesktopSize,
    current: Option<(u16, u16)>,
)
    requires
        canvas.nonempty(),
    ensures
        tracked_position(event, canvas, current) matches Some((x, y)) ==> x < canvas.width && y
            < canvas.height,
{
}

/// Takes the events of one client.
pub struct HostInputHandler {
    allow_control: bool,
    pointer_position: Option<(u16, u16)>,
}

impl HostInputHandler {
    /// Whether the client may control the desktop.
    pub closed spec fn controls(self) -> bool {
        self.allow_control
    }

    /// Where the client's pointer is.
    pub closed spec fn pointer(self) -> Option<(u16, u16)> {
        self.pointer_position
    }

    /// A handler that has seen no event.
    pub fn new(allow_control: bool) -> (handler: Self)
        ensures
            handler.controls() == allow_control,
            handler.pointer() is None,
    {
        HostInputHandler { allow_control, pointer_position: None }
    }

    /// Takes a key.
    pub fn keyboard(
        &mut self,
        event: KeyboardEvent,
        gate: &mut AccessGate,
        hub: &FrameHub,
        sessions: &mut SessionCoordinator,
    ) -> (outcome: InputOutcome)
        ensures
            *final(self) == *old(self),
            reaches_desktop(outcome) <==> old(gate)@.state.snapshot().desktop_ready() && old(
                self,
            ).controls(),
            takes_key(
                old(self).controls(),
                event,
                hub@.size,
                (old(gate)@, old(sessions)@),
                (final(gate)@, final(sessions)@),
                outcome,
            ),
    {
        if !gate.is_desktop_ready() {
            InputOutcome::Gate(gate.handle_keyboard(&event, sessions, hub.size()))
        } else if self.allow_control {
            InputOutcome::InjectKeyboard(event)
        } else {
            InputOutcome::Ignored
        }
    }

    /// Takes a pointer event. The pointer is followed in any case; the barrier and
    /// the desktop see relative events as absolute ones at its place.
    pub fn mouse(
        &mut self,
        event: MouseEvent,
        gate: &mut AccessGate,
        hub: &mut FrameHub,
        sessions: &mut SessionCoordinator,
    ) -> (outcome: InputOutcome)
        requires
            has_place(event) && old(gate)@.state.snapshot().desktop_ready() && old(self).controls()
                && old(gate)@.state.presentation == Some(DesktopPresentation::Scale) ==> canvas_of(
                old(gate)@,
                old(hub)@,
            ).nonempty(),
        ensures
            final(self).controls() == old(self).controls(),
            ({
                let client = canvas_of(old(gate)@, old(hub)@);
                match tracked_position(event, client, old(self).pointer()) {
                    Some((x, y)) => final(self).pointer() == Some((x, y)) && final(hub)@
                        == old(hub)@.pointed(x, y),
                    None => final(self).pointer() == old(self).pointer() && final(hub)@
                        == old(hub)@,
                }
            }),
            reaches_desktop(outcome) <==> old(gate)@.state.snapshot().desktop_ready() && old(
                self,
            ).controls(),
            takes_pointer(
                old(self).controls(),
                match absolute_event(event, final(self).pointer()) {
                    Some(absolute) => absolute,
                    None => event,
                },
                canvas_of(old(gate)@, old(hub)@),
                old(hub)@.size,
                (old(gate)@, old(sessions)@),
                (final(gate)@, final(sessions)@),
                outcome,
            ),
    {
        let snapshot = gate.snapshot();
        let host_size = hub.size();
        let client_size = match snapshot.client_size() {
            Some(size) => size,
            None => host_size,
        };
        if let Some(position) = track_pointer_position(&event, client_size, self.pointer_position) {
            self.pointer_position = Some(position);
            hub.publish_pointer_position(position.0, position.1);
        }
        let seen = match normalized_pointer_event(&event, self.pointer_position) {
            Some(absolute) => absolute,
            None => event,
        };
        if !snapshot.is_desktop_ready() {
            InputOutcome::Gate(gate.handle_mouse(&seen, sessions, host_size))
        } else if self.allow_control {
            let mapped = map_mouse_event(seen, client_size, host_size, snapshot.presentation());
            InputOutcome::InjectMouse(mapped, host_size)
        } else {
            InputOutcome::Ignored
        }
    }
}

/// On a scaled desktop a button acts where the pointer is: it is mapped to the very place
/// to which a move is mapped, and stays the same button, pressed or released as before.
pub proof fn law_buttons_act_where_the_pointer_is(
    x: u16,
    y: u16,
    button: crate::events::MouseButton,
    pressed: bool,
    client: DesktopSize,
    host: DesktopSize,
    presentation: Option<DesktopPresentation>,
)
    ensures
        mapped_event(MouseEvent::Move { x, y }, client, host, presentation) matches MouseEvent::Move {
            x: to_x,
            y: to_y,
        } && mapped_event(
            MouseEvent::Button { x, y, button, pressed },
            client,
            host,
            presentation,
        ) == (MouseEvent::Button { x: to_x, y: to_y, button, pressed }),
{
}

/// On a scaled desktop the first pixel of the viewport is the desktop's first one and the
/// last its last one, in both directions; every pixel before or behind the viewport counts
/// as the nearest one in it, and pixels between go to the desktop in proportion, rounded
/// down. Each direction is mapped by itself.
pub proof fn law_scaled_pointer_reaches_every_edge(
    x: u16,
    y: u16,
    client: DesktopSize,
    host: DesktopSize,
)
    requires
        client.nonempty(),
        host.nonempty(),
    ensures
        ({
            let viewport = crate::frame::viewport_of(host, client);
            let mapped = mapped_event(
                MouseEvent::Move { x, y },
                client,
                host,
                Some(DesktopPresentation::Scale),
            );
            &&& mapped matches MouseEvent::Move { x: to_x, y: to_y }
            &&& to_x < host.width && to_y < host.height
            &&& x <= viewport.x ==> to_x == 0
            &&& y <= viewport.y ==> to_y == 0
            &&& viewport.width >= 2 && x >= viewport.x + viewport.width - 1 ==> to_x == host.width
                - 1
            &&& viewport.height >= 2 && y >= viewport.y + viewport.height - 1 ==> to_y
                == host.height - 1
            &&& viewport.width >= 2 && viewport.x <= x < viewport.x + viewport.width ==> to_x * (
            viewport.width - 1) <= (x - viewport.x) * (host.width - 1) < (to_x + 1) * (
            viewport.width - 1)
            &&& viewport.height >= 2 && viewport.y <= y < viewport.y + viewport.height ==> to_y * (
            viewport.height - 1) <= (y - viewport.y) * (host.height - 1) < (to_y + 1) * (
            viewport.height - 1)
        }),
{
    let viewport = crate::frame::viewport_of(host, client);
    lemma_axis_is_in_proportion(x, viewport.x, viewport.width, host.width);
    lemma_axis_is_in_proportion(y, viewport.y, viewport.height, host.height);
}

proof fn lemma_axis_is_in_proportion(value: u16, offset: u16, shown: u16, target: u16)
    requires
        target > 0,
    ensures
        ({
            let to = mapped_axis(value, offset, shown, target);
            &&& to < target
            &&& value <= offset ==> to == 0
            &&& shown >= 2 && value >= offset + shown - 1 ==> to == target - 1
            &&& shown >= 2 && offset <= value < offset + shown ==> to * (shown - 1) <= (value
                - offset) * (target - 1) < (to + 1) * (shown - 1)
        }),
{
    let span = if shown <= 2 { 1int } else { shown - 1 };
    let top = target - 1;
    let at = clamped(value - offset, span);
    let n = at * top;
    assert(0 <= n <= span * top) by (nonlinear_arith)
        requires
            0 <= at <= span,
            0 <= top,
            n == at * top,
    ;
    let q = n / span;
    vstd::arithmetic::div_mod::lemma_fundamental_div_mod(n, span);
    vstd::arithmetic::div_mod::lemma_mod_bound(n, span);
    assert(0 <= q <= top) by (nonlinear_arith)
        requires
            0 <= n <= span * top,
            n == span * q + n % span,
            0 <= n % span < span,
            span >= 1,
    ;
    assert(q * span <= n < (q + 1) * span) by (nonlinear_arith)
        requires
            n == span * q + n % span,
            0 <= n % span < span,
    ;
    if value <= offset {
        assert(n == 0) by (nonlinear_arith)
            requires
                at == 0,
                n == at * top,
        ;
        assert(q == 0) by (nonlinear_arith)
            requires
                q * span <= 0,
                0 <= q,
                span >= 1,
        ;
    }
    if shown >= 2 && value >= offset + shown - 1 {
        assert(q == top) by (nonlinear_arith)
            requires
                n == span * top,
                q * span <= n < (q + 1) * span,
                span >= 1,
        ;
    }
}

/// A desktop that is shown pixel by pixel gets every event as it is, and so does a scaled
/// one the turns of the wheels and movements by a distance.
pub proof fn law_other_events_are_left_alone(
    event: MouseEvent,
    client: DesktopSize,
    host: DesktopSize,
    presentation: Option<DesktopPresentation>,
)
    requires
        presentation != Some(DesktopPresentation::Scale) || !(event is Move || event is Button),
    ensures
        mapped_event(event, client, host, presentation) == event,
{
}

/// The pointer of a client is where its absolute events say, moved onto the canvas, and
/// goes by the distance that relative ones say, as far as the canvas reaches; a first
/// relative event starts in the middle. A wheel moves it nowhere.
pub proof fn law_pointer_follows_the_client(
    x: u16,
    y: u16,
    dx: i32,
    dy: i32,
    button: crate::events::MouseButton,
    pressed: bool,
    client: DesktopSize,
    current: Option<(u16, u16)>,
    at: (u16, u16),
    value: i16,
)
    requires
        client.nonempty(),
        at.0 < client.width && at.1 < client.height,
    ensures
        x < client.width && y < client.height ==> tracked_position(
            MouseEvent::Move { x, y },
            client,
            current,
        ) == Some((x, y)),
        tracked_position(MouseEvent::Button { x, y, button, pressed }, client, current)
            == tracked_position(MouseEvent::Move { x, y }, client, current),
        tracked_position(MouseEvent::Move { x, y }, client, current) matches Some((to_x, to_y)) && (
        x >= client.width ==> to_x == client.width - 1) && (y >= client.height ==> to_y
            == client.height - 1),
        tracked_position(MouseEvent::ButtonRel { x: dx, y: dy, button, pressed }, client, current)
            == tracked_position(MouseEvent::RelMove { x: dx, y: dy }, client, current),
        tracked_position(MouseEvent::RelMove { x: dx, y: dy }, client, Some(at)) matches Some(
            (to_x, to_y),
        ) && (0 <= at.0 + dx < client.width ==> to_x == at.0 + dx) && (0 <= at.1 + dy
            < client.height ==> to_y == at.1 + dy) && (at.0 + dx < 0 ==> to_x == 0) && (at.1 + dy
            < 0 ==> to_y == 0) && (at.0 + dx >= client.width ==> to_x == client.width - 1) && (at.1
            + dy >= client.height ==> to_y == client.height - 1),
        tracked_position(MouseEvent::RelMove { x: dx, y: dy }, client, None) == tracked_position(
            MouseEvent::RelMove { x: dx, y: dy },
            client,
            Some((((client.width - 1) / 2) as u16, ((client.height - 1) / 2) as u16)),
        ),
        tracked_position(MouseEvent::VerticalScroll { value }, client, current) is None,
        tracked_position(MouseEvent::HorizontalScroll { value }, client, current) is None,
        tracked_position(MouseEvent::Scroll { x: dx, y: dy }, client, current) is None,
{
}

/// A relative event is taken as the absolute one of its kind at the pointer's place; every
/// other event is taken as it is.
pub proof fn law_relative_events_become_absolute(
    event: MouseEvent,
    dx: i32,
    dy: i32,
    button: crate::events::MouseButton,
    pressed: bool,
    at: (u16, u16),
)
    ensures
        absolute_event(MouseEvent::RelMove { x: dx, y: dy }, Some(at)) == Some(
            MouseEvent::Move { x: at.0, y: at.1 },
        ),
        absolute_event(MouseEvent::ButtonRel { x: dx, y: dy, button, pressed }, Some(at)) == Some(
            MouseEvent::Button { x: at.0, y: at.1, button, pressed },
        ),
        !(event is RelMove) && !(event is ButtonRel) ==> absolute_event(event, Some(at)) is None,
        absolute_event(event, None) is None,
{
}

/// A client that may control an open desktop moves its pointer there, by the same event and
/// where it points at; the barrier stays as it is. Keys go there as they are.
pub proof fn law_open_desktop_gets_the_event(
    key: KeyboardEvent,
    pointer: MouseEvent,
    canvas: DesktopSize,
    desktop: DesktopSize,
    before: (GateModel, SessionModel),
    after: (GateModel, SessionModel),
    outcome: InputOutcome,
)
    requires
        before.0.state.snapshot().desktop_ready(),
    ensures
        takes_key(true, key, desktop, before, after, outcome) ==> after == before && outcome
            == InputOutcome::InjectKeyboard(key),
        takes_pointer(true, pointer, canvas, desktop, before, after, outcome) ==> after == before
            && outcome == InputOutcome::InjectMouse(
            mapped_event(pointer, canvas, desktop, before.0.state.presentation),
            desktop,
        ),
        takes_key(false, key, desktop, before, after, outcome) ==> after == before
            && outcome is Ignored,
        takes_pointer(false, pointer, canvas, desktop, before, after, outcome) ==> after == before
            && outcome is Ignored,
{
}

/// Exactly moves and buttons have a place.
pub proof fn law_wheels_have_no_place(event: MouseEvent)
    ensures
        !has_place(event) <==> event is VerticalScroll || event is HorizontalScroll
            || event is Scroll,
{
}

} // verus!
