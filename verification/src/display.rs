//! The desktop that is shared, and the stream of updates that a client gets.

use vstd::prelude::*;

use crate::access::{AccessAction, AccessGate, GateModel};
use crate::bitmap::placeholder_frame;
use crate::platform::{CapturedFrame, DesktopSize, FrameModel};
use crate::session::{SessionCoordinator, SessionModel};

verus! {

/// The milliseconds after which a waiting access screen is painted again.
pub const ACCESS_REFRESH_MILLISECONDS: u64 = 1000;

/// The milliseconds for which requests for another display size must pause before the
/// latest one is applied.
pub const DYNAMIC_RESIZE_DEBOUNCE_MILLISECONDS: u64 = 450;

/// Whether a size comes before another one in a list of display modes: by the
/// number of pixels, then by the width, then by the height.
pub open spec fn size_before(a: DesktopSize, b: DesktopSize) -> bool {
    ||| a.pixels() < b.pixels()
    ||| a.pixels() == b.pixels() && a.width < b.width
    ||| a.pixels() == b.pixels() && a.width == b.width && a.height < b.height
}

/// Whether a list of sizes is in order, without duplicates.
pub open spec fn in_order(sizes: Seq<DesktopSize>) -> bool {
    forall|i: int, j: int|
        0 <= i < j < sizes.len() ==> size_before(#[trigger] sizes[i], #[trigger] sizes[j])
}

/// Whether `after` lists the sizes of `before` that are not empty, in order and
/// each once.
pub open spec fn normalized(before: Seq<DesktopSize>, after: Seq<DesktopSize>) -> bool {
    &&& in_order(after)
    &&& forall|size: DesktopSize| #[trigger]
        after.contains(size) <==> before.contains(size) && size.nonempty()
}

fn comes_before(a: DesktopSize, b: DesktopSize) -> (before: bool)
    ensures
        before == size_before(a, b),
{
    assert(0 <= a.width * a.height <= 0xffff * 0xffff && 0 <= b.width * b.height <= 0xffff
        * 0xffff) by (nonlinear_arith)
        requires
            a.width <= 0xffff,
            a.height <= 0xffff,
            b.width <= 0xffff,
            b.height <= 0xffff,
    ;
    let first: u32 = a.width as u32 * a.height as u32;
    let second: u32 = b.width as u32 * b.height as u32;
    first < second || (first == second && (a.width < b.width || (a.width == b.width && a.height
        < b.height)))
}

/// Puts a size into its place of an ordered list, unless it is there already.
pub(crate) fn insert_size(sizes: &mut Vec<DesktopSize>, size: DesktopSize)
    requires
        in_order(old(sizes)@),
    ensures
        in_order(final(sizes)@),
        forall|other: DesktopSize| #[trigger]
            final(sizes)@.contains(other) <==> old(sizes)@.contains(other) || other == size,
{
    let ghost before = sizes@;
    let mut at: usize = 0;
    while at < sizes.len() && comes_before(sizes[at], size)
        invariant
            at <= sizes@.len(),
            sizes@ == before,
            forall|i: int| 0 <= i < at ==> size_before(#[trigger] sizes@[i], size),
        decreases sizes@.len() - at,
    {
        at = at + 1;
    }
    if at < sizes.len() && sizes[at] == size {
        assert(before.contains(before[at as int]));
        return;
    }
    sizes.insert(at, size);
    proof {
        let after = sizes@;
        assert(after[at as int] == size);
        assert forall|other: DesktopSize| #[trigger] after.contains(other) <==> before.contains(
            other,
        ) || other == size by {
            if before.contains(other) {
                let i = choose|i: int| 0 <= i < before.len() && before[i] == other;
                if i < at {
                    assert(after[i] == other);
                } else {
                    assert(after[i + 1] == other);
                }
            }
            if after.contains(other) {
                let i = choose|i: int| 0 <= i < after.len() && after[i] == other;
                if i < at {
                    assert(before[i] == other);
                } else if i > at {
                    assert(before[i - 1] == other);
                }
            }
        }
        assert forall|i: int, j: int| 0 <= i < j < after.len() implies size_before(
            #[trigger] after[i],
            #[trigger] after[j],
        ) by {
            if at < before.len() {
                assert(size_before(size, before[at as int]));
            }
            if i < at {
                if j > at {
                    assert(size_before(before[i], before[j - 1]));
                }
            } else if i == at {
                if j - 1 > at {
                    assert(size_before(before[at as int], before[j - 1]));
                    lemma_size_before_transitive(size, before[at as int], before[j - 1]);
                }
            } else {
                assert(size_before(before[i - 1], before[j - 1]));
            }
        }
    }
}

proof fn lemma_size_before_transitive(a: DesktopSize, b: DesktopSize, c: DesktopSize)
    requires
        size_before(a, b),
        size_before(b, c),
    ensures
        size_before(a, c),
{
}

/// Lists display modes in order, each once, without empty ones.
pub fn normalize_display_sizes(sizes: &Vec<DesktopSize>) -> (ordered: Vec<DesktopSize>)
    ensures
        normalized(sizes@, ordered@),
{
    let mut ordered: Vec<DesktopSize> = Vec::new();
    let mut i: usize = 0;
    while i < sizes.len()
        invariant
            i <= sizes@.len(),
            in_order(ordered@),
            forall|size: DesktopSize| #[trigger]
                ordered@.contains(size) <==> sizes@.take(i as int).contains(size)
                    && size.nonempty(),
        decreases sizes@.len() - i,
    {
        let size = sizes[i];
        let ghost before = ordered@;
        if size.width > 0 && size.height > 0 {
            insert_size(&mut ordered, size);
        }
        proof {
            let earlier = sizes@.take(i as int);
            let now = sizes@.take(i + 1);
            assert(now =~= earlier.push(size));
            assert forall|other: DesktopSize| #[trigger] now.contains(other) <==> earlier.contains(
                other,
            ) || other == size by {
                if earlier.contains(other) {
                    let k = choose|k: int| 0 <= k < earlier.len() && earlier[k] == other;
                    assert(now[k] == other);
                }
                assert(now[i as int] == size);
            }
        }
        i = i + 1;
    }
    assert(sizes@.take(sizes@.len() as int) =~= sizes@);
    ordered
}

/// A list of display modes is determined by its members: whatever the order in
/// which modes are reported, the normalised list is the same.
pub proof fn law_normalized_is_unique(
    before: Seq<DesktopSize>,
    first: Seq<DesktopSize>,
    second: Seq<DesktopSize>,
)
    requires
        normalized(before, first),
        normalized(before, second),
    ensures
        first == second,
{
    assert forall|size: DesktopSize| #[trigger] first.contains(size) <==> second.contains(
        size,
    ) by {}
    lemma_ordered_lists_agree(first, second);
}

proof fn lemma_ordered_lists_agree(first: Seq<DesktopSize>, second: Seq<DesktopSize>)
    requires
        in_order(first),
        in_order(second),
        forall|size: DesktopSize| #[trigger] first.contains(size) <==> second.contains(size),
    ensures
        first == second,
    decreases first.len(),
{
    if first.len() == 0 {
        if second.len() > 0 {
            assert(second.contains(second[0]));
            assert(first.contains(second[0]));
        }
        assert(first =~= second);
    } else {
        assert(first.contains(first.last()));
        assert(second.contains(first.last()));
        assert(second.contains(second.last()));
        assert(first.contains(second.last()));
        let i = choose|i: int| 0 <= i < second.len() && second[i] == first.last();
        let j = choose|j: int| 0 <= j < first.len() && first[j] == second.last();
        if i < second.len() - 1 {
            assert(size_before(second[i], second[second.len() - 1]));
            if j < first.len() - 1 {
                assert(size_before(first[j], first[first.len() - 1]));
            }
        }
        assert(first.last() == second.last());
        let shorter = first.drop_last();
        let other = second.drop_last();
        lemma_members_without_last(first);
        lemma_members_without_last(second);
        assert forall|size: DesktopSize| #[trigger] shorter.contains(size) <==> other.contains(
            size,
        ) by {
            assert(first.contains(size) <==> second.contains(size));
        }
        lemma_ordered_lists_agree(shorter, other);
        assert(first =~= shorter.push(first.last()));
        assert(second =~= other.push(second.last()));
    }
}

proof fn lemma_members_without_last(sizes: Seq<DesktopSize>)
    requires
        in_order(sizes),
        sizes.len() > 0,
    ensures
        in_order(sizes.drop_last()),
        forall|size: DesktopSize| #[trigger]
            sizes.drop_last().contains(size) <==> sizes.contains(size) && size != sizes.last(),
{
    let shorter = sizes.drop_last();
    assert forall|size: DesktopSize| #[trigger] shorter.contains(size) <==> sizes.contains(size)
        && size != sizes.last() by {
        if shorter.contains(size) {
            let i = choose|i: int| 0 <= i < shorter.len() && shorter[i] == size;
            assert(sizes[i] == size);
            assert(size_before(sizes[i], sizes[sizes.len() - 1]));
        }
        if sizes.contains(size) && size != sizes.last() {
            let i = choose|i: int| 0 <= i < sizes.len() && sizes[i] == size;
            assert(shorter[i] == size);
        }
    }
}

/// The desktop that is shared, as mathematical values. A revision changes
/// whenever the value beside it is replaced.
#[verifier::ext_equal]
pub struct HubModel {
    pub frame: FrameModel,
    pub frame_revision: u64,
    pub size: DesktopSize,
    pub size_revision: u64,
    pub supported: Seq<DesktopSize>,
    pub supported_revision: u64,
    pub available: bool,
    pub available_revision: u64,
    pub pointer: Option<(u16, u16)>,
    pub pointer_revision: u64,
    /// Changes whenever the availability is settled anew.
    pub generation: u64,
}

/// The revision after `revision`.
pub open spec fn after_revision(revision: u64) -> u64 {
    revision.wrapping_add(1)
}

/// The revision of a value that is replaced only if it differs.
pub open spec fn revised(revision: u64, changes: bool) -> u64 {
    if changes {
        after_revision(revision)
    } else {
        revision
    }
}

impl HubModel {
    /// A hub without frames: a placeholder of the given size, the only mode.
    pub open spec fn initial(size: DesktopSize, available: bool) -> HubModel {
        HubModel {
            frame: FrameModel {
                size,
                rgba: Seq::new(
                    size.pixels() * 4,
                    |i: int| crate::bitmap::placeholder_byte(size, i),
                ),
            },
            frame_revision: 0,
            size,
            size_revision: 0,
            supported: seq![size],
            supported_revision: 0,
            available,
            available_revision: 0,
            pointer: None,
            pointer_revision: 0,
            generation: 0,
        }
    }

    /// Whether `next` is the hub after a frame was published: it is the latest
    /// one, its size is the desktop's and one of the modes, the desktop is
    /// available, and a pending loss of the desktop is called off.
    pub open spec fn published(self, frame: FrameModel, next: HubModel) -> bool {
        let known = self.supported.contains(frame.size);
        &&& next.frame == frame
        &&& next.frame_revision == after_revision(self.frame_revision)
        &&& next.size == frame.size
        &&& next.size_revision == revised(self.size_revision, self.size != frame.size)
        &&& if known {
            next.supported == self.supported
        } else {
            normalized(self.supported.push(frame.size), next.supported)
        }
        &&& next.supported_revision == revised(self.supported_revision, !known)
        &&& next.available
        &&& next.available_revision == revised(self.available_revision, !self.available)
        &&& next.pointer == self.pointer
        &&& next.pointer_revision == self.pointer_revision
        &&& next.generation == after_revision(self.generation)
    }

    /// Whether `next` is the hub after the display reported its size and modes.
    pub open spec fn reported(
        self,
        size: DesktopSize,
        modes: Seq<DesktopSize>,
        next: HubModel,
    ) -> bool {
        &&& normalized(
            if modes.contains(size) {
                modes
            } else {
                modes.push(size)
            },
            next.supported,
        )
        &&& next == (HubModel {
            size,
            size_revision: revised(self.size_revision, self.size != size),
            supported: next.supported,
            supported_revision: after_revision(self.supported_revision),
            ..self
        })
    }

    /// The hub after its availability was settled.
    pub open spec fn settled(self, available: bool) -> HubModel {
        HubModel {
            available,
            available_revision: revised(self.available_revision, self.available != available),
            generation: after_revision(self.generation),
            ..self
        }
    }

    /// The hub while the loss of the desktop is pending.
    pub open spec fn losing(self) -> HubModel {
        HubModel { generation: after_revision(self.generation), ..self }
    }

    /// The hub after the grace period that began in the given generation.
    pub open spec fn expired(self, generation: u64) -> HubModel {
        if self.generation == generation && self.available {
            HubModel {
                available: false,
                available_revision: after_revision(self.available_revision),
                ..self
            }
        } else {
            self
        }
    }

    /// The hub after the pointer was seen at a place.
    pub open spec fn pointed(self, x: u16, y: u16) -> HubModel {
        HubModel {
            pointer: Some((x, y)),
            pointer_revision: revised(self.pointer_revision, self.pointer != Some((x, y))),
            ..self
        }
    }
}

/// The desktop that is shared among the connections.
pub struct FrameHub {
    frame: CapturedFrame,
    frame_revision: u64,
    size: DesktopSize,
    size_revision: u64,
    supported_sizes: Vec<DesktopSize>,
    supported_revision: u64,
    available: bool,
    available_revision: u64,
    pointer: Option<(u16, u16)>,
    pointer_revision: u64,
    availability_generation: u64,
}

impl View for FrameHub {
    type V = HubModel;

    closed spec fn view(&self) -> HubModel {
        HubModel {
            frame: self.frame.model(),
            frame_revision: self.frame_revision,
            size: self.size,
            size_revision: self.size_revision,
            supported: self.supported_sizes@,
            supported_revision: self.supported_revision,
            available: self.available,
            available_revision: self.available_revision,
            pointer: self.pointer,
            pointer_revision: self.pointer_revision,
            generation: self.availability_generation,
        }
    }
}

pub(crate) fn lists(sizes: &Vec<DesktopSize>, size: DesktopSize) -> (found: bool)
    ensures
        found == sizes@.contains(size),
{
    let mut i: usize = 0;
    while i < sizes.len()
        invariant
            i <= sizes@.len(),
            forall|k: int| 0 <= k < i ==> sizes@[k] != size,
        decreases sizes@.len() - i,
    {
        if sizes[i] == size {
            assert(sizes@[i as int] == size);
            return true;
        }
        i = i + 1;
    }
    false
}

impl FrameHub {
    /// A hub whose desktop is available.
    pub fn new(size: DesktopSize) -> (hub: Self)
        ensures
            hub@ == HubModel::initial(size, true),
    {
        FrameHub::with_availability(size, true)
    }

    /// A hub whose desktop is not available yet.
    pub fn new_unavailable(size: DesktopSize) -> (hub: Self)
        ensures
            hub@ == HubModel::initial(size, false),
    {
        FrameHub::with_availability(size, false)
    }

    fn with_availability(size: DesktopSize, available: bool) -> (hub: Self)
        ensures
            hub@ == HubModel::initial(size, available),
    {
        let mut supported_sizes: Vec<DesktopSize> = Vec::new();
        supported_sizes.push(size);
        assert(supported_sizes@ =~= seq![size]);
        FrameHub {
            frame: CapturedFrame {
                width: size.width,
                height: size.height,
                rgba: placeholder_frame(size),
            },
            frame_revision: 0,
            size,
            size_revision: 0,
            supported_sizes,
            supported_revision: 0,
            available,
            available_revision: 0,
            pointer: None,
            pointer_revision: 0,
            availability_generation: 0,
        }
    }

    /// Takes the latest frame of the desktop.
    pub fn publish(&mut self, frame: CapturedFrame)
        ensures
            old(self)@.published(frame.model(), final(self)@),
    {
        let size = frame.size();
        if self.size != size {
            self.size = size;
            self.size_revision = self.size_revision.wrapping_add(1);
        }
        if !lists(&self.supported_sizes, size) {
            self.supported_sizes.push(size);
            self.supported_sizes = normalize_display_sizes(&self.supported_sizes);
            self.supported_revision = self.supported_revision.wrapping_add(1);
        }
        self.availability_generation = self.availability_generation.wrapping_add(1);
        self.frame = frame;
        self.frame_revision = self.frame_revision.wrapping_add(1);
        if !self.available {
            self.available = true;
            self.available_revision = self.available_revision.wrapping_add(1);
        }
    }

    /// The latest frame, or the placeholder before the first one.
    pub fn frame(&self) -> (frame: &CapturedFrame)
        ensures
            frame.model() == self@.frame,
    {
        &self.frame
    }

    /// The size of the desktop.
    pub fn size(&self) -> (size: DesktopSize)
        ensures
            size == self@.size,
    {
        self.size
    }

    /// The modes of the display.
    pub fn supported_sizes(&self) -> (sizes: Vec<DesktopSize>)
        ensures
            sizes@ == self@.supported,
    {
        let sizes = self.supported_sizes.clone();
        assert(sizes@ =~= self.supported_sizes@);
        sizes
    }

    /// Takes the size and the modes that the display reports.
    pub fn set_display_capabilities(
        &mut self,
        current_size: DesktopSize,
        supported_sizes: Vec<DesktopSize>,
    )
        ensures
            old(self)@.reported(current_size, supported_sizes@, final(self)@),
    {
        let mut modes = supported_sizes;
        if self.size != current_size {
            self.size = current_size;
            self.size_revision = self.size_revision.wrapping_add(1);
        }
        if !lists(&modes, current_size) {
            modes.push(current_size);
        }
        self.supported_sizes = normalize_display_sizes(&modes);
        self.supported_revision = self.supported_revision.wrapping_add(1);
    }

    /// Whether the desktop is available.
    pub fn is_available(&self) -> (available: bool)
        ensures
            available == self@.available,
    {
        self.available
    }

    /// Settles whether the desktop is available.
    pub fn set_available(&mut self, available: bool)
        ensures
            final(self)@ == old(self)@.settled(available),
    {
        self.availability_generation = self.availability_generation.wrapping_add(1);
        if self.available != available {
            self.available = available;
            self.available_revision = self.available_revision.wrapping_add(1);
        }
    }

    /// Begins a grace period at whose end the desktop is lost: the latest frame
    /// stays available meanwhile. Returns the generation to be handed to
    /// `expire_grace_period` then.
    pub fn set_unavailable_after(&mut self) -> (generation: u64)
        ensures
            final(self)@ == old(self)@.losing(),
            generation == final(self)@.generation,
    {
        self.availability_generation = self.availability_generation.wrapping_add(1);
        self.availability_generation
    }

    /// Ends a grace period: the desktop is lost unless its availability was
    /// settled since.
    pub fn expire_grace_period(&mut self, generation: u64)
        ensures
            final(self)@ == old(self)@.expired(generation),
    {
        if self.availability_generation == generation && self.available {
            self.available = false;
            self.available_revision = self.available_revision.wrapping_add(1);
        }
    }

    /// Notes where a client has its pointer.
    pub fn publish_pointer_position(&mut self, x: u16, y: u16)
        ensures
            final(self)@ == old(self)@.pointed(x, y),
    {
        let same = match self.pointer {
            Some((old_x, old_y)) => old_x == x && old_y == y,
            None => false,
        };
        if !same {
            self.pointer = Some((x, y));
            self.pointer_revision = self.pointer_revision.wrapping_add(1);
        }
    }

    /// The revision of the frame.
    pub fn frame_revision(&self) -> (revision: u64)
        ensures
            revision == self@.frame_revision,
    {
        self.frame_revision
    }

    /// The revision of the size.
    pub fn size_revision(&self) -> (revision: u64)
        ensures
            revision == self@.size_revision,
    {
        self.size_revision
    }

    /// The revision of the modes.
    pub fn supported_revision(&self) -> (revision: u64)
        ensures
            revision == self@.supported_revision,
    {
        self.supported_revision
    }

    /// The revision of the availability.
    pub fn available_revision(&self) -> (revision: u64)
        ensures
            revision == self@.available_revision,
    {
        self.available_revision
    }

    /// The revision of the pointer's place.
    pub fn pointer_revision(&self) -> (revision: u64)
        ensures
            revision == self@.pointer_revision,
    {
        self.pointer_revision
    }

    /// Where the pointer was seen last.
    pub fn pointer_position(&self) -> (position: Option<(u16, u16)>)
        ensures
            position == self@.pointer,
    {
        self.pointer
    }
}

/// A frame that arrives during the grace period keeps the desktop available: the
/// end of that period changes nothing.
pub proof fn law_frame_calls_off_the_loss(hub: HubModel, frame: FrameModel, next: HubModel)
    requires
        hub.losing().published(frame, next),
    ensures
        next.expired(hub.losing().generation) == next,
        next.available,
{
}

/// Without such a frame the desktop is lost at the end of the grace period.
pub proof fn law_missing_agent_loses_the_desktop(hub: HubModel)
    ensures
        hub.losing().available == hub.available,
        !hub.losing().expired(hub.losing().generation).available,
{
}

/// The latest frame, its size and the availability follow a published frame even
/// if nobody watches.
pub proof fn law_latest_frame_is_kept(hub: HubModel, frame: FrameModel, next: HubModel)
    requires
        hub.published(frame, next),
    ensures
        next.frame == frame,
        next.size == frame.size,
        next.available,
        hub.supported.contains(frame.size) || frame.size.nonempty() ==> next.supported.contains(
            frame.size,
        ),
{
    if !hub.supported.contains(frame.size) && frame.size.nonempty() {
        let pushed = hub.supported.push(frame.size);
        assert(pushed[pushed.len() - 1] == frame.size);
        assert(pushed.contains(frame.size));
    }
}

/// One monitor of a client's layout.
#[derive(Clone, Copy, Debug, PartialEq, Eq, Structural)]
pub struct MonitorLayout {
    pub primary: bool,
    pub width: u32,
    pub height: u32,
}

/// What became of a client's request for another layout.
#[derive(Clone, Copy, Debug, PartialEq, Eq, Structural)]
pub enum LayoutOutcome {
    /// Only one primary monitor can be resized.
    Unsupported,
    /// The size does not fit the protocol.
    OutOfRange,
    /// The canvas has the size already.
    Unchanged,
    /// The canvas is resized, and possibly the display.
    Resized(Option<AccessAction>),
}

/// The canvas of one connection, as mathematical values.
#[verifier::ext_equal]
pub struct DisplayModel {
    pub client_size: DesktopSize,
    pub client_revision: u64,
    /// A size that the client asked for, with the generation of its connection.
    pub pending: Option<(u64, DesktopSize)>,
}

impl DisplayModel {
    /// The size that a handshake settles: the pending size of the same connection,
    /// otherwise the one of the handshake.
    pub open spec fn handshake(self, size: DesktopSize, generation: u64) -> DesktopSize {
        match self.pending {
            Some((pending_generation, pending_size)) => if pending_generation == generation {
                pending_size
            } else {
                size
            },
            None => size,
        }
    }

    /// The canvas with another size.
    pub open spec fn sized(self, size: DesktopSize) -> DisplayModel {
        DisplayModel {
            client_size: size,
            client_revision: after_revision(self.client_revision),
            ..self
        }
    }

    /// The size that a layout asks for.
    pub open spec fn requested(monitors: Seq<MonitorLayout>) -> DesktopSize {
        DesktopSize { width: monitors[0].width as u16, height: monitors[0].height as u16 }
    }

    /// What becomes of a request, but for the change of the display.
    pub open spec fn layout_outcome(
        self,
        monitors: Seq<MonitorLayout>,
        action: Option<AccessAction>,
    ) -> LayoutOutcome {
        if monitors.len() != 1 || !monitors[0].primary {
            LayoutOutcome::Unsupported
        } else if monitors[0].width > u16::MAX || monitors[0].height > u16::MAX {
            LayoutOutcome::OutOfRange
        } else if self.client_size == DisplayModel::requested(monitors) {
            LayoutOutcome::Unchanged
        } else {
            LayoutOutcome::Resized(action)
        }
    }
}

/// The canvas of one connection.
pub struct RdpDisplay {
    client_size: DesktopSize,
    client_revision: u64,
    pending_layout: Option<(u64, DesktopSize)>,
}

impl View for RdpDisplay {
    type V = DisplayModel;

    closed spec fn view(&self) -> DisplayModel {
        DisplayModel {
            client_size: self.client_size,
            client_revision: self.client_revision,
            pending: self.pending_layout,
        }
    }
}

impl RdpDisplay {
    /// A canvas of the desktop's size.
    pub fn new(hub: &FrameHub) -> (display: Self)
        ensures
            display@ == (DisplayModel { client_size: hub@.size, client_revision: 0, pending: None }),
    {
        RdpDisplay { client_size: hub.size(), client_revision: 0, pending_layout: None }
    }

    /// The size of the canvas.
    pub fn size(&self) -> (size: DesktopSize)
        ensures
            size == self@.client_size,
    {
        self.client_size
    }

    /// A number that changes whenever the canvas gets a size.
    pub fn revision(&self) -> (revision: u64)
        ensures
            revision == self@.client_revision,
    {
        self.client_revision
    }

    /// Settles the size of the canvas in a handshake. While a connection changes
    /// its canvas, the client may repeat the old size: the newer request of the
    /// same connection prevails.
    pub fn request_initial_size(
        &mut self,
        client_size: DesktopSize,
        gate: &mut AccessGate,
        hub: &FrameHub,
        sessions: &SessionCoordinator,
    ) -> (size: DesktopSize)
        ensures
            size == old(self)@.handshake(client_size, old(gate)@.state.generation),
            final(self)@ == (DisplayModel { pending: None, ..old(self)@.sized(size) }),
            final(gate)@ == synced(old(gate)@, size, hub@, sessions@),
    {
        let generation: u64 = gate.connection_generation();
        let size = match self.pending_layout.take() {
            Some((pending_generation, pending_size)) => if pending_generation == generation {
                pending_size
            } else {
                client_size
            },
            None => client_size,
        };
        self.client_size = size;
        self.client_revision = self.client_revision.wrapping_add(1);
        gate.set_display_state(size, hub.size(), hub.is_available(), sessions);
        size
    }

    /// Handles a client's request for another layout.
    pub fn request_layout(
        &mut self,
        monitors: &Vec<MonitorLayout>,
        gate: &mut AccessGate,
        sessions: &SessionCoordinator,
    ) -> (outcome: LayoutOutcome)
        ensures
            ({
                let requested = DisplayModel::requested(monitors@);
                let owns = old(gate)@.owns_display(sessions@);
                let action = old(gate)@.state.resize_action(requested, owns);
                &&& outcome == old(self)@.layout_outcome(monitors@, action)
                &&& if outcome is Resized {
                    &&& final(self)@ == (DisplayModel {
                        pending: Some((old(gate)@.state.generation, requested)),
                        ..old(self)@.sized(requested)
                    })
                    &&& final(gate)@ == old(gate)@.updated(
                        old(gate)@.state.after_client_resize(requested, owns),
                    )
                } else {
                    final(self)@ == old(self)@ && final(gate)@ == old(gate)@
                }
            }),
    {
        if monitors.len() != 1 || !monitors[0].primary {
            return LayoutOutcome::Unsupported;
        }
        let monitor = monitors[0];
        if monitor.width > 0xffff || monitor.height > 0xffff {
            return LayoutOutcome::OutOfRange;
        }
        let requested = DesktopSize { width: monitor.width as u16, height: monitor.height as u16 };
        if self.client_size == requested {
            return LayoutOutcome::Unchanged;
        }
        self.pending_layout = Some((gate.connection_generation(), requested));
        // The canvas is resized first: the old stream of updates ends before a
        // repaint of the access screen can aim at the new canvas.
        self.client_size = requested;
        self.client_revision = self.client_revision.wrapping_add(1);
        LayoutOutcome::Resized(gate.request_client_resize(requested, sessions))
    }
}

/// The barrier after it was told the sizes of the canvas and the desktop.
pub open spec fn synced(
    gate: GateModel,
    client: DesktopSize,
    hub: HubModel,
    sessions: SessionModel,
) -> GateModel {
    gate.updated(
        gate.state.after_display_state(
            client,
            hub.size,
            hub.available,
            gate.other_owner(sessions),
        ),
    )
}

/// A size that one connection asked for does not reach the next one: after a reset
/// of the barrier the handshake's own size is taken.
pub proof fn law_stale_layout_is_dropped(
    display: DisplayModel,
    gate: GateModel,
    requested: DesktopSize,
    size: DesktopSize,
)
    requires
        display.pending == Some((gate.state.generation, requested)),
    ensures
        display.handshake(size, gate.state.after_reset().generation) == size,
{
}

/// A size that the same connection asked for prevails over the one that the client
/// repeats in the handshake.
pub proof fn law_requested_layout_survives_reactivation(
    display: DisplayModel,
    gate: GateModel,
    requested: DesktopSize,
    size: DesktopSize,
)
    requires
        display.pending == Some((gate.state.generation, requested)),
    ensures
        display.handshake(size, gate.state.generation) == requested,
{
}

/// Collects requests for another display size until they pause.
pub struct ResizeDebounce {
    target: Option<DesktopSize>,
}

impl ResizeDebounce {
    /// The size that was asked for last.
    pub closed spec fn latest(self) -> Option<DesktopSize> {
        self.target
    }

    /// No request yet.
    pub fn new() -> (debounce: Self)
        ensures
            debounce.latest() is None,
    {
        ResizeDebounce { target: None }
    }

    /// Takes a request, which replaces an earlier one.
    pub fn request(&mut self, size: DesktopSize)
        ensures
            final(self).latest() == Some(size),
    {
        self.target = Some(size);
    }

    /// The size to apply after requests have paused: the latest one, unless the
    /// client that asked for it is gone or wants it no more.
    pub fn settle(&mut self, gate: &AccessGate, sessions: &SessionCoordinator) -> (apply: Option<
        DesktopSize,
    >)
        ensures
            final(self).latest() is None,
            apply == match old(self).latest() {
                Some(size) => if gate@.state.follows(size, gate@.owns_display(sessions@)) {
                    Some(size)
                } else {
                    None
                },
                None => None,
            },
    {
        match self.target.take() {
            Some(size) => if gate.should_follow_client_size(size, sessions) {
                Some(size)
            } else {
                None
            },
            None => None,
        }
    }
}

/// A size that is still waiting when a connection ends is never applied: after a reset
/// of the barrier the display follows nobody.
pub proof fn law_waiting_size_ends_with_the_connection(
    gate: GateModel,
    size: DesktopSize,
    owns_display: bool,
)
    ensures
        !gate.state.after_reset().follows(size, owns_display),
{
}

/// Display sizes are ordered by their pixels, those of as many by their width and then
/// their height; of two different sizes exactly one comes first, and the order goes on.
pub proof fn law_sizes_are_in_one_order(a: DesktopSize, b: DesktopSize, c: DesktopSize)
    ensures
        a.width * a.height < b.width * b.height ==> size_before(a, b),
        a.width * a.height == b.width * b.height && a.width < b.width ==> size_before(a, b),
        size_before(a, b) ==> !size_before(b, a),
        size_before(a, b) || size_before(b, a) || a == b,
        !size_before(a, a),
        size_before(a, b) && size_before(b, c) ==> size_before(a, c),
{
}

/// The list of display sizes holds every size that was given once, but for empty ones, and
/// nothing else, the smallest first.
pub proof fn law_listed_sizes_are_the_given_ones(
    before: Seq<DesktopSize>,
    after: Seq<DesktopSize>,
    size: DesktopSize,
    i: int,
    j: int,
)
    requires
        normalized(before, after),
    ensures
        after.contains(size) <==> before.contains(size) && size.width > 0 && size.height > 0,
        0 <= i < j < after.len() ==> after[i] != after[j] && after[i].width * after[i].height
            <= after[j].width * after[j].height,
{
}

/// A frame that is published is noticed, by a revision of its own; a size, a list of sizes
/// or an availability is noticed exactly where it changes.
pub proof fn law_changes_are_noticed(hub: HubModel, frame: FrameModel, next: HubModel)
    requires
        hub.published(frame, next),
    ensures
        next.frame_revision != hub.frame_revision,
        (next.size_revision != hub.size_revision) == (hub.size != frame.size),
        (next.supported_revision != hub.supported_revision) == !hub.supported.contains(frame.size),
        (next.available_revision != hub.available_revision) == !hub.available,
        next.pointer == hub.pointer && next.pointer_revision == hub.pointer_revision,
        next.generation != hub.generation,
        hub.supported.contains(frame.size) ==> next.supported == hub.supported,
{
}

/// What the display reports of itself is its size and the sizes that it can take, the
/// present one among them; the frame and the pointer stay.
pub proof fn law_reported_display_is_known(
    hub: HubModel,
    size: DesktopSize,
    modes: Seq<DesktopSize>,
    next: HubModel,
    other: DesktopSize,
)
    requires
        hub.reported(size, modes, next),
    ensures
        next.size == size,
        size.nonempty() ==> next.supported.contains(size),
        other.nonempty() && other != size ==> (next.supported.contains(other) <==> modes.contains(
            other,
        )),
        in_order(next.supported),
        (next.size_revision != hub.size_revision) == (hub.size != size),
        next.supported_revision != hub.supported_revision,
        next.frame == hub.frame && next.frame_revision == hub.frame_revision,
        next.available == hub.available && next.pointer == hub.pointer,
{
    if !modes.contains(size) {
        let pushed = modes.push(size);
        assert(pushed[pushed.len() - 1] == size);
        assert(pushed.contains(size));
        if modes.contains(other) {
            let i = choose|i: int| 0 <= i < modes.len() && modes[i] == other;
            assert(pushed[i] == other);
        }
        if pushed.contains(other) && other != size {
            let i = choose|i: int| 0 <= i < pushed.len() && pushed[i] == other;
            assert(modes[i] == other);
        }
    }
}

/// The availability of the desktop is what was settled last, and a wait for its loss that
/// began before is off. The pointer is where it was seen last, and noticed where it moved.
pub proof fn law_settled_values_stand(hub: HubModel, available: bool, x: u16, y: u16)
    ensures
        hub.settled(available).available == available,
        (hub.settled(available).available_revision != hub.available_revision) == (hub.available
            != available),
        hub.settled(available).frame == hub.frame && hub.settled(available).size == hub.size,
        hub.settled(available).expired(hub.generation).available == available,
        hub.pointed(x, y).pointer == Some((x, y)),
        (hub.pointed(x, y).pointer_revision != hub.pointer_revision) == (hub.pointer != Some(
            (x, y),
        )),
        hub.pointed(x, y).frame == hub.frame && hub.pointed(x, y).available == hub.available,
        hub.losing().generation != hub.generation,
        hub.losing().available_revision == hub.available_revision,
{
}

/// The end of a grace period takes a desktop away that is still available and noticed it;
/// the frame stays for whoever comes next.
pub proof fn law_expired_desktop_is_noticed(hub: HubModel, generation: u64)
    ensures
        ({
            let next = hub.expired(generation);
            &&& next.frame == hub.frame && next.size == hub.size && next.supported == hub.supported
            &&& hub.generation != generation ==> next == hub
            &&& hub.generation == generation ==> !next.available
            &&& (next.available_revision != hub.available_revision) == (next.available
                != hub.available)
        }),
{
}

/// A hub starts with a picture of its size, with that size as the only one, and without a
/// pointer.
pub proof fn law_hub_starts_with_its_size(size: DesktopSize, available: bool)
    ensures
        ({
            let hub = HubModel::initial(size, available);
            &&& hub.size == size && hub.frame.size == size && hub.available == available
            &&& hub.frame.rgba.len() == size.width * size.height * 4
            &&& hub.supported.len() == 1 && hub.supported[0] == size
            &&& hub.pointer is None
        }),
{
}

/// A layout of one primary monitor asks for the size of that monitor. Others are not
/// supported, sides of more than 65535 pixels do not fit, and the size that the canvas
/// has is no change.
pub proof fn law_layouts_ask_for_one_monitor(
    display: DisplayModel,
    monitors: Seq<MonitorLayout>,
    action: Option<AccessAction>,
)
    ensures
        ({
            let outcome = display.layout_outcome(monitors, action);
            let one = monitors.len() == 1 && monitors[0].primary;
            let fits = monitors[0].width <= 65535 && monitors[0].height <= 65535;
            let same = display.client_size.width == monitors[0].width && display.client_size.height
                == monitors[0].height;
            &&& outcome is Unsupported <==> !one
            &&& outcome is OutOfRange <==> one && !fits
            &&& outcome is Unchanged <==> one && fits && same
            &&& one && fits && !same ==> outcome == LayoutOutcome::Resized(action)
            &&& one && fits ==> DisplayModel::requested(monitors).width == monitors[0].width
                && DisplayModel::requested(monitors).height == monitors[0].height
        }),
{
}

/// A canvas of another size is noticed, and a handshake without a request before it
/// settles the size that the client names.
pub proof fn law_canvas_takes_the_size(display: DisplayModel, size: DesktopSize, generation: u64)
    ensures
        display.sized(size).client_size == size,
        display.sized(size).client_revision != display.client_revision,
        display.sized(size).pending == display.pending,
        display.pending is None ==> display.handshake(size, generation) == size,
{
}

/// The barrier is told the sizes of the canvas and of the desktop, and whether it is
/// available.
pub proof fn law_barrier_is_told_of_the_displays(
    gate: GateModel,
    client: DesktopSize,
    hub: HubModel,
    sessions: SessionModel,
)
    ensures
        ({
            let told = synced(gate, client, hub, sessions);
            &&& told.state.client_size == Some(client)
            &&& told.state.host_size == Some(hub.size)
            &&& told.state.host_available == hub.available
            &&& told.state.takeover_required == (gate.state.authenticated && gate.other_owner(
                sessions,
            ))
            &&& told.session == gate.session && told.remembered == gate.remembered
        }),
{
}

/// A revision is followed by the next, round the 64 bits; a hub starts at the first.
pub proof fn law_revisions_are_counted(revision: u64, size: DesktopSize, available: bool)
    ensures
        revision < u64::MAX ==> after_revision(revision) == revision + 1,
        after_revision(u64::MAX) == 0,
        ({
            let hub = HubModel::initial(size, available);
            &&& hub.frame_revision == 0 && hub.size_revision == 0 && hub.supported_revision == 0
            &&& hub.available_revision == 0 && hub.pointer_revision == 0 && hub.generation == 0
        }),
{
}

} // verus!
