//! Which connection owns the physical console.
//!
//! Several transports may be open at once, but one of them owns the display.
//! The coordinator also remembers the display size that was in force before the
//! first owner arrived, so that it can be restored when the last owner leaves.

use std::collections::BTreeMap;

use vstd::prelude::*;

use crate::platform::DesktopSize;

verus! {

/// What the coordinator knows, as mathematical values.
#[verifier::ext_equal]
pub struct SessionModel {
    /// The identifier that was given out last; 0 before the first one.
    pub last_id: u64,
    /// The session that owns the display.
    pub owner: Option<u64>,
    /// The display size to restore when the last owner leaves.
    pub original: Option<DesktopSize>,
    /// The open sessions, each with whether it can be told to quit.
    pub sessions: Map<u64, bool>,
    /// The number of sessions that may be open at once.
    pub capacity: nat,
}

/// The identifier after `last`: the next number, and 1 after the largest one.
pub open spec fn next_session_id(last: u64) -> u64 {
    if last == u64::MAX {
        1
    } else {
        (last + 1) as u64
    }
}

/// Whether `id` is the smallest member of `ids`.
pub open spec fn is_least(ids: Set<u64>, id: u64) -> bool {
    ids.contains(id) && forall|other: u64| #[trigger] ids.contains(other) ==> id <= other
}

/// Whether `ids` lists, in ascending order, the sessions that can be told to
/// quit, without the session `except`.
pub open spec fn lists_reachable(
    ids: Seq<u64>,
    sessions: Map<u64, bool>,
    except: Option<u64>,
) -> bool {
    &&& forall|i: int, j: int| 0 <= i < j < ids.len() ==> ids[i] < ids[j]
    &&& forall|id: u64| #[trigger]
        ids.contains(id) <==> (sessions.contains_key(id) && sessions[id] && except != Some(id))
}

impl SessionModel {
    /// There is an owner exactly while a session is open, the owner is one of the
    /// open sessions, and the size to restore is known exactly while there is one.
    pub open spec fn consistent(self) -> bool {
        &&& self.sessions.dom().finite()
        &&& self.sessions.len() <= self.capacity
        &&& self.owner is None <==> self.sessions =~= Map::<u64, bool>::empty()
        &&& self.owner matches Some(owner) ==> self.sessions.contains_key(owner)
        &&& self.original is Some <==> self.owner is Some
    }

    /// Whether a session other than `id` owns the display.
    pub open spec fn other_owner(self, id: u64) -> bool {
        self.owner matches Some(owner) && owner != id
    }

    /// The state after a transport is admitted while the desktop has the given
    /// size.
    pub open spec fn admitted(self, desktop: DesktopSize) -> SessionModel {
        let id = next_session_id(self.last_id);
        SessionModel {
            last_id: id,
            owner: if self.owner is None { Some(id) } else { self.owner },
            original: if self.owner is None { Some(desktop) } else { self.original },
            sessions: self.sessions.insert(id, false),
            ..self
        }
    }

    /// The state after the session `id` takes the display over.
    pub open spec fn taken_over(self, id: u64, desktop: DesktopSize) -> SessionModel {
        if !self.sessions.contains_key(id) || self.owner == Some(id) {
            self
        } else {
            SessionModel {
                owner: Some(id),
                original: if self.original is None { Some(desktop) } else { self.original },
                ..self
            }
        }
    }

    /// Whether `next` is the state after the session `id` has left.
    pub open spec fn released(self, id: u64, next: SessionModel) -> bool {
        if !self.sessions.contains_key(id) {
            next == self
        } else {
            let rest = self.sessions.remove(id);
            &&& next.last_id == self.last_id
            &&& next.capacity == self.capacity
            &&& next.sessions == rest
            &&& if self.owner != Some(id) {
                next.owner == self.owner && next.original == self.original
            } else if rest.dom() =~= Set::<u64>::empty() {
                next.owner is None && next.original is None
            } else {
                &&& next.original == self.original
                &&& next.owner matches Some(heir) && is_least(rest.dom(), heir)
            }
        }
    }

    /// The size to restore after the session `id` has left: the original size, if
    /// the last owner leaves and the desktop has another size now.
    pub open spec fn size_to_restore(self, id: u64, desktop: DesktopSize) -> Option<DesktopSize> {
        if self.sessions.contains_key(id) && self.owner == Some(id)
            && self.sessions.remove(id).dom() =~= Set::<u64>::empty()
            && self.original != Some(desktop) {
            self.original
        } else {
            None
        }
    }
}

/// Admits transports and decides which of them owns the display.
pub struct SessionCoordinator {
    last_id: u64,
    owner: Option<u64>,
    original_display_size: Option<DesktopSize>,
    sessions: BTreeMap<u64, bool>,
    maximum_transports: usize,
}

/// The place of one admitted transport.
#[derive(Debug, Clone, Copy, PartialEq, Eq, Structural)]
pub struct SessionLease {
    id: u64,
}

impl View for SessionCoordinator {
    type V = SessionModel;

    closed spec fn view(&self) -> SessionModel {
        SessionModel {
            last_id: self.last_id,
            owner: self.owner,
            original: self.original_display_size,
            sessions: self.sessions@,
            capacity: self.maximum_transports as nat,
        }
    }
}

/// The number of transports that may be open where `configured` normal
/// connections are wanted: those, at least one, and one more for a candidate
/// that stays behind the access barrier until it takes the display over.
pub open spec fn transport_capacity(configured: u32) -> nat {
    (if configured == 0 { 1nat } else { configured as nat }) + 1
}

impl SessionCoordinator {
    /// A coordinator without sessions. A machine whose `usize` cannot hold the
    /// capacity gets the largest one that it can.
    pub fn new(configured_maximum: u32) -> (coordinator: Self)
        ensures
            coordinator@.last_id == 0,
            coordinator@.owner is None,
            coordinator@.original is None,
            coordinator@.sessions == Map::<u64, bool>::empty(),
            coordinator@.capacity == if transport_capacity(configured_maximum) <= usize::MAX {
                transport_capacity(configured_maximum)
            } else {
                usize::MAX as nat
            },
            coordinator@.consistent(),
    {
        let normal: u32 = if configured_maximum == 0 {
            1
        } else {
            configured_maximum
        };
        let normal: usize = normal as usize;
        SessionCoordinator {
            last_id: 0,
            owner: None,
            original_display_size: None,
            sessions: BTreeMap::new(),
            maximum_transports: normal.saturating_add(1),
        }
    }

    /// Admits a transport, unless all places are taken. The first session owns the
    /// display, and the size of the desktop at that moment is remembered.
    pub fn reserve(&mut self, desktop: DesktopSize) -> (lease: Option<SessionLease>)
        ensures
            lease is None <==> old(self)@.sessions.len() >= old(self)@.capacity,
            lease is None ==> final(self)@ == old(self)@,
            lease matches Some(lease) ==> {
                &&& lease.number() == next_session_id(old(self)@.last_id)
                &&& final(self)@ == old(self)@.admitted(desktop)
            },
            old(self)@.consistent() ==> final(self)@.consistent(),
    {
        broadcast use vstd::std_specs::btree::group_btree_axioms;
        if self.sessions.len() >= self.maximum_transports {
            return None;
        }
        let id: u64 = if self.last_id == u64::MAX {
            1
        } else {
            self.last_id + 1
        };
        self.last_id = id;
        if self.owner.is_none() {
            self.owner = Some(id);
            self.original_display_size = Some(desktop);
        }
        self.sessions.insert(id, false);
        Some(SessionLease { id })
    }

    /// The sessions that are to be told to quit when the host stops.
    pub fn disconnect_all(&self) -> (ids: Vec<u64>)
        ensures
            lists_reachable(ids@, self@.sessions, None),
    {
        self.reachable_except(None)
    }

    /// The number of open sessions.
    pub fn active_count(&self) -> (count: usize)
        ensures
            count == self@.sessions.len(),
    {
        broadcast use vstd::std_specs::btree::group_btree_axioms;
        self.sessions.len()
    }

    fn reachable_except(&self, except: Option<u64>) -> (ids: Vec<u64>)
        ensures
            lists_reachable(ids@, self@.sessions, except),
    {
        broadcast use vstd::std_specs::btree::group_btree_axioms;
        let mut ids: Vec<u64> = Vec::new();
        let entries = self.sessions.iter();
        let ghost pairs = vstd::std_specs::iter::IteratorSpec::remaining(&entries);
        proof {
            let keys = pairs.map_values(|kv: (&u64, &bool)| *kv.0);
            assert forall|i: int, j: int| 0 <= i < j < pairs.len() implies *(
            #[trigger] pairs[i]).0 < *(#[trigger] pairs[j]).0 by {
                assert(vstd::std_specs::btree::increasing_seq(keys));
                assert(vstd::std_specs::cmp::OrdSpec::cmp_spec(&keys[i], &keys[j]) is Less);
                assert(keys[i] < keys[j]);
            }
        }
        for entry in iter: entries
            invariant
                iter.seq() == pairs,
                forall|i: int, j: int|
                    0 <= i < j < pairs.len() ==> *(#[trigger] pairs[i]).0 < *(
                    #[trigger] pairs[j]).0,
                forall|i: int, j: int| 0 <= i < j < ids@.len() ==> ids@[i] < ids@[j],
                forall|id: u64| #[trigger]
                    ids@.contains(id) <==> exists|k: int|
                        0 <= k < iter.index() && *(#[trigger] pairs[k]).0 == id && *pairs[k].1
                            && except != Some(id),
        {
            let (id, reachable) = entry;
            let ghost before = ids@;
            let ghost at = iter.index();
            assert(pairs[at] == (id, reachable));
            if *reachable && except != Some(*id) {
                proof {
                    assert forall|i: int| 0 <= i < before.len() implies before[i] < *id by {
                        assert(before.contains(before[i]));
                    }
                }
                ids.push(*id);
                assert(ids@.last() == *id);
                assert forall|other: u64| #[trigger] ids@.contains(other) <==> before.contains(
                    other,
                ) || other == *id by {
                    if before.contains(other) {
                        let i = choose|i: int| 0 <= i < before.len() && before[i] == other;
                        assert(ids@[i] == other);
                    }
                }
            }
        }
        ids
    }
}

impl SessionCoordinator {
    /// The smallest identifier of an open session.
    fn first_session(&self) -> (first: Option<u64>)
        ensures
            first is None <==> self@.sessions.dom() =~= Set::<u64>::empty(),
            first matches Some(id) ==> is_least(self@.sessions.dom(), id),
    {
        broadcast use vstd::std_specs::btree::group_btree_axioms;
        let entries = self.sessions.iter();
        let ghost pairs = vstd::std_specs::iter::IteratorSpec::remaining(&entries);
        let ghost keys = pairs.map_values(|kv: (&u64, &bool)| *kv.0);
        let ghost sessions = self.sessions@;
        proof {
            assert(vstd::std_specs::btree::increasing_seq(keys));
            assert forall|id: u64| #[trigger] sessions.contains_key(id) implies keys.len() > 0
                && keys[0] <= id by {
                assert(pairs.contains((&id, &sessions[id])));
                let at = choose|k: int| 0 <= k < pairs.len() && pairs[k] == (&id, &sessions[id]);
                assert(keys[at] == id);
                if at > 0 {
                    assert(vstd::std_specs::cmp::OrdSpec::cmp_spec(&keys[0], &keys[at]) is Less);
                }
            }
        }
        for entry in iter: entries
            invariant
                iter.seq() == pairs,
                iter.index() == 0,
                sessions == self@.sessions,
                keys == pairs.map_values(|kv: (&u64, &bool)| *kv.0),
                forall|i: int| 0 <= i < pairs.len() ==> sessions.contains_key(*(#[trigger] pairs[i]).0),
                forall|id: u64| #[trigger]
                    sessions.contains_key(id) ==> keys.len() > 0 && keys[0] <= id,
        {
            assert(keys[0] == *pairs[0].0);
            return Some(*entry.0);
        }
        None
    }

    /// Forgets the session `id`. When the owner leaves, the oldest remaining
    /// session inherits the display; when the last owner leaves, the size that the
    /// display had before is returned, unless the desktop has it already.
    fn unregister(&mut self, id: u64, desktop: DesktopSize) -> (restore: Option<DesktopSize>)
        ensures
            old(self)@.released(id, final(self)@),
            restore == old(self)@.size_to_restore(id, desktop),
            old(self)@.consistent() ==> final(self)@.consistent(),
    {
        broadcast use vstd::std_specs::btree::group_btree_axioms;
        if self.sessions.remove(&id).is_none() {
            assert(self@ =~= old(self)@);
            return None;
        }
        if self.owner != Some(id) {
            return None;
        }
        match self.first_session() {
            Some(heir) => {
                self.owner = Some(heir);
                None
            },
            None => {
                self.owner = None;
                let original = self.original_display_size.take();
                if original == Some(desktop) {
                    None
                } else {
                    original
                }
            },
        }
    }
}

impl SessionLease {
    /// The identifier of the session.
    pub closed spec fn number(self) -> u64 {
        self.id
    }

    /// The identifier of the session.
    pub fn id(&self) -> (id: u64)
        ensures
            id == self.number(),
    {
        self.id
    }

    /// Records that the session can be told to quit.
    pub fn attach(&self, coordinator: &mut SessionCoordinator)
        ensures
            final(coordinator)@ == (SessionModel {
                sessions: if old(coordinator)@.sessions.contains_key(self.number()) {
                    old(coordinator)@.sessions.insert(self.number(), true)
                } else {
                    old(coordinator)@.sessions
                },
                ..old(coordinator)@
            }),
            old(coordinator)@.consistent() ==> final(coordinator)@.consistent(),
    {
        broadcast use vstd::std_specs::btree::group_btree_axioms;
        if coordinator.sessions.contains_key(&self.id) {
            coordinator.sessions.insert(self.id, true);
        }
    }

    /// Whether another session owns the display.
    pub fn has_other_owner(&self, coordinator: &SessionCoordinator) -> (other: bool)
        ensures
            other == coordinator@.other_owner(self.number()),
    {
        match coordinator.owner {
            Some(owner) => owner != self.id,
            None => false,
        }
    }

    /// Whether this session owns the display.
    pub fn is_owner(&self, coordinator: &SessionCoordinator) -> (owner: bool)
        ensures
            owner == (coordinator@.owner == Some(self.number())),
    {
        coordinator.owner == Some(self.id)
    }

    /// Takes the display over and returns the other sessions that are to be told
    /// to quit. A session that has left already takes nothing over.
    pub fn take_over(&self, coordinator: &mut SessionCoordinator, desktop: DesktopSize) -> (ids:
        Vec<u64>)
        ensures
            final(coordinator)@ == old(coordinator)@.taken_over(self.number(), desktop),
            if old(coordinator)@.sessions.contains_key(self.number()) {
                lists_reachable(ids@, old(coordinator)@.sessions, Some(self.number()))
            } else {
                ids@ == Seq::<u64>::empty()
            },
            old(coordinator)@.consistent() ==> final(coordinator)@.consistent(),
    {
        broadcast use vstd::std_specs::btree::group_btree_axioms;
        if !coordinator.sessions.contains_key(&self.id) {
            return Vec::new();
        }
        if coordinator.owner != Some(self.id) {
            if coordinator.original_display_size.is_none() {
                coordinator.original_display_size = Some(desktop);
            }
            coordinator.owner = Some(self.id);
        }
        coordinator.reachable_except(Some(self.id))
    }

    /// Gives the place up and returns the display size to restore, if the last
    /// owner leaves while the desktop has another size than before it came.
    pub fn close(&self, coordinator: &mut SessionCoordinator, desktop: DesktopSize) -> (restore:
        Option<DesktopSize>)
        ensures
            old(coordinator)@.released(self.number(), final(coordinator)@),
            restore == old(coordinator)@.size_to_restore(self.number(), desktop),
            old(coordinator)@.consistent() ==> final(coordinator)@.consistent(),
    {
        coordinator.unregister(self.id, desktop)
    }
}

/// What a session that was taken over is told when it has to quit.
pub fn takeover_reason() -> (reason: &'static str)
    ensures
        reason@ == "another authenticated client took over the physical console"@,
{
    "another authenticated client took over the physical console"
}

/// While somebody owns the display, the size to restore stays the one that was
/// recorded when the first owner came: neither new sessions nor takeovers nor
/// departures that leave an owner behind change it.
pub proof fn law_original_size_is_kept(
    model: SessionModel,
    id: u64,
    desktop: DesktopSize,
    next: SessionModel,
)
    requires
        model.consistent(),
        model.owner is Some,
    ensures
        model.admitted(desktop).original == model.original,
        model.taken_over(id, desktop).original == model.original,
        model.released(id, next) && next.owner is Some ==> next.original == model.original,
{
}

/// A display size is restored exactly when the last session leaves while the
/// desktop has another size than the recorded one, and it is the recorded one.
pub proof fn law_display_is_restored_by_the_last_session(
    model: SessionModel,
    id: u64,
    desktop: DesktopSize,
)
    requires
        model.consistent(),
    ensures
        model.size_to_restore(id, desktop) is Some <==> (model.sessions.dom() =~= set![id]
            && model.original != Some(desktop)),
        model.size_to_restore(id, desktop) matches Some(size) ==> model.original == Some(size),
{
    if model.sessions.dom() =~= set![id] {
        assert(model.sessions.contains_key(id));
        assert(model.sessions.remove(id).dom() =~= Set::<u64>::empty());
        if model.owner is None {
            assert(!Map::<u64, bool>::empty().contains_key(id));
        }
        let owner = model.owner->0;
        assert(set![id].contains(owner));
    }
    if model.sessions.contains_key(id) && model.sessions.remove(id).dom() =~= Set::<u64>::empty() {
        assert forall|other: u64| #[trigger] model.sessions.contains_key(other) implies other
            == id by {
            if other != id {
                assert(model.sessions.remove(id).contains_key(other));
            }
        }
        assert(model.sessions.dom() =~= set![id]);
    }
}

/// After an open session has taken the display over, it is the owner and every
/// other session sees a foreign owner, until it leaves or is taken over itself.
pub proof fn law_takeover_moves_ownership(
    model: SessionModel,
    id: u64,
    other: u64,
    desktop: DesktopSize,
)
    requires
        model.sessions.contains_key(id),
        other != id,
    ensures
        model.taken_over(id, desktop).owner == Some(id),
        !model.taken_over(id, desktop).other_owner(id),
        model.taken_over(id, desktop).other_owner(other),
        model.taken_over(id, desktop).sessions == model.sessions,
{
}

/// A transport that is admitted gets an identifier of its own and cannot be told to quit
/// yet; the sessions before it stay. It owns the display, whose size is noted, exactly
/// where nobody does.
pub proof fn law_admitted_session_is_new(
    model: SessionModel,
    desktop: DesktopSize,
    other: u64,
)
    ensures
        ({
            let id: u64 = if model.last_id == u64::MAX { 1 } else { (model.last_id + 1) as u64 };
            let next = model.admitted(desktop);
            &&& id != 0 && id != model.last_id
            &&& next.last_id == id
            &&& next.sessions.contains_key(id) && !next.sessions[id]
            &&& other != id ==> (next.sessions.contains_key(other) <==> model.sessions.contains_key(
                other,
            ))
            &&& other != id && model.sessions.contains_key(other) ==> next.sessions[other]
                == model.sessions[other]
            &&& model.owner is None ==> next.owner == Some(id) && next.original == Some(desktop)
            &&& model.owner is Some ==> next.owner == model.owner && next.original
                == model.original
            &&& next.capacity == model.capacity
        }),
{
}

/// Who leaves is gone and the others stay. The owner is followed by the session that came
/// first of those that are left; with the last one the display belongs to nobody and no
/// size is noted. Who does not own the display changes nothing else by leaving.
pub proof fn law_display_passes_to_the_oldest_session(
    model: SessionModel,
    id: u64,
    next: SessionModel,
    other: u64,
)
    requires
        model.consistent(),
        model.sessions.contains_key(id),
        model.released(id, next),
    ensures
        !next.sessions.contains_key(id),
        other != id ==> (next.sessions.contains_key(other) <==> model.sessions.contains_key(other)),
        other != id && model.sessions.contains_key(other) ==> next.sessions[other]
            == model.sessions[other],
        model.owner != Some(id) ==> next.owner == model.owner && next.original == model.original,
        model.owner == Some(id) && other != id && model.sessions.contains_key(other) ==> {
            &&& next.owner matches Some(heir) && heir != id && model.sessions.contains_key(heir)
                && heir <= other
            &&& next.original == model.original
        },
        model.owner == Some(id) && (forall|s: u64| #[trigger]
            model.sessions.contains_key(s) ==> s == id) ==> next.owner is None
            && next.original is None,
        next.last_id == model.last_id && next.capacity == model.capacity,
{
    let rest = model.sessions.remove(id);
    if other != id && model.sessions.contains_key(other) {
        assert(rest.contains_key(other));
        assert(rest.dom().contains(other));
        assert(!Set::<u64>::empty().contains(other));
    }
    if forall|s: u64| #[trigger] model.sessions.contains_key(s) ==> s == id {
        assert forall|s: u64| !rest.dom().contains(s) by {
            if rest.contains_key(s) {
                assert(model.sessions.contains_key(s));
            }
        }
        assert(rest.dom() =~= Set::<u64>::empty());
    }
    if model.owner == Some(id) && !(rest.dom() =~= Set::<u64>::empty()) {
        let heir = next.owner->0;
        assert(rest.contains_key(heir));
        assert(model.sessions.contains_key(heir));
    }
}

/// A session that is not open, or owns the display already, takes nothing over; an open one
/// changes the owner alone.
pub proof fn law_takeover_changes_the_owner_alone(
    model: SessionModel,
    id: u64,
    desktop: DesktopSize,
)
    ensures
        ({
            let next = model.taken_over(id, desktop);
            &&& !model.sessions.contains_key(id) || model.owner == Some(id) ==> next == model
            &&& next.sessions == model.sessions && next.last_id == model.last_id && next.capacity
                == model.capacity
            &&& model.original is Some ==> next.original == model.original
            &&& model.sessions.contains_key(id) ==> next.owner == Some(id)
        }),
        model.other_owner(id) <==> model.owner is Some && model.owner != Some(id),
{
}

/// There is room for the configured clients, for one at least, and for one candidate more.
pub proof fn law_one_candidate_more_than_configured(configured: u32)
    ensures
        configured >= 1 ==> transport_capacity(configured) == configured + 1,
        transport_capacity(0) == 2,
{
}

/// The sessions that are told to quit are listed once each, the one that came first before the
/// others: every one that can be told, but for the one that is left out.
pub proof fn law_sessions_are_told_in_turn(
    ids: Seq<u64>,
    sessions: Map<u64, bool>,
    except: Option<u64>,
    i: int,
    j: int,
    id: u64,
)
    requires
        lists_reachable(ids, sessions, except),
    ensures
        0 <= i < j < ids.len() ==> ids[i] < ids[j],
        0 <= i < ids.len() ==> sessions.contains_key(ids[i]) && sessions[ids[i]] && except != Some(
            ids[i],
        ),
        sessions.contains_key(id) && sessions[id] && except != Some(id) ==> exists|k: int|
            0 <= k < ids.len() && #[trigger] ids[k] == id,
{
    if 0 <= i < ids.len() {
        assert(ids.contains(ids[i]));
    }
    if sessions.contains_key(id) && sessions[id] && except != Some(id) {
        assert(ids.contains(id));
    }
}

/// As many sessions find room as there are places, and not one more: who is admitted while a
/// place is free leaves the host in order, even where it was the last.
pub proof fn law_every_place_can_be_taken(model: SessionModel, desktop: DesktopSize)
    requires
        model.consistent(),
        model.sessions.len() < model.capacity,
        !model.sessions.contains_key(model.admitted(desktop).last_id),
    ensures
        model.admitted(desktop).consistent(),
        model.admitted(desktop).sessions.len() == model.sessions.len() + 1,
        model.admitted(desktop).sessions.len() <= model.capacity,
{
    let next = model.admitted(desktop);
    assert(next.sessions.dom() =~= model.sessions.dom().insert(next.last_id));
    assert(next.sessions.contains_key(next.last_id));
}

/// The smallest of some identifiers is one of them, and none is smaller.
pub proof fn law_least_is_a_member(ids: Set<u64>, id: u64, other: u64)
    requires
        ids.contains(id),
        ids.contains(other),
    ensures
        is_least(ids, id) ==> id <= other,
        is_least(ids, id) && is_least(ids, other) ==> id == other,
        (forall|member: u64| #[trigger] ids.contains(member) ==> member == id) ==> is_least(
            ids,
            id,
        ),
{
}

} // verus!
