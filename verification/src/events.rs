//! Typed event records and the broadcast channel that carries them.
//!
//! A channel is a single-writer, multi-reader queue: publishing appends to
//! the current tick's buffer, and each consumer owns an independent cursor
//! that sees exactly the events published since its last read, in publication
//! order. Buffers are retained for the current and the previous tick only; a
//! cursor that falls behind that window is clamped to the oldest retained
//! event.

use vstd::prelude::*;
use vstd::std_specs::cmp::PartialEqSpec;
use crate::comp::{Position, Velocity};
use crate::entity::Entity;

verus! {

/// Contact between two entities. The pair is unordered: `CollisionEvent(a, b)`
/// and `CollisionEvent(b, a)` compare equal.
#[derive(Clone, Copy, Debug)]
pub struct CollisionEvent(pub Entity, pub Entity);

impl CollisionEvent {
    pub fn new(e1: Entity, e2: Entity) -> (r: CollisionEvent)
        ensures
            r.0 == e1 && r.1 == e2,
    {
        CollisionEvent(e1, e2)
    }

    /// The unordered pair `{a, b}` is the one this event reports.
    pub open spec fn is_pair(self, a: Entity, b: Entity) -> bool {
        (self.0 == a && self.1 == b) || (self.0 == b && self.1 == a)
    }
}

impl PartialEq for CollisionEvent {
    fn eq(&self, other: &Self) -> (r: bool) {
        (self.0 == other.0 && self.1 == other.1) || (self.0 == other.1 && self.1 == other.0)
    }
}

impl vstd::std_specs::cmp::PartialEqSpecImpl for CollisionEvent {
    open spec fn obeys_eq_spec() -> bool {
        true
    }

    open spec fn eq_spec(&self, other: &CollisionEvent) -> bool {
        self.is_pair(other.0, other.1)
    }
}

/// Equality of collision events is symmetric in the pair: the event for
/// `(a, b)` equals the event for `(b, a)`, whatever the entities.
pub proof fn lemma_collision_event_symmetric(a: Entity, b: Entity)
    ensures
        CollisionEvent(a, b).eq_spec(&CollisionEvent(b, a)),
        CollisionEvent(b, a).eq_spec(&CollisionEvent(a, b)),
{
}

/// `src` damaged `targ`.
#[derive(Clone, Copy, Debug, PartialEq, Eq, Structural)]
pub struct DamageEvent {
    pub src: Entity,
    pub targ: Entity,
}

impl DamageEvent {
    pub fn new(src: Entity, targ: Entity) -> (r: DamageEvent)
        ensures
            r == (DamageEvent { src, targ }),
    {
        DamageEvent { src, targ }
    }
}

/// `src` killed `targ`.
#[derive(Clone, Copy, Debug, PartialEq, Eq, Structural)]
pub struct KillEvent {
    pub src: Entity,
    pub targ: Entity,
}

impl KillEvent {
    pub fn new(src: Entity, targ: Entity) -> (r: KillEvent)
        ensures
            r == (KillEvent { src, targ }),
    {
        KillEvent { src, targ }
    }
}

/// `collector` picked up the `pickup` entity.
#[derive(Clone, Copy, Debug, PartialEq, Eq, Structural)]
pub struct PickupEvent {
    pub collector: Entity,
    pub pickup: Entity,
}

impl PickupEvent {
    pub fn new(collector: Entity, pickup: Entity) -> (r: PickupEvent)
        ensures
            r == (PickupEvent { collector, pickup }),
    {
        PickupEvent { collector, pickup }
    }
}

/// Asks the disposal pipeline to retire an entity.
#[derive(Clone, Copy, Debug, PartialEq, Eq, Structural)]
pub struct DisposeEntityEvent(pub Entity);

impl DisposeEntityEvent {
    pub fn new(e: Entity) -> (r: DisposeEntityEvent)
        ensures
            r.0 == e,
    {
        DisposeEntityEvent(e)
    }
}

/// What the spawn dispatcher should instantiate.
#[derive(Clone, Copy, Debug, PartialEq, Eq, Structural)]
pub enum SpawnType {
    Asteroid,
    Projectile,
    Powerup,
}

/// Asks the spawn dispatcher for a new entity of the given kind, with
/// kind-specific defaults overridden by the optional fields.
#[derive(Clone, Copy, Debug)]
pub struct SpawnEntityEvent {
    pub spawn_type: SpawnType,
    pub location: Position,
    pub velocity: Option<Velocity>,
    pub origin: Option<Entity>,
}

/// A command addressed to every entity controlled by `src`.
#[derive(Clone, Copy, Debug, PartialEq, Eq, Structural)]
pub enum EntityCommand {
    Shoot,
}

/// Passes a command from `src` to the entities it controls, along with the
/// world location of `src` at the time.
#[derive(Clone, Copy, Debug)]
pub struct EntityCommandEvent {
    pub src: Entity,
    pub command: EntityCommand,
    pub src_loc: Position,
}

impl EntityCommandEvent {
    pub fn new(src: Entity, command: EntityCommand, src_loc: Position) -> (r: EntityCommandEvent)
        ensures
            r == (EntityCommandEvent { src, command, src_loc }),
    {
        EntityCommandEvent { src, command, src_loc }
    }
}

/// A debugging command. An unrecognized command carries `Unknown` and is
/// ignored by the executive, which reports it back to the caller.
#[derive(Clone, Copy, Debug, PartialEq, Eq, Structural)]
pub enum DeveloperCommand {
    SpawnAsteroid,
    SpawnProjectile,
    SpawnPowerup,
    Unknown,
}

/// Dispatches a developer command into the simulation.
#[derive(Clone, Copy, Debug)]
pub struct DeveloperCommandEvent {
    pub command: DeveloperCommand,
}

/// A broadcast queue over one event type. The view is the sequence of
/// retained events together with `base`, the absolute position of the oldest
/// retained event; absolute positions never shift as old buffers are dropped.
#[derive(Debug)]
pub struct Channel<T> {
    buf: Vec<T>,
    base: usize,
    tick_start: usize,
}

/// An independent read position over a channel, in absolute event positions.
#[derive(Clone, Copy, Debug)]
pub struct Cursor {
    pub at: usize,
}

impl<T: Copy> Channel<T> {
    /// The absolute position of the oldest retained event.
    pub closed spec fn base(self) -> int {
        self.base as int
    }

    /// The retained events, oldest first; `self.events()[i]` sits at absolute
    /// position `self.base() + i`.
    pub closed spec fn events(self) -> Seq<T> {
        self.buf@
    }

    /// The absolute position one past the newest event.
    pub open spec fn total(self) -> int {
        self.base() + self.events().len()
    }

    /// The absolute position where the current tick's buffer begins.
    pub closed spec fn tick_start(self) -> int {
        self.tick_start as int
    }

    pub closed spec fn wf(self) -> bool {
        self.base <= self.tick_start <= self.base + self.buf@.len()
            && self.base + self.buf@.len() <= usize::MAX
    }

    /// The event at absolute position `i`.
    pub open spec fn at(self, i: int) -> T {
        self.events()[i - self.base()]
    }

    pub fn new() -> (c: Channel<T>)
        ensures
            c.wf(),
            c.base() == 0,
            c.events() =~= Seq::<T>::empty(),
            c.tick_start() == 0,
    {
        Channel { buf: Vec::new(), base: 0, tick_start: 0 }
    }

    /// Appends one event to the current tick's buffer.
    pub fn publish(&mut self, ev: T)
        requires
            old(self).wf(),
            old(self).total() < usize::MAX,
        ensures
            final(self).wf(),
            final(self).base() == old(self).base(),
            final(self).tick_start() == old(self).tick_start(),
            final(self).events() =~= old(self).events().push(ev),
    {
        self.buf.push(ev);
    }

    /// The absolute position one past the newest event, as a runtime value.
    pub fn total_count(&self) -> (n: usize)
        requires
            self.wf(),
        ensures
            n == self.total(),
    {
        self.base + self.buf.len()
    }

    /// How many events are retained, as a runtime value.
    pub fn retained_count(&self) -> (n: usize)
        ensures
            n == self.events().len(),
    {
        self.buf.len()
    }

    /// Appends a batch of events in order.
    pub fn publish_all(&mut self, evs: &Vec<T>)
        requires
            old(self).wf(),
            old(self).total() + evs@.len() <= usize::MAX,
        ensures
            final(self).wf(),
            final(self).base() == old(self).base(),
            final(self).tick_start() == old(self).tick_start(),
            final(self).events() =~= old(self).events() + evs@,
    {
        let ghost e0 = self.events();
        let n = evs.len();
        let mut i: usize = 0;
        while i < n
            invariant
                self.wf(),
                i <= n == evs@.len(),
                self.base() == old(self).base(),
                self.tick_start() == old(self).tick_start(),
                self.events() =~= e0 + evs@.take(i as int),
                e0.len() + n + self.base() <= usize::MAX,
            decreases n - i,
        {
            self.publish(evs[i]);
            proof {
                assert(evs@.take(i + 1) =~= evs@.take(i as int).push(evs@[i as int]));
            }
            i = i + 1;
        }
        proof {
            assert(evs@.take(n as int) =~= evs@);
        }
    }

    /// Returns, in publication order, the events published since the cursor
    /// last read (clamped to the retained window), and advances the cursor
    /// past them.
    pub fn drain(&self, cursor: &mut Cursor) -> (out: Vec<T>)
        requires
            self.wf(),
            old(cursor).at <= self.total(),
        ensures
            final(cursor).at == self.total(),
            out@.len() == self.total() - start_of(self.base(), old(cursor).at as int),
            forall|k: int|
                0 <= k < out@.len() ==> out@[k]
                    == self.at(start_of(self.base(), old(cursor).at as int) + k),
    {
        let mut i: usize = if cursor.at < self.base { 0 } else { cursor.at - self.base };
        let mut out: Vec<T> = Vec::new();
        while i < self.buf.len()
            invariant
                self.wf(),
                start_of(self.base(), old(cursor).at as int) <= self.base() + i
                    <= self.total(),
                out@.len() == self.base() + i - start_of(self.base(), old(cursor).at as int),
                forall|k: int|
                    0 <= k < out@.len() ==> out@[k]
                        == self.at(start_of(self.base(), old(cursor).at as int) + k),
            decreases self.buf@.len() - i,
        {
            out.push(self.buf[i]);
            i = i + 1;
        }
        cursor.at = self.base + self.buf.len();
        out
    }

    /// Drops the buffer of the tick before the previous one: events stay
    /// readable for the tick they were published in and the one after.
    pub fn advance_tick(&mut self)
        requires
            old(self).wf(),
        ensures
            final(self).wf(),
            final(self).base() == old(self).tick_start(),
            final(self).tick_start() == old(self).total(),
            final(self).total() == old(self).total(),
            final(self).events().len() <= old(self).events().len(),
            forall|i: int|
                final(self).base() <= i < final(self).total() ==> final(self).at(i)
                    == old(self).at(i),
    {
        let keep_from: usize = self.tick_start - self.base;
        let mut kept: Vec<T> = Vec::new();
        let mut i: usize = keep_from;
        while i < self.buf.len()
            invariant
                keep_from <= self.buf@.len(),
                keep_from <= i <= self.buf@.len(),
                kept@.len() == i - keep_from,
                forall|k: int| 0 <= k < kept@.len() ==> kept@[k] == self.buf@[keep_from + k],
            decreases self.buf@.len() - i,
        {
            kept.push(self.buf[i]);
            i = i + 1;
        }
        self.base = self.tick_start;
        self.tick_start = self.base + kept.len();
        self.buf = kept;
    }
}

/// Where a drain starts: the cursor's position, clamped to the oldest
/// retained event.
pub open spec fn start_of(base: int, cursor: int) -> int {
    if cursor < base {
        base
    } else {
        cursor
    }
}

impl Cursor {
    /// A cursor that has read nothing.
    pub fn new() -> (c: Cursor)
        ensures
            c.at == 0,
    {
        Cursor { at: 0 }
    }
}

} // verus!
