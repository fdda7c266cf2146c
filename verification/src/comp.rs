//! Component kinds: typed data fragments attachable to an entity.
//!
//! All quantities are integers. Positions are milliunits (thousandths of a
//! world unit), velocities are units per second, durations are milliseconds
//! and drag is permille per second, so every system integrates with exact
//! integer arithmetic. Each component has a well-formedness predicate giving
//! the bounds under which the systems are proved free of overflow; stat
//! arithmetic saturates at those bounds.

use vstd::prelude::*;
use crate::entity::Entity;

verus! {

/// Largest magnitude of a stored coordinate, in milliunits.
pub const COORD_LIMIT: i64 = 0x100_0000_0000;

/// Largest magnitude of a velocity component or movement stat, in units per second.
pub const VEL_LIMIT: i64 = 1_000_000;

/// Largest collider extent, in units.
pub const SIZE_LIMIT: i64 = 1_000_000;

/// Largest value of a hull, energy, damage or score stat.
pub const STAT_LIMIT: i64 = 0x1000_0000_0000_0000;

/// Largest timer duration, in milliseconds.
pub const TIME_LIMIT: u32 = 1_000_000_000;

/// Largest tick length handed to the simulation, in milliseconds.
pub const TICK_LIMIT: u32 = 1_000;

/// 2D location of an entity, in milliunits.
#[derive(Clone, Copy, Debug, PartialEq, Eq, Structural)]
pub struct Position {
    pub x: i64,
    pub y: i64,
}

impl Position {
    pub open spec fn wf(self) -> bool {
        -COORD_LIMIT <= self.x <= COORD_LIMIT && -COORD_LIMIT <= self.y <= COORD_LIMIT
    }

    /// Builds a position from whole world units.
    pub fn from_units(x: i64, y: i64) -> (p: Position)
        requires
            -1_000_000_000 <= x <= 1_000_000_000,
            -1_000_000_000 <= y <= 1_000_000_000,
        ensures
            p.x == x * 1000,
            p.y == y * 1000,
            p.wf(),
    {
        Position { x: x * 1000, y: y * 1000 }
    }
}

/// Velocity of an entity, in units per second.
#[derive(Clone, Copy, Debug, PartialEq, Eq, Structural)]
pub struct Velocity {
    pub x: i64,
    pub y: i64,
}

impl Velocity {
    pub open spec fn wf(self) -> bool {
        -VEL_LIMIT <= self.x <= VEL_LIMIT && -VEL_LIMIT <= self.y <= VEL_LIMIT
    }

    pub fn new(x: i64, y: i64) -> (v: Velocity)
        requires
            -VEL_LIMIT <= x <= VEL_LIMIT,
            -VEL_LIMIT <= y <= VEL_LIMIT,
        ensures
            v == (Velocity { x, y }),
            v.wf(),
    {
        Velocity { x, y }
    }
}

/// How much drag slows this entity, in permille of its velocity per second.
#[derive(Clone, Copy, Debug, PartialEq, Eq, Structural)]
pub struct Drag(pub i64);

impl Drag {
    pub open spec fn wf(self) -> bool {
        0 <= self.0 <= 1000
    }
}

/// Axis-aligned box collider centered on the entity's position, in units.
#[derive(Clone, Copy, Debug, PartialEq, Eq, Structural)]
pub struct ColliderBox {
    pub w: i64,
    pub h: i64,
}

impl ColliderBox {
    pub open spec fn wf(self) -> bool {
        0 <= self.w <= SIZE_LIMIT && 0 <= self.h <= SIZE_LIMIT
    }
}

/// Marks the human-controlled ship and holds its score.
#[derive(Clone, Copy, Debug, PartialEq, Eq, Structural)]
pub struct Player {
    pub score: i64,
}

impl Player {
    pub open spec fn wf(self) -> bool {
        0 <= self.score <= STAT_LIMIT
    }
}

/// A manually ticked countdown: `finished` latches once the elapsed time
/// reaches the duration and stays set until `reset`.
#[derive(Clone, Copy, Debug, PartialEq, Eq, Structural)]
pub struct Timer {
    pub duration_ms: u32,
    pub elapsed_ms: u32,
    pub finished: bool,
}

impl Timer {
    pub open spec fn wf(self) -> bool {
        self.elapsed_ms <= self.duration_ms <= TIME_LIMIT
    }

    /// A fresh, unfinished timer of the given duration.
    pub fn from_ms(duration_ms: u32) -> (t: Timer)
        requires
            duration_ms <= TIME_LIMIT,
        ensures
            t == (Timer { duration_ms, elapsed_ms: 0, finished: false }),
            t.wf(),
    {
        Timer { duration_ms, elapsed_ms: 0, finished: false }
    }

    /// The timer after `dt` more milliseconds: elapsed time saturates at the
    /// duration, which is when `finished` latches.
    pub open spec fn ticked(self, dt: int) -> Timer {
        let e = if self.elapsed_ms + dt <= self.duration_ms {
            self.elapsed_ms + dt
        } else {
            self.duration_ms as int
        };
        Timer { duration_ms: self.duration_ms, elapsed_ms: e as u32, finished: e >= self.duration_ms }
    }

    /// Advances the timer as [`Timer::ticked`] states.
    pub fn tick(&mut self, dt_ms: u32)
        requires
            old(self).wf(),
            dt_ms <= TICK_LIMIT,
        ensures
            final(self).wf(),
            *final(self) == old(self).ticked(dt_ms as int),
    {
        if dt_ms <= self.duration_ms - self.elapsed_ms {
            self.elapsed_ms = self.elapsed_ms + dt_ms;
        } else {
            self.elapsed_ms = self.duration_ms;
        }
        self.finished = self.elapsed_ms >= self.duration_ms;
    }

    /// Starts the countdown over.
    pub fn reset(&mut self)
        ensures
            *final(self) == (Timer {
                duration_ms: old(self).duration_ms,
                elapsed_ms: 0,
                finished: false,
            }),
    {
        self.elapsed_ms = 0;
        self.finished = false;
    }
}

/// What kind of projectile a weapon emits.
#[derive(Clone, Copy, Debug, PartialEq, Eq, Structural)]
pub enum WeaponKind {
    NovaBlast,
}

/// A weapon, held by an entity separate from its owner and linked to the
/// owner through [`Controlled`]. Emits a projectile when reloaded.
#[derive(Clone, Copy, Debug, PartialEq, Eq, Structural)]
pub struct Weapon {
    pub kind: WeaponKind,
    pub reload: Timer,
    pub energy_drain: i64,
}

impl Weapon {
    pub open spec fn wf(self) -> bool {
        self.reload.wf() && 0 <= self.energy_drain <= STAT_LIMIT
    }
}

/// A discrete action queued on a controller.
#[derive(Clone, Copy, Debug, PartialEq, Eq, Structural)]
pub enum ControllerAction {
    Shoot,
}

/// Most actions a controller queue holds at once; later requests are shed.
pub const ACTION_LIMIT: u64 = 1024;

/// Abstract input target: a movement intent (each axis read by its sign) and
/// queued discrete actions, written by the input collaborator and drained by
/// the actor system each tick. Shooting is the only discrete action today, so
/// the queue is stored as a count of queued actions.
#[derive(Clone, Copy, Debug, PartialEq, Eq, Structural)]
pub struct Controller {
    pub movement_x: i64,
    pub movement_y: i64,
    pub queued_actions: u64,
}

impl Controller {
    pub open spec fn wf(self) -> bool {
        self.queued_actions <= ACTION_LIMIT
    }

    pub fn new() -> (c: Controller)
        ensures
            c == (Controller { movement_x: 0, movement_y: 0, queued_actions: 0 }),
            c.wf(),
    {
        Controller { movement_x: 0, movement_y: 0, queued_actions: 0 }
    }

    /// Queues one discrete action; a full queue sheds it.
    pub fn queue_action(&mut self, a: ControllerAction)
        requires
            old(self).wf(),
        ensures
            final(self).wf(),
            final(self).movement_x == old(self).movement_x,
            final(self).movement_y == old(self).movement_y,
            final(self).queued_actions == if old(self).queued_actions < ACTION_LIMIT {
                old(self).queued_actions + 1
            } else {
                ACTION_LIMIT as int
            },
    {
        match a {
            ControllerAction::Shoot => {
                if self.queued_actions < ACTION_LIMIT {
                    self.queued_actions = self.queued_actions + 1;
                }
            },
        }
    }
}

/// Back-reference to the entity controlling this one; carries no ownership.
#[derive(Clone, Copy, Debug, PartialEq, Eq, Structural)]
pub struct Controlled {
    pub by: Entity,
}

/// This entity deals hull damage on contact.
#[derive(Clone, Copy, Debug, PartialEq, Eq, Structural)]
pub struct Damage {
    pub hull: i64,
}

impl Damage {
    pub open spec fn wf(self) -> bool {
        0 <= self.hull <= STAT_LIMIT
    }
}

/// Who owns the damage this entity deals; used to prevent self-damage and to
/// attribute kills.
#[derive(Clone, Copy, Debug, PartialEq, Eq, Structural)]
pub struct DamageOrigin {
    pub entity: Entity,
}

/// A pending-death flag: set by the combat resolver, acted on by the
/// post-update cleanup, never an immediate removal.
#[derive(Clone, Copy, Debug, PartialEq, Eq, Structural)]
pub struct CanDie {
    pub is_dead: bool,
}

/// Cosmetic particle effect to spawn when this entity dies.
#[derive(Clone, Copy, Debug, PartialEq, Eq, Structural)]
pub enum EffectKind {
    Asteroid,
}

/// This entity produces particles on death.
#[derive(Clone, Copy, Debug, PartialEq, Eq, Structural)]
pub struct DeathEffectParticles {
    pub effect: EffectKind,
}

/// Hull points of an entity, always within `[0, max_hull]`.
#[derive(Clone, Copy, Debug, PartialEq, Eq, Structural)]
pub struct HealthStats {
    pub hull: i64,
    pub max_hull: i64,
}

impl HealthStats {
    pub open spec fn wf(self) -> bool {
        0 <= self.hull <= self.max_hull <= STAT_LIMIT
    }
}

/// Movement stats: acceleration per command tick and top speed, units per second.
#[derive(Clone, Copy, Debug, PartialEq, Eq, Structural)]
pub struct MovementSpeed {
    pub accel: i64,
    pub max: i64,
}

impl MovementSpeed {
    pub open spec fn wf(self) -> bool {
        0 <= self.accel <= VEL_LIMIT && 0 <= self.max <= VEL_LIMIT
    }
}

/// Energy points of an entity, always within `[0, max_energy]`.
#[derive(Clone, Copy, Debug, PartialEq, Eq, Structural)]
pub struct EnergyStats {
    pub energy: i64,
    pub max_energy: i64,
}

impl EnergyStats {
    pub open spec fn wf(self) -> bool {
        0 <= self.energy <= self.max_energy <= STAT_LIMIT
    }
}

/// Periodic energy regeneration: `energy` points each time `cycle` finishes.
#[derive(Clone, Copy, Debug, PartialEq, Eq, Structural)]
pub struct EnergyRegen {
    pub energy: i64,
    pub cycle: Timer,
}

impl EnergyRegen {
    pub open spec fn wf(self) -> bool {
        0 <= self.energy <= STAT_LIMIT && self.cycle.wf()
    }
}

/// This entity stops existing some time after it appears.
#[derive(Clone, Copy, Debug, PartialEq, Eq, Structural)]
pub struct Dissipates {
    pub timer: Timer,
}

impl Dissipates {
    pub open spec fn wf(self) -> bool {
        self.timer.wf()
    }
}

/// This entity dies after being hit `hits_to_die` times.
#[derive(Clone, Copy, Debug, PartialEq, Eq, Structural)]
pub struct DiesOnHit {
    pub hits_to_die: i64,
}

/// This entity can be picked up; `collected` flags it for post-pickup cleanup.
#[derive(Clone, Copy, Debug, PartialEq, Eq, Structural)]
pub struct Collectible {
    pub collected: bool,
}

/// Stat payload added to the collector's [`MovementSpeed`] on pickup.
#[derive(Clone, Copy, Debug, PartialEq, Eq, Structural)]
pub struct SpeedPowerUp {
    pub speed: MovementSpeed,
}

impl SpeedPowerUp {
    pub open spec fn wf(self) -> bool {
        self.speed.wf()
    }
}

/// Stat payload applied to the collector's [`HealthStats`] on pickup: the max
/// grows first, then the current hull is topped up but never above the new max.
#[derive(Clone, Copy, Debug, PartialEq, Eq, Structural)]
pub struct HealthPowerUp {
    pub health: HealthStats,
}

impl HealthPowerUp {
    pub open spec fn wf(self) -> bool {
        0 <= self.health.hull <= STAT_LIMIT && 0 <= self.health.max_hull <= STAT_LIMIT
    }
}

/// Stat payload applied to the collector's [`EnergyStats`] on pickup, with the
/// same grow-max-then-clamp rule as [`HealthPowerUp`].
#[derive(Clone, Copy, Debug, PartialEq, Eq, Structural)]
pub struct EnergyPowerUp {
    pub energy: EnergyStats,
}

impl EnergyPowerUp {
    pub open spec fn wf(self) -> bool {
        0 <= self.energy.energy <= STAT_LIMIT && 0 <= self.energy.max_energy <= STAT_LIMIT
    }
}

/// Points granted to the killer when this entity dies.
#[derive(Clone, Copy, Debug, PartialEq, Eq, Structural)]
pub struct Score {
    pub score: i64,
}

impl Score {
    pub open spec fn wf(self) -> bool {
        0 <= self.score <= STAT_LIMIT
    }
}

/// Adds `a + b`, saturating at `limit`; the guard that keeps stat growth
/// inside the bounds the overflow proofs rest on.
pub fn sat_add_limited(a: i64, b: i64, limit: i64) -> (r: i64)
    requires
        0 <= a <= limit,
        0 <= b <= limit,
        limit <= STAT_LIMIT,
    ensures
        r == if a + b <= limit { a + b } else { limit as int },
        0 <= r <= limit,
{
    if b <= limit - a {
        a + b
    } else {
        limit
    }
}

/// Adds `add` to `cur` but never above `max`: the top-up rule shared by
/// energy regeneration and the health and energy power-ups.
pub fn top_up(cur: i64, add: i64, max: i64) -> (r: i64)
    requires
        0 <= cur <= max,
        0 <= add,
        max <= STAT_LIMIT,
        add <= STAT_LIMIT,
    ensures
        r == if cur + add > max { max as int } else { cur + add },
        0 <= r <= max,
{
    if add > max - cur {
        max
    } else {
        cur + add
    }
}

} // verus!
