//! Entity construction: attribute bundles with overridable defaults, the
//! deferred spawn buffer, and the dispatcher that turns spawn requests into
//! entities.
//!
//! Structural mutations are never interleaved with a running system's
//! iteration: spawns are collected into a buffer and applied at the flush
//! point between phases, where each buffered bundle becomes one fresh
//! entity, in request order.

use vstd::prelude::*;
use crate::comp::{
    CanDie, ColliderBox, Damage, DamageOrigin, DeathEffectParticles, DiesOnHit, Dissipates,
    EffectKind, EnergyPowerUp, HealthPowerUp, HealthStats, Position, Score, SpeedPowerUp, Timer,
    Velocity,
};
use crate::entity::Entity;
use crate::events::{SpawnEntityEvent, SpawnType};
use crate::rng::random_in_range;
use crate::world::{EntityRec, World};

verus! {

/// Logical properties of an asteroid.
#[derive(Clone, Copy, Debug, PartialEq, Eq, Structural)]
pub struct AsteroidDataComponents {
    pub translation: Position,
    pub collider: ColliderBox,
    pub velocity: Velocity,
    pub health: HealthStats,
    pub damage: Damage,
}

impl AsteroidDataComponents {
    pub open spec fn wf(self) -> bool {
        self.translation.wf() && self.collider.wf() && self.velocity.wf() && self.health.wf()
            && self.damage.wf()
    }

    /// The stock asteroid: an 80 by 80 collider, a hull of 100 out of 100,
    /// contact damage of 5, at rest at the origin.
    pub fn stock() -> (d: AsteroidDataComponents)
        ensures
            d == AsteroidDataComponents::stock_spec(),
            d.wf(),
    {
        AsteroidDataComponents {
            translation: Position { x: 0, y: 0 },
            collider: ColliderBox { w: 80, h: 80 },
            velocity: Velocity { x: 0, y: 0 },
            health: HealthStats { hull: 100, max_hull: 100 },
            damage: Damage { hull: 5 },
        }
    }

    pub open spec fn stock_spec() -> AsteroidDataComponents {
        AsteroidDataComponents {
            translation: Position { x: 0, y: 0 },
            collider: ColliderBox { w: 80, h: 80 },
            velocity: Velocity { x: 0, y: 0 },
            health: HealthStats { hull: 100, max_hull: 100 },
            damage: Damage { hull: 5 },
        }
    }
}

/// Logical properties of a projectile.
#[derive(Clone, Copy, Debug, PartialEq, Eq, Structural)]
pub struct ProjectileDataComponents {
    pub translation: Position,
    pub collider: ColliderBox,
    pub velocity: Velocity,
    pub damage: Damage,
    pub dissipates: Dissipates,
}

impl ProjectileDataComponents {
    pub open spec fn wf(self) -> bool {
        self.translation.wf() && self.collider.wf() && self.velocity.wf() && self.damage.wf()
            && self.dissipates.wf()
    }

    /// The stock projectile: a 35 by 35 collider, damage of 50, a
    /// two-second time to live, at rest at the origin.
    pub fn stock() -> (d: ProjectileDataComponents)
        ensures
            d == ProjectileDataComponents::stock_spec(),
            d.wf(),
    {
        ProjectileDataComponents {
            translation: Position { x: 0, y: 0 },
            collider: ColliderBox { w: 35, h: 35 },
            velocity: Velocity { x: 0, y: 0 },
            damage: Damage { hull: 50 },
            dissipates: Dissipates { timer: Timer::from_ms(2000) },
        }
    }

    pub open spec fn stock_spec() -> ProjectileDataComponents {
        ProjectileDataComponents {
            translation: Position { x: 0, y: 0 },
            collider: ColliderBox { w: 35, h: 35 },
            velocity: Velocity { x: 0, y: 0 },
            damage: Damage { hull: 50 },
            dissipates: Dissipates {
                timer: Timer { duration_ms: 2000, elapsed_ms: 0, finished: false },
            },
        }
    }
}

/// Common logical properties of a power-up.
#[derive(Clone, Copy, Debug, PartialEq, Eq, Structural)]
pub struct PowerupDataComponents {
    pub translation: Position,
    pub collider: ColliderBox,
    pub velocity: Velocity,
    pub collectible: crate::comp::Collectible,
}

impl PowerupDataComponents {
    pub open spec fn wf(self) -> bool {
        self.translation.wf() && self.collider.wf() && self.velocity.wf()
    }

    /// The stock power-up: a 120 by 20 collider drifting downward.
    pub fn stock() -> (d: PowerupDataComponents)
        ensures
            d == PowerupDataComponents::stock_spec(),
            d.wf(),
    {
        PowerupDataComponents {
            translation: Position { x: 0, y: 0 },
            collider: ColliderBox { w: 120, h: 20 },
            velocity: Velocity { x: 0, y: -40i64 },
            collectible: crate::comp::Collectible { collected: false },
        }
    }

    pub open spec fn stock_spec() -> PowerupDataComponents {
        PowerupDataComponents {
            translation: Position { x: 0, y: 0 },
            collider: ColliderBox { w: 120, h: 20 },
            velocity: Velocity { x: 0, y: -40i64 },
            collectible: crate::comp::Collectible { collected: false },
        }
    }
}

/// Logical properties of an asteroid particle.
#[derive(Clone, Copy, Debug, PartialEq, Eq, Structural)]
pub struct AsteroidParticleDataComponents {
    pub translation: Position,
    pub velocity: Velocity,
    pub dissipates: Dissipates,
}

impl AsteroidParticleDataComponents {
    pub open spec fn wf(self) -> bool {
        self.translation.wf() && self.velocity.wf() && self.dissipates.wf()
    }

    /// The stock particle: at rest at the origin, gone after a second and a
    /// half.
    pub fn stock() -> (d: AsteroidParticleDataComponents)
        ensures
            d == AsteroidParticleDataComponents::stock_spec(),
            d.wf(),
    {
        AsteroidParticleDataComponents {
            translation: Position { x: 0, y: 0 },
            velocity: Velocity { x: 0, y: 0 },
            dissipates: Dissipates { timer: Timer::from_ms(1500) },
        }
    }

    pub open spec fn stock_spec() -> AsteroidParticleDataComponents {
        AsteroidParticleDataComponents {
            translation: Position { x: 0, y: 0 },
            velocity: Velocity { x: 0, y: 0 },
            dissipates: Dissipates {
                timer: Timer { duration_ms: 1500, elapsed_ms: 0, finished: false },
            },
        }
    }
}

impl Default for AsteroidDataComponents {
    /// The stock asteroid bundle.
    fn default() -> (d: AsteroidDataComponents)
        ensures
            d == AsteroidDataComponents::stock_spec(),
            d.wf(),
    {
        AsteroidDataComponents::stock()
    }
}

impl Default for ProjectileDataComponents {
    /// The stock projectile bundle.
    fn default() -> (d: ProjectileDataComponents)
        ensures
            d == ProjectileDataComponents::stock_spec(),
            d.wf(),
    {
        ProjectileDataComponents::stock()
    }
}

impl Default for PowerupDataComponents {
    /// The stock power-up bundle.
    fn default() -> (d: PowerupDataComponents)
        ensures
            d == PowerupDataComponents::stock_spec(),
            d.wf(),
    {
        PowerupDataComponents::stock()
    }
}

impl Default for AsteroidParticleDataComponents {
    /// The stock particle bundle.
    fn default() -> (d: AsteroidParticleDataComponents)
        ensures
            d == AsteroidParticleDataComponents::stock_spec(),
            d.wf(),
    {
        AsteroidParticleDataComponents::stock()
    }
}

/// One power-up effect payload handed to [`spawn_powerup`].
#[derive(Clone, Copy, Debug)]
pub enum PowerUpKind {
    Speed(SpeedPowerUp),
    Health(HealthPowerUp),
    Energy(EnergyPowerUp),
}

impl PowerUpKind {
    pub open spec fn wf(self) -> bool {
        match self {
            PowerUpKind::Speed(p) => p.wf(),
            PowerUpKind::Health(p) => p.wf(),
            PowerUpKind::Energy(p) => p.wf(),
        }
    }
}

/// The effect fragments a power-up entity ends up carrying; a later payload
/// of the same kind replaces an earlier one.
#[derive(Clone, Copy, Debug, PartialEq, Eq, Structural)]
pub struct PowerupExtras {
    pub speed: Option<SpeedPowerUp>,
    pub health: Option<HealthPowerUp>,
    pub energy: Option<EnergyPowerUp>,
}

impl PowerupExtras {
    pub open spec fn wf(self) -> bool {
        &&& (self.speed matches Some(p) ==> p.wf())
        &&& (self.health matches Some(p) ==> p.wf())
        &&& (self.energy matches Some(p) ==> p.wf())
    }

    pub open spec fn none_spec() -> PowerupExtras {
        PowerupExtras { speed: None, health: None, energy: None }
    }
}

/// The extras that a list of payloads resolves to, first to last.
pub open spec fn extras_of(kinds: Seq<PowerUpKind>) -> PowerupExtras
    decreases kinds.len(),
{
    if kinds.len() == 0 {
        PowerupExtras::none_spec()
    } else {
        let rest = extras_of(kinds.drop_last());
        match kinds.last() {
            PowerUpKind::Speed(p) => PowerupExtras { speed: Some(p), ..rest },
            PowerUpKind::Health(p) => PowerupExtras { health: Some(p), ..rest },
            PowerUpKind::Energy(p) => PowerupExtras { energy: Some(p), ..rest },
        }
    }
}

/// A deferred entity construction, applied at the next flush.
#[derive(Clone, Copy, Debug)]
pub enum SpawnOp {
    Asteroid(AsteroidDataComponents),
    Projectile(ProjectileDataComponents, Entity),
    Powerup(PowerupDataComponents, PowerupExtras),
    AsteroidParticle(AsteroidParticleDataComponents),
}

impl SpawnOp {
    pub open spec fn wf(self) -> bool {
        match self {
            SpawnOp::Asteroid(d) => d.wf(),
            SpawnOp::Projectile(d, _) => d.wf(),
            SpawnOp::Powerup(d, e) => d.wf() && e.wf(),
            SpawnOp::AsteroidParticle(d) => d.wf(),
        }
    }
}

/// The record an asteroid is born with: its bundle plus off-bounds cleanup,
/// a death flag, a score of 100 for its killer and a particle effect.
pub open spec fn asteroid_rec(d: AsteroidDataComponents) -> EntityRec {
    EntityRec {
        position: Some(d.translation),
        collider: Some(d.collider),
        velocity: Some(d.velocity),
        health: Some(d.health),
        damage: Some(d.damage),
        auto_cleaned: true,
        can_die: Some(CanDie { is_dead: false }),
        score: Some(Score { score: 100 }),
        death_effect: Some(DeathEffectParticles { effect: EffectKind::Asteroid }),
        ..EntityRec::empty_spec()
    }
}

/// The record a projectile is born with: its bundle plus one-hit death,
/// off-bounds cleanup, and the damage origin it was fired for.
pub open spec fn projectile_rec(d: ProjectileDataComponents, origin: Entity) -> EntityRec {
    EntityRec {
        position: Some(d.translation),
        collider: Some(d.collider),
        velocity: Some(d.velocity),
        damage: Some(d.damage),
        dissipates: Some(d.dissipates),
        dies_on_hit: Some(DiesOnHit { hits_to_die: 1 }),
        auto_cleaned: true,
        damage_origin: Some(DamageOrigin { entity: origin }),
        ..EntityRec::empty_spec()
    }
}

/// The record a power-up is born with: its bundle, off-bounds cleanup and
/// its effect payloads.
pub open spec fn powerup_rec(d: PowerupDataComponents, e: PowerupExtras) -> EntityRec {
    EntityRec {
        position: Some(d.translation),
        collider: Some(d.collider),
        velocity: Some(d.velocity),
        collectible: Some(d.collectible),
        auto_cleaned: true,
        speed_power_up: e.speed,
        health_power_up: e.health,
        energy_power_up: e.energy,
        ..EntityRec::empty_spec()
    }
}

/// The record an asteroid particle is born with: its bundle plus off-bounds
/// cleanup.
pub open spec fn particle_rec(d: AsteroidParticleDataComponents) -> EntityRec {
    EntityRec {
        position: Some(d.translation),
        velocity: Some(d.velocity),
        dissipates: Some(d.dissipates),
        auto_cleaned: true,
        ..EntityRec::empty_spec()
    }
}

/// The record one buffered op constructs.
pub open spec fn spawned_rec(op: SpawnOp) -> EntityRec {
    match op {
        SpawnOp::Asteroid(d) => asteroid_rec(d),
        SpawnOp::Projectile(d, origin) => projectile_rec(d, origin),
        SpawnOp::Powerup(d, e) => powerup_rec(d, e),
        SpawnOp::AsteroidParticle(d) => particle_rec(d),
    }
}

/// The buffer of deferred spawns, flushed between phases.
#[derive(Debug)]
pub struct CommandBuffer {
    ops: Vec<SpawnOp>,
}

impl View for CommandBuffer {
    type V = Seq<SpawnOp>;

    closed spec fn view(&self) -> Seq<SpawnOp> {
        self.ops@
    }
}

impl CommandBuffer {
    pub open spec fn wf(self) -> bool {
        forall|k: int| 0 <= k < self@.len() ==> (#[trigger] self@[k]).wf()
    }

    pub fn new() -> (b: CommandBuffer)
        ensures
            b@ =~= Seq::<SpawnOp>::empty(),
            b.wf(),
    {
        CommandBuffer { ops: Vec::new() }
    }

    pub fn push(&mut self, op: SpawnOp)
        requires
            op.wf(),
        ensures
            final(self)@ =~= old(self)@.push(op),
            old(self).wf() ==> final(self).wf(),
    {
        self.ops.push(op);
        proof {
            if old(self).wf() {
                assert forall|k: int| 0 <= k < self@.len() implies (#[trigger] self@[k]).wf() by {
                    if k < old(self)@.len() {
                        assert(old(self)@[k].wf());
                    }
                }
            }
        }
    }

    pub fn len(&self) -> (n: usize)
        ensures
            n == self@.len(),
    {
        self.ops.len()
    }

    pub fn op_at(&self, k: usize) -> (op: &SpawnOp)
        requires
            k < self@.len(),
        ensures
            *op == self@[k as int],
    {
        &self.ops[k]
    }
}

/// Requests an asteroid; the entity appears at the next flush.
pub fn spawn_asteroid(buf: &mut CommandBuffer, data: AsteroidDataComponents)
    requires
        data.wf(),
    ensures
        final(buf)@ =~= old(buf)@.push(SpawnOp::Asteroid(data)),
        old(buf).wf() ==> final(buf).wf(),
{
    buf.push(SpawnOp::Asteroid(data));
}

/// Requests a projectile fired for `origin`; the entity appears at the next
/// flush.
pub fn spawn_projectile(buf: &mut CommandBuffer, origin: Entity, data: ProjectileDataComponents)
    requires
        data.wf(),
    ensures
        final(buf)@ =~= old(buf)@.push(SpawnOp::Projectile(data, origin)),
        old(buf).wf() ==> final(buf).wf(),
{
    buf.push(SpawnOp::Projectile(data, origin));
}

/// Requests a power-up with the given effect payloads; a later payload of a
/// kind replaces an earlier one. The entity appears at the next flush.
pub fn spawn_powerup(buf: &mut CommandBuffer, data: PowerupDataComponents, kinds: Vec<PowerUpKind>)
    requires
        data.wf(),
        forall|k: int| 0 <= k < kinds@.len() ==> (#[trigger] kinds@[k]).wf(),
    ensures
        final(buf)@ =~= old(buf)@.push(SpawnOp::Powerup(data, extras_of(kinds@))),
        old(buf).wf() ==> final(buf).wf(),
{
    let mut extras = PowerupExtras { speed: None, health: None, energy: None };
    let n = kinds.len();
    let mut k: usize = 0;
    while k < n
        invariant
            k <= n == kinds@.len(),
            forall|j: int| 0 <= j < kinds@.len() ==> (#[trigger] kinds@[j]).wf(),
            extras == extras_of(kinds@.take(k as int)),
            extras.wf(),
        decreases n - k,
    {
        proof {
            assert(kinds@.take(k + 1).drop_last() =~= kinds@.take(k as int));
            assert(kinds@.take(k + 1).last() == kinds@[k as int]);
        }
        match kinds[k] {
            PowerUpKind::Speed(p) => {
                extras.speed = Some(p);
            },
            PowerUpKind::Health(p) => {
                extras.health = Some(p);
            },
            PowerUpKind::Energy(p) => {
                extras.energy = Some(p);
            },
        }
        k = k + 1;
    }
    proof {
        assert(kinds@.take(n as int) =~= kinds@);
    }
    buf.push(SpawnOp::Powerup(data, extras));
}

/// Requests an asteroid particle; the entity appears at the next flush.
pub fn spawn_asteroid_particle(buf: &mut CommandBuffer, data: AsteroidParticleDataComponents)
    requires
        data.wf(),
    ensures
        final(buf)@ =~= old(buf)@.push(SpawnOp::AsteroidParticle(data)),
        old(buf).wf() ==> final(buf).wf(),
{
    buf.push(SpawnOp::AsteroidParticle(data));
}

/// The arena after every buffered op has become a fresh entity, in order.
pub open spec fn flushed(s: Seq<EntityRec>, ops: Seq<SpawnOp>) -> Seq<EntityRec>
    decreases ops.len(),
{
    if ops.len() == 0 {
        s
    } else {
        flushed(s.push(spawned_rec(ops[0])), ops.skip(1))
    }
}

proof fn lemma_flushed_snoc(s: Seq<EntityRec>, ops: Seq<SpawnOp>, op: SpawnOp)
    ensures
        flushed(s, ops.push(op)) == flushed(s, ops).push(spawned_rec(op)),
    decreases ops.len(),
{
    if ops.len() == 0 {
        assert(ops.push(op)[0] == op);
        assert(ops.push(op).skip(1) =~= Seq::<SpawnOp>::empty());
        assert(flushed(s, ops.push(op)) == flushed(
            s.push(spawned_rec(op)),
            Seq::<SpawnOp>::empty(),
        ));
    } else {
        assert(ops.push(op)[0] == ops[0]);
        assert(ops.push(op).skip(1) =~= ops.skip(1).push(op));
        lemma_flushed_snoc(s.push(spawned_rec(ops[0])), ops.skip(1), op);
        assert(flushed(s, ops.push(op)) == flushed(
            s.push(spawned_rec(ops[0])),
            ops.skip(1).push(op),
        ));
    }
}

/// A flush grows the arena by exactly the buffered ops' records.
pub proof fn lemma_flushed_len(s: Seq<EntityRec>, ops: Seq<SpawnOp>)
    ensures
        flushed(s, ops).len() == s.len() + ops.len(),
        forall|i: int| 0 <= i < s.len() ==> flushed(s, ops)[i] == s[i],
        forall|k: int|
            0 <= k < ops.len() ==> flushed(s, ops)[s.len() + k] == spawned_rec(#[trigger] ops[k]),
    decreases ops.len(),
{
    if ops.len() > 0 {
        let s1 = s.push(spawned_rec(ops[0]));
        lemma_flushed_len(s1, ops.skip(1));
        assert(flushed(s, ops) == flushed(s1, ops.skip(1)));
        assert forall|i: int| 0 <= i < s.len() implies flushed(s, ops)[i] == s[i] by {
            assert(flushed(s1, ops.skip(1))[i] == s1[i]);
            assert(s1[i] == s[i]);
        }
        assert forall|k: int| 0 <= k < ops.len() implies flushed(s, ops)[s.len() + k]
            == spawned_rec(#[trigger] ops[k]) by {
            if k == 0 {
                assert(flushed(s1, ops.skip(1))[s.len() as int] == s1[s.len() as int]);
                assert(s1[s.len() as int] == spawned_rec(ops[0]));
            } else {
                assert(ops.skip(1)[k - 1] == ops[k]);
                assert(flushed(s1, ops.skip(1))[s1.len() + (k - 1)] == spawned_rec(
                    ops.skip(1)[k - 1],
                ));
            }
        }
    }
}

/// Applies every buffered spawn: each op becomes one fresh entity at the end
/// of the arena, in request order, and the buffer empties.
pub fn flush_spawns(w: &mut World, buf: &mut CommandBuffer)
    requires
        old(w).wf(),
        old(buf).wf(),
        old(w)@.len() + old(buf)@.len() < u64::MAX,
    ensures
        final(w).wf(),
        final(w)@ == flushed(old(w)@, old(buf)@),
        final(w)@.len() == old(w)@.len() + old(buf)@.len(),
        forall|i: int| 0 <= i < old(w)@.len() ==> final(w)@[i] == old(w)@[i],
        final(buf)@ =~= Seq::<SpawnOp>::empty(),
        final(buf).wf(),
{
    proof {
        lemma_flushed_len(old(w)@, old(buf)@);
    }
    let ghost s0 = w@;
    let ghost ops0 = buf@;
    let n = buf.len();
    let mut k: usize = 0;
    while k < n
        invariant
            w.wf(),
            k <= n == buf@.len(),
            buf@ == ops0,
            buf.wf(),
            s0.len() + n < u64::MAX,
            w@ =~= flushed(s0, ops0.take(k as int)),
            w@.len() == s0.len() + k,
        decreases n - k,
    {
        let op = *buf.op_at(k);
        let e = w.spawn_empty();
        let i = w.num_entities() - 1;
        proof {
            assert(i == e.id);
        }
        let rm = w.rec_at_mut(i);
        match op {
            SpawnOp::Asteroid(d) => {
                rm.position = Some(d.translation);
                rm.collider = Some(d.collider);
                rm.velocity = Some(d.velocity);
                rm.health = Some(d.health);
                rm.damage = Some(d.damage);
                rm.auto_cleaned = true;
                rm.can_die = Some(CanDie { is_dead: false });
                rm.score = Some(Score { score: 100 });
                rm.death_effect = Some(DeathEffectParticles { effect: EffectKind::Asteroid });
            },
            SpawnOp::Projectile(d, origin) => {
                rm.position = Some(d.translation);
                rm.collider = Some(d.collider);
                rm.velocity = Some(d.velocity);
                rm.damage = Some(d.damage);
                rm.dissipates = Some(d.dissipates);
                rm.dies_on_hit = Some(DiesOnHit { hits_to_die: 1 });
                rm.auto_cleaned = true;
                rm.damage_origin = Some(DamageOrigin { entity: origin });
            },
            SpawnOp::Powerup(d, extras) => {
                rm.position = Some(d.translation);
                rm.collider = Some(d.collider);
                rm.velocity = Some(d.velocity);
                rm.collectible = Some(d.collectible);
                rm.auto_cleaned = true;
                rm.speed_power_up = extras.speed;
                rm.health_power_up = extras.health;
                rm.energy_power_up = extras.energy;
            },
            SpawnOp::AsteroidParticle(d) => {
                rm.position = Some(d.translation);
                rm.velocity = Some(d.velocity);
                rm.dissipates = Some(d.dissipates);
                rm.auto_cleaned = true;
            },
        }
        proof {
            assert(ops0[k as int].wf());
            assert(w@ =~= flushed(s0, ops0.take(k as int)).push(spawned_rec(ops0[k as int])));
            lemma_flushed_snoc(s0, ops0.take(k as int), ops0[k as int]);
            assert(ops0.take(k + 1) =~= ops0.take(k as int).push(ops0[k as int]));
        }
        k = k + 1;
    }
    proof {
        assert(ops0.take(n as int) =~= ops0);
    }
    *buf = CommandBuffer::new();
}

/// What the dispatcher owes for one spawn request: an asteroid or projectile
/// op carries the request's location and velocity onto the stock bundle, a
/// projectile's origin is the request's, or the spawner when it names none;
/// a power-up op carries one of the three standard payloads.
pub open spec fn op_matches_request(op: SpawnOp, ev: SpawnEntityEvent, representative: Entity) -> bool {
    match ev.spawn_type {
        SpawnType::Asteroid => op == SpawnOp::Asteroid(
            AsteroidDataComponents {
                translation: dispatch_position(ev),
                velocity: dispatch_velocity(ev, AsteroidDataComponents::stock_spec().velocity),
                ..AsteroidDataComponents::stock_spec()
            },
        ),
        SpawnType::Projectile => op == SpawnOp::Projectile(
            ProjectileDataComponents {
                translation: dispatch_position(ev),
                velocity: dispatch_velocity(ev, ProjectileDataComponents::stock_spec().velocity),
                ..ProjectileDataComponents::stock_spec()
            },
            match ev.origin {
                Some(o) => o,
                None => representative,
            },
        ),
        SpawnType::Powerup => {
            let data = PowerupDataComponents {
                translation: dispatch_position(ev),
                velocity: dispatch_velocity(ev, PowerupDataComponents::stock_spec().velocity),
                ..PowerupDataComponents::stock_spec()
            };
            op == SpawnOp::Powerup(data, standard_speed_extras())
                || op == SpawnOp::Powerup(data, standard_health_extras())
                || op == SpawnOp::Powerup(data, standard_energy_extras())
        },
    }
}

/// The position a request resolves to: its own, clamped to the coordinate
/// bound.
pub open spec fn dispatch_position(ev: SpawnEntityEvent) -> Position {
    Position {
        x: crate::physics::clamped(
            ev.location.x as int,
            -crate::comp::COORD_LIMIT as int,
            crate::comp::COORD_LIMIT as int,
        ) as i64,
        y: crate::physics::clamped(
            ev.location.y as int,
            -crate::comp::COORD_LIMIT as int,
            crate::comp::COORD_LIMIT as int,
        ) as i64,
    }
}

/// The velocity a request resolves to: its own, clamped to the machine
/// bound, or the stock bundle's when it names none.
pub open spec fn dispatch_velocity(ev: SpawnEntityEvent, stock: Velocity) -> Velocity {
    match ev.velocity {
        Some(v) => Velocity {
            x: crate::physics::clamped(
                v.x as int,
                -crate::comp::VEL_LIMIT as int,
                crate::comp::VEL_LIMIT as int,
            ) as i64,
            y: crate::physics::clamped(
                v.y as int,
                -crate::comp::VEL_LIMIT as int,
                crate::comp::VEL_LIMIT as int,
            ) as i64,
        },
        None => stock,
    }
}

/// The standard speed payload a dispatched power-up may carry.
pub open spec fn standard_speed_extras() -> PowerupExtras {
    PowerupExtras {
        speed: Some(
            SpeedPowerUp { speed: crate::comp::MovementSpeed { accel: 2, max: 40 } },
        ),
        health: None,
        energy: None,
    }
}

/// The standard health payload a dispatched power-up may carry.
pub open spec fn standard_health_extras() -> PowerupExtras {
    PowerupExtras {
        speed: None,
        health: Some(HealthPowerUp { health: HealthStats { hull: 90, max_hull: 0 } }),
        energy: None,
    }
}

/// The standard energy payload a dispatched power-up may carry.
pub open spec fn standard_energy_extras() -> PowerupExtras {
    PowerupExtras {
        speed: None,
        health: None,
        energy: Some(
            EnergyPowerUp { energy: crate::comp::EnergyStats { energy: 200, max_energy: 20 } },
        ),
    }
}

/// Clamps a requested position onto the coordinate bound.
fn clamp_position(p: Position) -> (r: Position)
    ensures
        r == (Position {
            x: crate::physics::clamped(
                p.x as int,
                -crate::comp::COORD_LIMIT as int,
                crate::comp::COORD_LIMIT as int,
            ) as i64,
            y: crate::physics::clamped(
                p.y as int,
                -crate::comp::COORD_LIMIT as int,
                crate::comp::COORD_LIMIT as int,
            ) as i64,
        }),
        r.wf(),
{
    let x = if p.x < -crate::comp::COORD_LIMIT {
        -crate::comp::COORD_LIMIT
    } else if p.x > crate::comp::COORD_LIMIT {
        crate::comp::COORD_LIMIT
    } else {
        p.x
    };
    let y = if p.y < -crate::comp::COORD_LIMIT {
        -crate::comp::COORD_LIMIT
    } else if p.y > crate::comp::COORD_LIMIT {
        crate::comp::COORD_LIMIT
    } else {
        p.y
    };
    Position { x, y }
}

/// Clamps a requested velocity onto the machine bound.
fn clamp_velocity(v: Velocity) -> (r: Velocity)
    ensures
        r == (Velocity {
            x: crate::physics::clamped(
                v.x as int,
                -crate::comp::VEL_LIMIT as int,
                crate::comp::VEL_LIMIT as int,
            ) as i64,
            y: crate::physics::clamped(
                v.y as int,
                -crate::comp::VEL_LIMIT as int,
                crate::comp::VEL_LIMIT as int,
            ) as i64,
        }),
        r.wf(),
{
    let x = if v.x < -crate::comp::VEL_LIMIT {
        -crate::comp::VEL_LIMIT
    } else if v.x > crate::comp::VEL_LIMIT {
        crate::comp::VEL_LIMIT
    } else {
        v.x
    };
    let y = if v.y < -crate::comp::VEL_LIMIT {
        -crate::comp::VEL_LIMIT
    } else if v.y > crate::comp::VEL_LIMIT {
        crate::comp::VEL_LIMIT
    } else {
        v.y
    };
    Velocity { x, y }
}

/// Turns each spawn request into one buffered op: kind-specific stock
/// bundles with the request's location and velocity laid over them. The
/// power-up payload is drawn at random from the three standard ones.
pub fn generic_spawn_entity_system(
    buf: &mut CommandBuffer,
    events: &Vec<SpawnEntityEvent>,
    representative: Entity,
)
    requires
        old(buf).wf(),
    ensures
        final(buf).wf(),
        final(buf)@.len() == old(buf)@.len() + events@.len(),
        forall|j: int| 0 <= j < old(buf)@.len() ==> final(buf)@[j] == old(buf)@[j],
        forall|k: int|
            0 <= k < events@.len() ==> op_matches_request(
                final(buf)@[old(buf)@.len() + k],
                #[trigger] events@[k],
                representative,
            ),
{
    let ghost b0 = buf@;
    let m = events.len();
    let mut k: usize = 0;
    while k < m
        invariant
            buf.wf(),
            k <= m == events@.len(),
            buf@.len() == b0.len() + k,
            forall|j: int| 0 <= j < b0.len() ==> buf@[j] == b0[j],
            forall|j: int|
                0 <= j < k ==> op_matches_request(
                    buf@[b0.len() + j],
                    #[trigger] events@[j],
                    representative,
                ),
        decreases m - k,
    {
        let ghost b_pre = buf@;
        let ev = events[k];
        let loc = clamp_position(ev.location);
        match ev.spawn_type {
            SpawnType::Asteroid => {
                let mut data = AsteroidDataComponents::stock();
                data.translation = loc;
                if let Some(v) = ev.velocity {
                    data.velocity = clamp_velocity(v);
                }
                spawn_asteroid(buf, data);
            },
            SpawnType::Projectile => {
                let mut data = ProjectileDataComponents::stock();
                data.translation = loc;
                if let Some(v) = ev.velocity {
                    data.velocity = clamp_velocity(v);
                }
                let origin = match ev.origin {
                    Some(o) => o,
                    None => representative,
                };
                spawn_projectile(buf, origin, data);
            },
            SpawnType::Powerup => {
                let mut data = PowerupDataComponents::stock();
                data.translation = loc;
                if let Some(v) = ev.velocity {
                    data.velocity = clamp_velocity(v);
                }
                let select = random_in_range(0, 3);
                let kind = if select == 0 {
                    PowerUpKind::Speed(
                        SpeedPowerUp { speed: crate::comp::MovementSpeed { accel: 2, max: 40 } },
                    )
                } else if select == 1 {
                    PowerUpKind::Health(
                        HealthPowerUp { health: HealthStats { hull: 90, max_hull: 0 } },
                    )
                } else {
                    PowerUpKind::Energy(
                        EnergyPowerUp {
                            energy: crate::comp::EnergyStats { energy: 200, max_energy: 20 },
                        },
                    )
                };
                let mut kinds: Vec<PowerUpKind> = Vec::new();
                kinds.push(kind);
                proof {
                    assert(kinds@.drop_last() =~= Seq::<PowerUpKind>::empty());
                    assert(extras_of(Seq::<PowerUpKind>::empty()) == PowerupExtras::none_spec());
                    assert(kinds@.last() == kind);
                }
                spawn_powerup(buf, data, kinds);
            },
        }
        proof {
            assert(op_matches_request(buf@[b0.len() + k], events@[k as int], representative));
        }
        k = k + 1;
    }
}


/// The entity's death should produce particles: its death flag is set and it
/// carries an asteroid particle effect and a position.
pub open spec fn wants_death_effect(r: EntityRec) -> bool {
    &&& r.can_die is Some && r.can_die.unwrap().is_dead
    &&& r.death_effect is Some && r.death_effect.unwrap().effect is Asteroid
    &&& r.position is Some
}

/// How many of the first `n` records want a death effect.
pub open spec fn count_death_effects(s: Seq<EntityRec>, n: int) -> int
    decreases n,
{
    if n <= 0 {
        0
    } else {
        count_death_effects(s, n - 1) + if wants_death_effect(s[n - 1]) {
            1int
        } else {
            0int
        }
    }
}

/// At most one death effect per record.
pub proof fn lemma_count_death_effects_bound(s: Seq<EntityRec>, n: int)
    ensures
        0 <= count_death_effects(s, n),
        n >= 0 ==> count_death_effects(s, n) <= n,
    decreases n,
{
    if n > 0 {
        lemma_count_death_effects_bound(s, n - 1);
    }
}

/// The op is one cosmetic scatter particle: gone after a second and a half,
/// moving at up to 40 units per second on each axis.
pub open spec fn is_scatter_particle(op: SpawnOp) -> bool {
    &&& op matches SpawnOp::AsteroidParticle(d)
    &&& (op matches SpawnOp::AsteroidParticle(d) ==> {
        &&& d.dissipates == AsteroidParticleDataComponents::stock_spec().dissipates
        &&& -40 <= d.velocity.x < 40
        &&& -40 <= d.velocity.y < 40
    })
}

/// Scatters five cosmetic particles from every dead entity that carries a
/// particle effect; their directions are drawn at random.
pub fn death_effect_particles_system(w: &World, buf: &mut CommandBuffer)
    requires
        w.wf(),
        old(buf).wf(),
    ensures
        final(buf).wf(),
        final(buf)@.len() == old(buf)@.len() + 5 * count_death_effects(w@, w@.len() as int),
        forall|j: int| 0 <= j < old(buf)@.len() ==> final(buf)@[j] == old(buf)@[j],
        forall|k: int|
            old(buf)@.len() <= k < final(buf)@.len() ==> is_scatter_particle(
                #[trigger] final(buf)@[k],
            ),
{
    let ghost b0 = buf@;
    let n = w.num_entities();
    let mut i: usize = 0;
    while i < n
        invariant
            w.wf(),
            buf.wf(),
            i <= n == w@.len(),
            b0.len() <= buf@.len() == b0.len() + 5 * count_death_effects(w@, i as int),
            forall|j: int| 0 <= j < b0.len() ==> buf@[j] == b0[j],
            forall|k: int| b0.len() <= k < buf@.len() ==> is_scatter_particle(#[trigger] buf@[k]),
        decreases n - i,
    {
        let r = w.rec_at(i);
        let dead = match r.can_die {
            Some(c) => c.is_dead,
            None => false,
        };
        if dead && r.death_effect.is_some() && r.position.is_some() {
            let pos = r.position.unwrap();
            match r.death_effect.unwrap().effect {
                crate::comp::EffectKind::Asteroid => {
                    let mut p: usize = 0;
                    while p < 5
                        invariant
                            w.wf(),
                            buf.wf(),
                            i < n == w@.len(),
                            p <= 5,
                            wants_death_effect(w@[i as int]),
                            pos == w@[i as int].position.unwrap(),
                            b0.len() <= buf@.len() == b0.len() + 5 * count_death_effects(
                                w@,
                                i as int,
                            ) + p,
                            forall|j: int| 0 <= j < b0.len() ==> buf@[j] == b0[j],
                            forall|k: int|
                                b0.len() <= k < buf@.len() ==> is_scatter_particle(
                                    #[trigger] buf@[k],
                                ),
                        decreases 5 - p,
                    {
                        let vx = random_in_range(-40, 40);
                        let vy = random_in_range(-40, 40);
                        let mut data = AsteroidParticleDataComponents::stock();
                        data.translation = pos;
                        data.velocity = Velocity { x: vx, y: vy };
                        proof {
                            assert(w@[i as int].wf());
                        }
                        let ghost b_pre = buf@;
                        spawn_asteroid_particle(buf, data);
                        proof {
                            assert(is_scatter_particle(buf@[buf@.len() - 1]));
                            assert forall|j: int| 0 <= j < b0.len() implies buf@[j] == b0[j] by {
                                assert(buf@[j] == b_pre[j]);
                            }
                        }
                        p = p + 1;
                    }
                },
            }
        }
        i = i + 1;
    }
}

} // verus!
