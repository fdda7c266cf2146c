//! The component store: per live entity, an open set of typed data fragments.
//!
//! Entities are arena slots with monotonically increasing indices; a slot is
//! never freed, matching the deliberate retire-instead-of-destroy design.
//! Attach and detach are set operations on a record of optional fragments;
//! multi-component queries are presence tests over the records, written as
//! loops in the systems that need them. Looking up a fragment an entity lacks
//! is a normal `None` outcome, never a fault.

use vstd::prelude::*;
use crate::comp::{
    CanDie, Collectible, ColliderBox, Controlled, Controller, Damage, DamageOrigin,
    DeathEffectParticles, DiesOnHit, Dissipates, Drag, EnergyPowerUp, EnergyRegen, EnergyStats,
    HealthPowerUp, HealthStats, MovementSpeed, Player, Position, Score, SpeedPowerUp, Velocity,
    Weapon,
};
use crate::entity::Entity;

verus! {

/// Every fragment an entity may carry. `collector` and `auto_cleaned` are
/// bare markers with no payload.
#[derive(Debug)]
pub struct EntityRec {
    pub position: Option<Position>,
    pub velocity: Option<Velocity>,
    pub drag: Option<Drag>,
    pub collider: Option<ColliderBox>,
    pub player: Option<Player>,
    pub weapon: Option<Weapon>,
    pub controller: Option<Controller>,
    pub controlled: Option<Controlled>,
    pub damage: Option<Damage>,
    pub damage_origin: Option<DamageOrigin>,
    pub can_die: Option<CanDie>,
    pub health: Option<HealthStats>,
    pub movement_speed: Option<MovementSpeed>,
    pub energy: Option<EnergyStats>,
    pub energy_regen: Option<EnergyRegen>,
    pub dissipates: Option<Dissipates>,
    pub dies_on_hit: Option<DiesOnHit>,
    pub collector: bool,
    pub collectible: Option<Collectible>,
    pub speed_power_up: Option<SpeedPowerUp>,
    pub health_power_up: Option<HealthPowerUp>,
    pub energy_power_up: Option<EnergyPowerUp>,
    pub score: Option<Score>,
    pub death_effect: Option<DeathEffectParticles>,
    pub auto_cleaned: bool,
}

impl EntityRec {
    /// Well-formedness of every fragment the record carries: the bounds the
    /// systems' overflow and clamping proofs rest on.
    pub open spec fn wf(self) -> bool {
        &&& (self.position matches Some(c) ==> c.wf())
        &&& (self.velocity matches Some(c) ==> c.wf())
        &&& (self.drag matches Some(c) ==> c.wf())
        &&& (self.collider matches Some(c) ==> c.wf())
        &&& (self.player matches Some(c) ==> c.wf())
        &&& (self.weapon matches Some(c) ==> c.wf())
        &&& (self.controller matches Some(c) ==> c.wf())
        &&& (self.damage matches Some(c) ==> c.wf())
        &&& (self.health matches Some(c) ==> c.wf())
        &&& (self.movement_speed matches Some(c) ==> c.wf())
        &&& (self.energy matches Some(c) ==> c.wf())
        &&& (self.energy_regen matches Some(c) ==> c.wf())
        &&& (self.dissipates matches Some(c) ==> c.wf())
        &&& (self.speed_power_up matches Some(c) ==> c.wf())
        &&& (self.health_power_up matches Some(c) ==> c.wf())
        &&& (self.energy_power_up matches Some(c) ==> c.wf())
        &&& (self.score matches Some(c) ==> c.wf())
    }

    /// A record carrying nothing.
    pub fn empty() -> (r: EntityRec)
        ensures
            r == EntityRec::empty_spec(),
    {
        EntityRec {
            position: None,
            velocity: None,
            drag: None,
            collider: None,
            player: None,
            weapon: None,
            controller: None,
            controlled: None,
            damage: None,
            damage_origin: None,
            can_die: None,
            health: None,
            movement_speed: None,
            energy: None,
            energy_regen: None,
            dissipates: None,
            dies_on_hit: None,
            collector: false,
            collectible: None,
            speed_power_up: None,
            health_power_up: None,
            energy_power_up: None,
            score: None,
            death_effect: None,
            auto_cleaned: false,
        }
    }

    pub open spec fn empty_spec() -> EntityRec {
        EntityRec {
            position: None,
            velocity: None,
            drag: None,
            collider: None,
            player: None,
            weapon: None,
            controller: None,
            controlled: None,
            damage: None,
            damage_origin: None,
            can_die: None,
            health: None,
            movement_speed: None,
            energy: None,
            energy_regen: None,
            dissipates: None,
            dies_on_hit: None,
            collector: false,
            collectible: None,
            speed_power_up: None,
            health_power_up: None,
            energy_power_up: None,
            score: None,
            death_effect: None,
            auto_cleaned: false,
        }
    }
}

/// The arena of entity records. Entities have no identity beyond their slot.
#[derive(Debug)]
pub struct World {
    recs: Vec<EntityRec>,
}

impl View for World {
    type V = Seq<EntityRec>;

    closed spec fn view(&self) -> Seq<EntityRec> {
        self.recs@
    }
}

impl World {
    /// Every record in the world is well-formed.
    pub open spec fn wf(self) -> bool {
        forall|i: int| 0 <= i < self@.len() ==> (#[trigger] self@[i]).wf()
    }

    /// The entity names a slot of this world.
    pub open spec fn valid(self, e: Entity) -> bool {
        e.id < self@.len()
    }

    pub fn new() -> (w: World)
        ensures
            w@ =~= Seq::<EntityRec>::empty(),
            w.wf(),
    {
        World { recs: Vec::new() }
    }

    pub fn num_entities(&self) -> (n: usize)
        ensures
            n == self@.len(),
    {
        self.recs.len()
    }

    /// Creates a fresh entity carrying nothing; its identifier is the next
    /// arena index, never one used before.
    pub fn spawn_empty(&mut self) -> (e: Entity)
        requires
            old(self)@.len() < u64::MAX,
        ensures
            e.id == old(self)@.len(),
            final(self)@ =~= old(self)@.push(EntityRec::empty_spec()),
            old(self).wf() ==> final(self).wf(),
    {
        let e = Entity { id: self.recs.len() as u64 };
        self.recs.push(EntityRec::empty());
        e
    }

    /// Read access to an entity's record.
    pub fn rec(&self, e: Entity) -> (r: &EntityRec)
        requires
            self.valid(e),
        ensures
            *r == self@[e.id as int],
    {
        let n = self.recs.len();
        &self.recs[e.id as usize]
    }

    /// Read access by arena index, for the systems' exhaustive scans.
    pub fn rec_at(&self, i: usize) -> (r: &EntityRec)
        requires
            i < self@.len(),
        ensures
            *r == self@[i as int],
    {
        &self.recs[i]
    }

    /// Write access by arena index; everything else stays as it was.
    pub fn rec_at_mut(&mut self, i: usize) -> (r: &mut EntityRec)
        requires
            i < old(self)@.len(),
        ensures
            *r == old(self)@[i as int],
            final(self)@ =~= old(self)@.update(i as int, *final(r)),
    {
        &mut self.recs[i]
    }
}

/// One typed fragment, ready to attach.
#[derive(Clone, Copy, Debug)]
pub enum Component {
    Position(Position),
    Velocity(Velocity),
    Drag(Drag),
    Collider(ColliderBox),
    Player(Player),
    Weapon(Weapon),
    Controller(Controller),
    Controlled(Controlled),
    Damage(Damage),
    DamageOrigin(DamageOrigin),
    CanDie(CanDie),
    Health(HealthStats),
    MovementSpeed(MovementSpeed),
    Energy(EnergyStats),
    EnergyRegen(EnergyRegen),
    Dissipates(Dissipates),
    DiesOnHit(DiesOnHit),
    Collector,
    Collectible(Collectible),
    SpeedPowerUp(SpeedPowerUp),
    HealthPowerUp(HealthPowerUp),
    EnergyPowerUp(EnergyPowerUp),
    Score(Score),
    DeathEffect(DeathEffectParticles),
    AutoCleaned,
}

impl Component {
    /// Well-formedness of the payload, where the kind has bounds.
    pub open spec fn wf(self) -> bool {
        match self {
            Component::Position(c) => c.wf(),
            Component::Velocity(c) => c.wf(),
            Component::Drag(c) => c.wf(),
            Component::Collider(c) => c.wf(),
            Component::Player(c) => c.wf(),
            Component::Weapon(c) => c.wf(),
            Component::Controller(c) => c.wf(),
            Component::Damage(c) => c.wf(),
            Component::Health(c) => c.wf(),
            Component::MovementSpeed(c) => c.wf(),
            Component::Energy(c) => c.wf(),
            Component::EnergyRegen(c) => c.wf(),
            Component::Dissipates(c) => c.wf(),
            Component::SpeedPowerUp(c) => c.wf(),
            Component::HealthPowerUp(c) => c.wf(),
            Component::EnergyPowerUp(c) => c.wf(),
            Component::Score(c) => c.wf(),
            _ => true,
        }
    }
}

/// The stable tag naming a component kind, for detaching.
#[derive(Clone, Copy, Debug, PartialEq, Eq, Structural)]
pub enum ComponentKind {
    Position,
    Velocity,
    Drag,
    Collider,
    Player,
    Weapon,
    Controller,
    Controlled,
    Damage,
    DamageOrigin,
    CanDie,
    Health,
    MovementSpeed,
    Energy,
    EnergyRegen,
    Dissipates,
    DiesOnHit,
    Collector,
    Collectible,
    SpeedPowerUp,
    HealthPowerUp,
    EnergyPowerUp,
    Score,
    DeathEffect,
    AutoCleaned,
}

/// The record with one fragment set; attaching over an existing fragment of
/// the same kind replaces it.
pub open spec fn attached_rec(r: EntityRec, c: Component) -> EntityRec {
    match c {
        Component::Position(v) => EntityRec { position: Some(v), ..r },
        Component::Velocity(v) => EntityRec { velocity: Some(v), ..r },
        Component::Drag(v) => EntityRec { drag: Some(v), ..r },
        Component::Collider(v) => EntityRec { collider: Some(v), ..r },
        Component::Player(v) => EntityRec { player: Some(v), ..r },
        Component::Weapon(v) => EntityRec { weapon: Some(v), ..r },
        Component::Controller(v) => EntityRec { controller: Some(v), ..r },
        Component::Controlled(v) => EntityRec { controlled: Some(v), ..r },
        Component::Damage(v) => EntityRec { damage: Some(v), ..r },
        Component::DamageOrigin(v) => EntityRec { damage_origin: Some(v), ..r },
        Component::CanDie(v) => EntityRec { can_die: Some(v), ..r },
        Component::Health(v) => EntityRec { health: Some(v), ..r },
        Component::MovementSpeed(v) => EntityRec { movement_speed: Some(v), ..r },
        Component::Energy(v) => EntityRec { energy: Some(v), ..r },
        Component::EnergyRegen(v) => EntityRec { energy_regen: Some(v), ..r },
        Component::Dissipates(v) => EntityRec { dissipates: Some(v), ..r },
        Component::DiesOnHit(v) => EntityRec { dies_on_hit: Some(v), ..r },
        Component::Collector => EntityRec { collector: true, ..r },
        Component::Collectible(v) => EntityRec { collectible: Some(v), ..r },
        Component::SpeedPowerUp(v) => EntityRec { speed_power_up: Some(v), ..r },
        Component::HealthPowerUp(v) => EntityRec { health_power_up: Some(v), ..r },
        Component::EnergyPowerUp(v) => EntityRec { energy_power_up: Some(v), ..r },
        Component::Score(v) => EntityRec { score: Some(v), ..r },
        Component::DeathEffect(v) => EntityRec { death_effect: Some(v), ..r },
        Component::AutoCleaned => EntityRec { auto_cleaned: true, ..r },
    }
}

/// The record with one kind of fragment removed; removing a fragment the
/// record lacks changes nothing.
pub open spec fn detached_rec(r: EntityRec, k: ComponentKind) -> EntityRec {
    match k {
        ComponentKind::Position => EntityRec { position: None, ..r },
        ComponentKind::Velocity => EntityRec { velocity: None, ..r },
        ComponentKind::Drag => EntityRec { drag: None, ..r },
        ComponentKind::Collider => EntityRec { collider: None, ..r },
        ComponentKind::Player => EntityRec { player: None, ..r },
        ComponentKind::Weapon => EntityRec { weapon: None, ..r },
        ComponentKind::Controller => EntityRec { controller: None, ..r },
        ComponentKind::Controlled => EntityRec { controlled: None, ..r },
        ComponentKind::Damage => EntityRec { damage: None, ..r },
        ComponentKind::DamageOrigin => EntityRec { damage_origin: None, ..r },
        ComponentKind::CanDie => EntityRec { can_die: None, ..r },
        ComponentKind::Health => EntityRec { health: None, ..r },
        ComponentKind::MovementSpeed => EntityRec { movement_speed: None, ..r },
        ComponentKind::Energy => EntityRec { energy: None, ..r },
        ComponentKind::EnergyRegen => EntityRec { energy_regen: None, ..r },
        ComponentKind::Dissipates => EntityRec { dissipates: None, ..r },
        ComponentKind::DiesOnHit => EntityRec { dies_on_hit: None, ..r },
        ComponentKind::Collector => EntityRec { collector: false, ..r },
        ComponentKind::Collectible => EntityRec { collectible: None, ..r },
        ComponentKind::SpeedPowerUp => EntityRec { speed_power_up: None, ..r },
        ComponentKind::HealthPowerUp => EntityRec { health_power_up: None, ..r },
        ComponentKind::EnergyPowerUp => EntityRec { energy_power_up: None, ..r },
        ComponentKind::Score => EntityRec { score: None, ..r },
        ComponentKind::DeathEffect => EntityRec { death_effect: None, ..r },
        ComponentKind::AutoCleaned => EntityRec { auto_cleaned: false, ..r },
    }
}

impl World {
    /// Attaches one fragment to an entity, replacing any fragment of the
    /// same kind it already carried.
    pub fn attach(&mut self, e: Entity, c: Component)
        requires
            old(self).valid(e),
            old(self).wf(),
            c.wf(),
        ensures
            final(self).wf(),
            final(self)@ =~= old(self)@.update(e.id as int, attached_rec(old(self)@[e.id as int], c)),
    {
        let n = self.recs.len();
        let rm = &mut self.recs[e.id as usize];
        match c {
            Component::Position(v) => {
                rm.position = Some(v);
            },
            Component::Velocity(v) => {
                rm.velocity = Some(v);
            },
            Component::Drag(v) => {
                rm.drag = Some(v);
            },
            Component::Collider(v) => {
                rm.collider = Some(v);
            },
            Component::Player(v) => {
                rm.player = Some(v);
            },
            Component::Weapon(v) => {
                rm.weapon = Some(v);
            },
            Component::Controller(v) => {
                rm.controller = Some(v);
            },
            Component::Controlled(v) => {
                rm.controlled = Some(v);
            },
            Component::Damage(v) => {
                rm.damage = Some(v);
            },
            Component::DamageOrigin(v) => {
                rm.damage_origin = Some(v);
            },
            Component::CanDie(v) => {
                rm.can_die = Some(v);
            },
            Component::Health(v) => {
                rm.health = Some(v);
            },
            Component::MovementSpeed(v) => {
                rm.movement_speed = Some(v);
            },
            Component::Energy(v) => {
                rm.energy = Some(v);
            },
            Component::EnergyRegen(v) => {
                rm.energy_regen = Some(v);
            },
            Component::Dissipates(v) => {
                rm.dissipates = Some(v);
            },
            Component::DiesOnHit(v) => {
                rm.dies_on_hit = Some(v);
            },
            Component::Collector => {
                rm.collector = true;
            },
            Component::Collectible(v) => {
                rm.collectible = Some(v);
            },
            Component::SpeedPowerUp(v) => {
                rm.speed_power_up = Some(v);
            },
            Component::HealthPowerUp(v) => {
                rm.health_power_up = Some(v);
            },
            Component::EnergyPowerUp(v) => {
                rm.energy_power_up = Some(v);
            },
            Component::Score(v) => {
                rm.score = Some(v);
            },
            Component::DeathEffect(v) => {
                rm.death_effect = Some(v);
            },
            Component::AutoCleaned => {
                rm.auto_cleaned = true;
            },
        }
        proof {
            assert forall|i: int| 0 <= i < self@.len() implies (#[trigger] self@[i]).wf() by {
                assert(old(self)@[i].wf());
            }
        }
    }

    /// Detaches one kind of fragment from an entity; detaching a fragment
    /// the entity lacks is a quiet no-op, never a fault.
    pub fn detach(&mut self, e: Entity, k: ComponentKind)
        requires
            old(self).valid(e),
            old(self).wf(),
        ensures
            final(self).wf(),
            final(self)@ =~= old(self)@.update(e.id as int, detached_rec(old(self)@[e.id as int], k)),
    {
        let n = self.recs.len();
        let rm = &mut self.recs[e.id as usize];
        match k {
            ComponentKind::Position => {
                rm.position = None;
            },
            ComponentKind::Velocity => {
                rm.velocity = None;
            },
            ComponentKind::Drag => {
                rm.drag = None;
            },
            ComponentKind::Collider => {
                rm.collider = None;
            },
            ComponentKind::Player => {
                rm.player = None;
            },
            ComponentKind::Weapon => {
                rm.weapon = None;
            },
            ComponentKind::Controller => {
                rm.controller = None;
            },
            ComponentKind::Controlled => {
                rm.controlled = None;
            },
            ComponentKind::Damage => {
                rm.damage = None;
            },
            ComponentKind::DamageOrigin => {
                rm.damage_origin = None;
            },
            ComponentKind::CanDie => {
                rm.can_die = None;
            },
            ComponentKind::Health => {
                rm.health = None;
            },
            ComponentKind::MovementSpeed => {
                rm.movement_speed = None;
            },
            ComponentKind::Energy => {
                rm.energy = None;
            },
            ComponentKind::EnergyRegen => {
                rm.energy_regen = None;
            },
            ComponentKind::Dissipates => {
                rm.dissipates = None;
            },
            ComponentKind::DiesOnHit => {
                rm.dies_on_hit = None;
            },
            ComponentKind::Collector => {
                rm.collector = false;
            },
            ComponentKind::Collectible => {
                rm.collectible = None;
            },
            ComponentKind::SpeedPowerUp => {
                rm.speed_power_up = None;
            },
            ComponentKind::HealthPowerUp => {
                rm.health_power_up = None;
            },
            ComponentKind::EnergyPowerUp => {
                rm.energy_power_up = None;
            },
            ComponentKind::Score => {
                rm.score = None;
            },
            ComponentKind::DeathEffect => {
                rm.death_effect = None;
            },
            ComponentKind::AutoCleaned => {
                rm.auto_cleaned = false;
            },
        }
        proof {
            assert forall|i: int| 0 <= i < self@.len() implies (#[trigger] self@[i]).wf() by {
                assert(old(self)@[i].wf());
            }
        }
    }
}

/// Hull and energy stay inside their bounds in every well-formed world —
/// and every system keeps the world well-formed.
pub proof fn lemma_stats_in_bounds(w: World, i: int)
    requires
        w.wf(),
        0 <= i < w@.len(),
    ensures
        w@[i].health matches Some(h) ==> 0 <= h.hull <= h.max_hull,
        w@[i].energy matches Some(e) ==> 0 <= e.energy <= e.max_energy,
{
    assert(w@[i].wf());
}

} // verus!
