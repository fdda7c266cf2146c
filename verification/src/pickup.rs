//! Pickup detection and power-up application.
//!
//! A collision between a collector and a collectible publishes a pickup
//! event and flags the collectible as collected. A second, independent
//! family of systems consumes pickup events per power-up kind and applies
//! the payload to the collector's matching stat component; each application
//! happens exactly once per pickup event, and the kinds are independent.

use vstd::prelude::*;
use crate::comp::{
    Collectible, EnergyStats, HealthStats, MovementSpeed, sat_add_limited, top_up, STAT_LIMIT,
    VEL_LIMIT,
};
use crate::events::{CollisionEvent, PickupEvent};
use crate::physics::ent;
use crate::world::{EntityRec, World};

verus! {

/// The pickup detector's running state.
#[verifier::ext_equal]
pub struct PickupState {
    pub recs: Seq<EntityRec>,
    pub pickups: Seq<PickupEvent>,
}

/// One directional pick: if `collector` carries the collector marker and
/// `pickup` is collectible, a pickup event is published and the collectible
/// is flagged as collected.
pub open spec fn apply_pick(st: PickupState, collector: int, pickup: int) -> PickupState {
    if st.recs[collector].collector && st.recs[pickup].collectible is Some {
        PickupState {
            recs: st.recs.update(
                pickup,
                EntityRec { collectible: Some(Collectible { collected: true }), ..st.recs[pickup] },
            ),
            pickups: st.pickups.push(PickupEvent { collector: ent(collector), pickup: ent(pickup) }),
        }
    } else {
        st
    }
}

/// One collision event: each collector of the pair, in arena order, picks up
/// the other member. A self-pair or an identifier outside the arena changes
/// nothing.
pub open spec fn apply_collision_pick(st: PickupState, ev: CollisionEvent) -> PickupState {
    let a = ev.0.id as int;
    let b = ev.1.id as int;
    let lo = if a <= b { a } else { b };
    let hi = if a <= b { b } else { a };
    if 0 <= a < st.recs.len() && 0 <= b < st.recs.len() && a != b {
        apply_pick(apply_pick(st, lo, hi), hi, lo)
    } else {
        st
    }
}

/// The whole detection pass, in publication order.
pub open spec fn pickup_fold(st: PickupState, evs: Seq<CollisionEvent>) -> PickupState
    decreases evs.len(),
{
    if evs.len() == 0 {
        st
    } else {
        pickup_fold(apply_collision_pick(st, evs[0]), evs.skip(1))
    }
}

pub proof fn lemma_pickup_fold_snoc(st: PickupState, evs: Seq<CollisionEvent>, ev: CollisionEvent)
    ensures
        pickup_fold(st, evs.push(ev)) == apply_collision_pick(pickup_fold(st, evs), ev),
    decreases evs.len(),
{
    if evs.len() == 0 {
        assert(evs.push(ev)[0] == ev);
        assert(evs.push(ev).skip(1) =~= Seq::<CollisionEvent>::empty());
        assert(pickup_fold(st, evs.push(ev)) == pickup_fold(
            apply_collision_pick(st, ev),
            Seq::<CollisionEvent>::empty(),
        ));
    } else {
        assert(evs.push(ev)[0] == evs[0]);
        assert(evs.push(ev).skip(1) =~= evs.skip(1).push(ev));
        lemma_pickup_fold_snoc(apply_collision_pick(st, evs[0]), evs.skip(1), ev);
        assert(pickup_fold(st, evs.push(ev)) == pickup_fold(
            apply_collision_pick(st, evs[0]),
            evs.skip(1).push(ev),
        ));
    }
}

/// Detects pickups among the tick's collision events, exactly as the fold
/// over the events states.
#[verifier::rlimit(50)]
pub fn detect_pickup_system(w: &mut World, collisions: &Vec<CollisionEvent>) -> (out: Vec<
    PickupEvent,
>)
    requires
        old(w).wf(),
    ensures
        final(w).wf(),
        final(w)@.len() == old(w)@.len(),
        out@.len() <= 2 * collisions@.len(),
        ({
            let st = pickup_fold(
                PickupState { recs: old(w)@, pickups: Seq::empty() },
                collisions@,
            );
            final(w)@ == st.recs && out@ == st.pickups
        }),
{
    let ghost st0 = PickupState { recs: w@, pickups: Seq::empty() };
    let mut out: Vec<PickupEvent> = Vec::new();
    let m = collisions.len();
    let mut k: usize = 0;
    while k < m
        invariant
            w.wf(),
            k <= m == collisions@.len(),
            w@.len() == st0.recs.len(),
            out@.len() <= 2 * k,
            (PickupState { recs: w@, pickups: out@ }) =~= pickup_fold(
                st0,
                collisions@.take(k as int),
            ),
        decreases m - k,
    {
        let ev = collisions[k];
        let ghost st_pre = PickupState { recs: w@, pickups: out@ };
        let n = w.num_entities();
        let a = ev.0.id;
        let b = ev.1.id;
        if a < n as u64 && b < n as u64 && a != b {
            let lo = if a <= b { a as usize } else { b as usize };
            let hi = if a <= b { b as usize } else { a as usize };
            apply_pick_exec(w, lo, hi, &mut out);
            apply_pick_exec(w, hi, lo, &mut out);
            proof {
                assert((PickupState { recs: w@, pickups: out@ }) =~= apply_collision_pick(
                    st_pre,
                    ev,
                ));
            }
        } else {
            proof {
                assert((PickupState { recs: w@, pickups: out@ }) =~= apply_collision_pick(
                    st_pre,
                    ev,
                ));
            }
        }
        proof {
            lemma_pickup_fold_snoc(st0, collisions@.take(k as int), ev);
            assert(collisions@.take(k + 1) =~= collisions@.take(k as int).push(ev));
        }
        k = k + 1;
    }
    proof {
        assert(collisions@.take(m as int) =~= collisions@);
    }
    out
}

/// One directional pick, exactly as [`apply_pick`] states it.
fn apply_pick_exec(w: &mut World, collector: usize, pickup: usize, out: &mut Vec<PickupEvent>)
    requires
        old(w).wf(),
        collector < old(w)@.len(),
        pickup < old(w)@.len(),
    ensures
        final(w).wf(),
        final(w)@.len() == old(w)@.len(),
        final(out)@.len() <= old(out)@.len() + 1,
        (PickupState { recs: final(w)@, pickups: final(out)@ }) =~= apply_pick(
            PickupState { recs: old(w)@, pickups: old(out)@ },
            collector as int,
            pickup as int,
        ),
{
    if !w.rec_at(collector).collector {
        return ;
    }
    if w.rec_at(pickup).collectible.is_none() {
        return ;
    }
    let rm = w.rec_at_mut(pickup);
    rm.collectible = Some(Collectible { collected: true });
    out.push(
        PickupEvent {
            collector: crate::entity::Entity { id: collector as u64 },
            pickup: crate::entity::Entity { id: pickup as u64 },
        },
    );
}

/// A movement-speed record after one speed power-up: both stats grow,
/// saturating at the machine bound.
pub open spec fn speed_boosted(s: MovementSpeed, p: MovementSpeed) -> MovementSpeed {
    MovementSpeed {
        accel: if s.accel + p.accel <= VEL_LIMIT {
            (s.accel + p.accel) as i64
        } else {
            VEL_LIMIT as i64
        },
        max: if s.max + p.max <= VEL_LIMIT {
            (s.max + p.max) as i64
        } else {
            VEL_LIMIT as i64
        },
    }
}

/// A health record after one health power-up: the max grows first, then the
/// hull is topped up, never above the new max.
pub open spec fn health_boosted(h: HealthStats, p: HealthStats) -> HealthStats {
    let new_max = if h.max_hull + p.max_hull <= STAT_LIMIT {
        h.max_hull + p.max_hull
    } else {
        STAT_LIMIT as int
    };
    HealthStats {
        hull: if h.hull + p.hull > new_max {
            new_max as i64
        } else {
            (h.hull + p.hull) as i64
        },
        max_hull: new_max as i64,
    }
}

/// An energy record after one energy power-up, with the same
/// grow-max-then-clamp rule as [`health_boosted`].
pub open spec fn energy_boosted(e: EnergyStats, p: EnergyStats) -> EnergyStats {
    let new_max = if e.max_energy + p.max_energy <= STAT_LIMIT {
        e.max_energy + p.max_energy
    } else {
        STAT_LIMIT as int
    };
    EnergyStats {
        energy: if e.energy + p.energy > new_max {
            new_max as i64
        } else {
            (e.energy + p.energy) as i64
        },
        max_energy: new_max as i64,
    }
}

/// One pickup event as the speed applier sees it: if the collector has
/// movement stats and the pickup carries a speed payload, the payload is
/// applied once.
pub open spec fn apply_speed_event(s: Seq<EntityRec>, ev: PickupEvent) -> Seq<EntityRec> {
    let c = ev.collector.id as int;
    let p = ev.pickup.id as int;
    if 0 <= c < s.len() && 0 <= p < s.len() && s[c].movement_speed is Some
        && s[p].speed_power_up is Some {
        s.update(
            c,
            EntityRec {
                movement_speed: Some(
                    speed_boosted(s[c].movement_speed.unwrap(), s[p].speed_power_up.unwrap().speed),
                ),
                ..s[c]
            },
        )
    } else {
        s
    }
}

pub open spec fn speed_fold(s: Seq<EntityRec>, evs: Seq<PickupEvent>) -> Seq<EntityRec>
    decreases evs.len(),
{
    if evs.len() == 0 {
        s
    } else {
        speed_fold(apply_speed_event(s, evs[0]), evs.skip(1))
    }
}

pub proof fn lemma_speed_fold_snoc(s: Seq<EntityRec>, evs: Seq<PickupEvent>, ev: PickupEvent)
    ensures
        speed_fold(s, evs.push(ev)) == apply_speed_event(speed_fold(s, evs), ev),
    decreases evs.len(),
{
    if evs.len() == 0 {
        assert(evs.push(ev)[0] == ev);
        assert(evs.push(ev).skip(1) =~= Seq::<PickupEvent>::empty());
        assert(speed_fold(s, evs.push(ev)) == speed_fold(
            apply_speed_event(s, ev),
            Seq::<PickupEvent>::empty(),
        ));
    } else {
        assert(evs.push(ev)[0] == evs[0]);
        assert(evs.push(ev).skip(1) =~= evs.skip(1).push(ev));
        lemma_speed_fold_snoc(apply_speed_event(s, evs[0]), evs.skip(1), ev);
        assert(speed_fold(s, evs.push(ev)) == speed_fold(
            apply_speed_event(s, evs[0]),
            evs.skip(1).push(ev),
        ));
    }
}

/// Applies every speed power-up named by the tick's pickup events, exactly
/// as the fold over the events states.
pub fn apply_speed_powerup_system(w: &mut World, pickups: &Vec<PickupEvent>)
    requires
        old(w).wf(),
    ensures
        final(w).wf(),
        final(w)@.len() == old(w)@.len(),
        final(w)@ == speed_fold(old(w)@, pickups@),
{
    let ghost s0 = w@;
    let m = pickups.len();
    let mut k: usize = 0;
    while k < m
        invariant
            w.wf(),
            k <= m == pickups@.len(),
            w@.len() == s0.len(),
            w@ =~= speed_fold(s0, pickups@.take(k as int)),
        decreases m - k,
    {
        let ev = pickups[k];
        apply_speed_event_exec(w, ev);
        proof {
            lemma_speed_fold_snoc(s0, pickups@.take(k as int), ev);
            assert(pickups@.take(k + 1) =~= pickups@.take(k as int).push(ev));
        }
        k = k + 1;
    }
    proof {
        assert(pickups@.take(m as int) =~= pickups@);
    }
}

/// One pickup event as the health applier sees it.
pub open spec fn apply_health_event(s: Seq<EntityRec>, ev: PickupEvent) -> Seq<EntityRec> {
    let c = ev.collector.id as int;
    let p = ev.pickup.id as int;
    if 0 <= c < s.len() && 0 <= p < s.len() && s[c].health is Some && s[p].health_power_up
        is Some {
        s.update(
            c,
            EntityRec {
                health: Some(
                    health_boosted(s[c].health.unwrap(), s[p].health_power_up.unwrap().health),
                ),
                ..s[c]
            },
        )
    } else {
        s
    }
}

pub open spec fn health_fold(s: Seq<EntityRec>, evs: Seq<PickupEvent>) -> Seq<EntityRec>
    decreases evs.len(),
{
    if evs.len() == 0 {
        s
    } else {
        health_fold(apply_health_event(s, evs[0]), evs.skip(1))
    }
}

pub proof fn lemma_health_fold_snoc(s: Seq<EntityRec>, evs: Seq<PickupEvent>, ev: PickupEvent)
    ensures
        health_fold(s, evs.push(ev)) == apply_health_event(health_fold(s, evs), ev),
    decreases evs.len(),
{
    if evs.len() == 0 {
        assert(evs.push(ev)[0] == ev);
        assert(evs.push(ev).skip(1) =~= Seq::<PickupEvent>::empty());
        assert(health_fold(s, evs.push(ev)) == health_fold(
            apply_health_event(s, ev),
            Seq::<PickupEvent>::empty(),
        ));
    } else {
        assert(evs.push(ev)[0] == evs[0]);
        assert(evs.push(ev).skip(1) =~= evs.skip(1).push(ev));
        lemma_health_fold_snoc(apply_health_event(s, evs[0]), evs.skip(1), ev);
        assert(health_fold(s, evs.push(ev)) == health_fold(
            apply_health_event(s, evs[0]),
            evs.skip(1).push(ev),
        ));
    }
}

/// Applies every health power-up named by the tick's pickup events, exactly
/// as the fold over the events states.
pub fn apply_health_powerup_system(w: &mut World, pickups: &Vec<PickupEvent>)
    requires
        old(w).wf(),
    ensures
        final(w).wf(),
        final(w)@.len() == old(w)@.len(),
        final(w)@ == health_fold(old(w)@, pickups@),
{
    let ghost s0 = w@;
    let m = pickups.len();
    let mut k: usize = 0;
    while k < m
        invariant
            w.wf(),
            k <= m == pickups@.len(),
            w@.len() == s0.len(),
            w@ =~= health_fold(s0, pickups@.take(k as int)),
        decreases m - k,
    {
        let ev = pickups[k];
        apply_health_event_exec(w, ev);
        proof {
            lemma_health_fold_snoc(s0, pickups@.take(k as int), ev);
            assert(pickups@.take(k + 1) =~= pickups@.take(k as int).push(ev));
        }
        k = k + 1;
    }
    proof {
        assert(pickups@.take(m as int) =~= pickups@);
    }
}

/// One pickup event as the energy applier sees it.
pub open spec fn apply_energy_event(s: Seq<EntityRec>, ev: PickupEvent) -> Seq<EntityRec> {
    let c = ev.collector.id as int;
    let p = ev.pickup.id as int;
    if 0 <= c < s.len() && 0 <= p < s.len() && s[c].energy is Some && s[p].energy_power_up
        is Some {
        s.update(
            c,
            EntityRec {
                energy: Some(
                    energy_boosted(s[c].energy.unwrap(), s[p].energy_power_up.unwrap().energy),
                ),
                ..s[c]
            },
        )
    } else {
        s
    }
}

pub open spec fn energy_fold(s: Seq<EntityRec>, evs: Seq<PickupEvent>) -> Seq<EntityRec>
    decreases evs.len(),
{
    if evs.len() == 0 {
        s
    } else {
        energy_fold(apply_energy_event(s, evs[0]), evs.skip(1))
    }
}

pub proof fn lemma_energy_fold_snoc(s: Seq<EntityRec>, evs: Seq<PickupEvent>, ev: PickupEvent)
    ensures
        energy_fold(s, evs.push(ev)) == apply_energy_event(energy_fold(s, evs), ev),
    decreases evs.len(),
{
    if evs.len() == 0 {
        assert(evs.push(ev)[0] == ev);
        assert(evs.push(ev).skip(1) =~= Seq::<PickupEvent>::empty());
        assert(energy_fold(s, evs.push(ev)) == energy_fold(
            apply_energy_event(s, ev),
            Seq::<PickupEvent>::empty(),
        ));
    } else {
        assert(evs.push(ev)[0] == evs[0]);
        assert(evs.push(ev).skip(1) =~= evs.skip(1).push(ev));
        lemma_energy_fold_snoc(apply_energy_event(s, evs[0]), evs.skip(1), ev);
        assert(energy_fold(s, evs.push(ev)) == energy_fold(
            apply_energy_event(s, evs[0]),
            evs.skip(1).push(ev),
        ));
    }
}

/// Applies every energy power-up named by the tick's pickup events, exactly
/// as the fold over the events states.
pub fn apply_energy_powerup_system(w: &mut World, pickups: &Vec<PickupEvent>)
    requires
        old(w).wf(),
    ensures
        final(w).wf(),
        final(w)@.len() == old(w)@.len(),
        final(w)@ == energy_fold(old(w)@, pickups@),
{
    let ghost s0 = w@;
    let m = pickups.len();
    let mut k: usize = 0;
    while k < m
        invariant
            w.wf(),
            k <= m == pickups@.len(),
            w@.len() == s0.len(),
            w@ =~= energy_fold(s0, pickups@.take(k as int)),
        decreases m - k,
    {
        let ev = pickups[k];
        apply_energy_event_exec(w, ev);
        proof {
            lemma_energy_fold_snoc(s0, pickups@.take(k as int), ev);
            assert(pickups@.take(k + 1) =~= pickups@.take(k as int).push(ev));
        }
        k = k + 1;
    }
    proof {
        assert(pickups@.take(m as int) =~= pickups@);
    }
}

/// One pickup event for the speed applier, exactly as [`apply_speed_event`]
/// states it.
fn apply_speed_event_exec(w: &mut World, ev: PickupEvent)
    requires
        old(w).wf(),
    ensures
        final(w).wf(),
        final(w)@.len() == old(w)@.len(),
        final(w)@ =~= apply_speed_event(old(w)@, ev),
{
    let n = w.num_entities();
    let c = ev.collector.id;
    let p = ev.pickup.id;
    if c < n as u64 && p < n as u64 {
        let cu = c as usize;
        let pu = p as usize;
        if w.rec_at(cu).movement_speed.is_some() && w.rec_at(pu).speed_power_up.is_some() {
            let speed = w.rec_at(cu).movement_speed.unwrap();
            let payload = w.rec_at(pu).speed_power_up.unwrap().speed;
            proof {
                assert(w@[cu as int].wf());
                assert(w@[pu as int].wf());
            }
            let accel = sat_add_limited(speed.accel, payload.accel, VEL_LIMIT);
            let max = sat_add_limited(speed.max, payload.max, VEL_LIMIT);
            let rm = w.rec_at_mut(cu);
            rm.movement_speed = Some(MovementSpeed { accel, max });
        }
    }
}

/// One pickup event for the health applier, exactly as [`apply_health_event`]
/// states it.
fn apply_health_event_exec(w: &mut World, ev: PickupEvent)
    requires
        old(w).wf(),
    ensures
        final(w).wf(),
        final(w)@.len() == old(w)@.len(),
        final(w)@ =~= apply_health_event(old(w)@, ev),
{
    let n = w.num_entities();
    let c = ev.collector.id;
    let p = ev.pickup.id;
    if c < n as u64 && p < n as u64 {
        let cu = c as usize;
        let pu = p as usize;
        if w.rec_at(cu).health.is_some() && w.rec_at(pu).health_power_up.is_some() {
            let h = w.rec_at(cu).health.unwrap();
            let payload = w.rec_at(pu).health_power_up.unwrap().health;
            proof {
                assert(w@[cu as int].wf());
                assert(w@[pu as int].wf());
            }
            let new_max = sat_add_limited(h.max_hull, payload.max_hull, STAT_LIMIT);
            let new_hull = top_up(h.hull, payload.hull, new_max);
            let rm = w.rec_at_mut(cu);
            rm.health = Some(HealthStats { hull: new_hull, max_hull: new_max });
        }
    }
}

/// One pickup event for the energy applier, exactly as [`apply_energy_event`]
/// states it.
fn apply_energy_event_exec(w: &mut World, ev: PickupEvent)
    requires
        old(w).wf(),
    ensures
        final(w).wf(),
        final(w)@.len() == old(w)@.len(),
        final(w)@ =~= apply_energy_event(old(w)@, ev),
{
    let n = w.num_entities();
    let c = ev.collector.id;
    let p = ev.pickup.id;
    if c < n as u64 && p < n as u64 {
        let cu = c as usize;
        let pu = p as usize;
        if w.rec_at(cu).energy.is_some() && w.rec_at(pu).energy_power_up.is_some() {
            let e = w.rec_at(cu).energy.unwrap();
            let payload = w.rec_at(pu).energy_power_up.unwrap().energy;
            proof {
                assert(w@[cu as int].wf());
                assert(w@[pu as int].wf());
            }
            let new_max = sat_add_limited(e.max_energy, payload.max_energy, STAT_LIMIT);
            let new_energy = top_up(e.energy, payload.energy, new_max);
            let rm = w.rec_at_mut(cu);
            rm.energy = Some(EnergyStats { energy: new_energy, max_energy: new_max });
        }
    }
}

} // verus!
