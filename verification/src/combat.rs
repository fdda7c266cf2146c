//! The combat resolver: collision events become hull damage, damage events,
//! kill events and a latched death flag. Nothing is removed here; cleanup and
//! retirement react to the flag in post-update.

use vstd::prelude::*;
use crate::comp::{CanDie, HealthStats};
use crate::entity::Entity;
use crate::events::{CollisionEvent, DamageEvent, KillEvent};
use crate::physics::ent;
use crate::world::{EntityRec, World};

verus! {

/// The combat resolver's running state: the arena plus everything it has
/// published so far.
#[verifier::ext_equal]
pub struct CombatState {
    pub recs: Seq<EntityRec>,
    pub dmg: Seq<DamageEvent>,
    pub kills: Seq<KillEvent>,
}

/// The entity at `t` carries a death flag that is set.
pub open spec fn is_dead_at(s: Seq<EntityRec>, t: int) -> bool {
    s[t].can_die is Some && s[t].can_die.unwrap().is_dead
}

/// `dealer` can damage `target`: the dealer deals damage, the target is
/// damageable (health and a death flag), and the target is not the recorded
/// owner of the dealer's damage (the self-damage guard).
pub open spec fn hit_allowed(s: Seq<EntityRec>, dealer: int, target: int) -> bool {
    &&& s[dealer].damage is Some
    &&& s[target].health is Some
    &&& s[target].can_die is Some
    &&& !(s[dealer].damage_origin is Some && s[dealer].damage_origin.unwrap().entity == ent(target))
}

/// One directional hit. Lethal damage clamps the hull to zero, publishes a
/// damage event, publishes a kill event attributed to the dealer's damage
/// origin — only if the dealer has one and the target was not already dead —
/// and sets the death flag. Nonlethal damage subtracts and publishes the
/// damage event alone.
pub open spec fn apply_hit(st: CombatState, dealer: int, target: int) -> CombatState {
    if !hit_allowed(st.recs, dealer, target) {
        st
    } else {
        let dmg = st.recs[dealer].damage.unwrap().hull;
        let h = st.recs[target].health.unwrap();
        let cd = st.recs[target].can_die.unwrap();
        if h.hull <= dmg {
            CombatState {
                recs: st.recs.update(
                    target,
                    EntityRec {
                        health: Some(HealthStats { hull: 0, ..h }),
                        can_die: Some(CanDie { is_dead: true }),
                        ..st.recs[target]
                    },
                ),
                dmg: st.dmg.push(DamageEvent { src: ent(dealer), targ: ent(target) }),
                kills: if st.recs[dealer].damage_origin is Some && !cd.is_dead {
                    st.kills.push(
                        KillEvent {
                            src: st.recs[dealer].damage_origin.unwrap().entity,
                            targ: ent(target),
                        },
                    )
                } else {
                    st.kills
                },
            }
        } else {
            CombatState {
                recs: st.recs.update(
                    target,
                    EntityRec {
                        health: Some(HealthStats { hull: (h.hull - dmg) as i64, ..h }),
                        ..st.recs[target]
                    },
                ),
                dmg: st.dmg.push(DamageEvent { src: ent(dealer), targ: ent(target) }),
                kills: st.kills,
            }
        }
    }
}

/// One collision event: each damage-capable member of the pair, in arena
/// order, hits the other. A self-pair or an identifier outside the arena
/// changes nothing.
pub open spec fn apply_collision(st: CombatState, ev: CollisionEvent) -> CombatState {
    let a = ev.0.id as int;
    let b = ev.1.id as int;
    let lo = if a <= b { a } else { b };
    let hi = if a <= b { b } else { a };
    if 0 <= a < st.recs.len() && 0 <= b < st.recs.len() && a != b {
        apply_hit(apply_hit(st, lo, hi), hi, lo)
    } else {
        st
    }
}

/// The whole pass: collision events resolved in publication order.
pub open spec fn combat_fold(st: CombatState, evs: Seq<CollisionEvent>) -> CombatState
    decreases evs.len(),
{
    if evs.len() == 0 {
        st
    } else {
        combat_fold(apply_collision(st, evs[0]), evs.skip(1))
    }
}

pub proof fn lemma_combat_fold_snoc(st: CombatState, evs: Seq<CollisionEvent>, ev: CollisionEvent)
    ensures
        combat_fold(st, evs.push(ev)) == apply_collision(combat_fold(st, evs), ev),
    decreases evs.len(),
{
    if evs.len() == 0 {
        assert(evs.push(ev)[0] == ev);
        assert(evs.push(ev).skip(1) =~= Seq::<CollisionEvent>::empty());
        assert(combat_fold(st, evs.push(ev)) == combat_fold(
            apply_collision(st, ev),
            Seq::<CollisionEvent>::empty(),
        ));
        assert(combat_fold(st, evs) == st);
    } else {
        assert(evs.push(ev)[0] == evs[0]);
        assert(evs.push(ev).skip(1) =~= evs.skip(1).push(ev));
        lemma_combat_fold_snoc(apply_collision(st, evs[0]), evs.skip(1), ev);
        assert(combat_fold(st, evs.push(ev)) == combat_fold(
            apply_collision(st, evs[0]),
            evs.skip(1).push(ev),
        ));
        assert(combat_fold(st, evs) == combat_fold(apply_collision(st, evs[0]), evs.skip(1)));
    }
}

/// How many kill events of `s` name `t` as the victim.
pub open spec fn count_kills(s: Seq<KillEvent>, t: Entity) -> int
    decreases s.len(),
{
    if s.len() == 0 {
        0
    } else {
        count_kills(s.drop_last(), t) + if s.last().targ == t {
            1int
        } else {
            0int
        }
    }
}

proof fn lemma_count_kills_push(s: Seq<KillEvent>, e: KillEvent, t: Entity)
    ensures
        count_kills(s.push(e), t) == count_kills(s, t) + if e.targ == t {
            1int
        } else {
            0int
        },
{
    assert(s.push(e).drop_last() =~= s);
    assert(s.push(e).last() == e);
}

/// The per-hit facts the laws rest on: a hit never shrinks the arena, never
/// clears a death flag, adds at most one kill event — for the hit's target,
/// only if it was alive, and only while setting its death flag — and adds
/// none at all for a victim already dead.
proof fn lemma_hit_step(st: CombatState, dealer: int, target: int, t: int)
    requires
        0 <= t < st.recs.len(),
        st.recs.len() <= u64::MAX,
        0 <= target < st.recs.len(),
    ensures
        apply_hit(st, dealer, target).recs.len() == st.recs.len(),
        is_dead_at(st.recs, t) ==> is_dead_at(apply_hit(st, dealer, target).recs, t)
            && count_kills(apply_hit(st, dealer, target).kills, ent(t)) == count_kills(
            st.kills,
            ent(t),
        ),
        count_kills(apply_hit(st, dealer, target).kills, ent(t)) <= count_kills(st.kills, ent(t))
            + 1,
        count_kills(apply_hit(st, dealer, target).kills, ent(t)) >= count_kills(st.kills, ent(t)),
        count_kills(apply_hit(st, dealer, target).kills, ent(t)) > count_kills(st.kills, ent(t))
            ==> is_dead_at(apply_hit(st, dealer, target).recs, t),
{
    let st1 = apply_hit(st, dealer, target);
    if hit_allowed(st.recs, dealer, target) {
        let h = st.recs[target].health.unwrap();
        let dmg = st.recs[dealer].damage.unwrap().hull;
        let cd = st.recs[target].can_die.unwrap();
        if h.hull <= dmg && st.recs[dealer].damage_origin is Some && !cd.is_dead {
            lemma_count_kills_push(
                st.kills,
                KillEvent { src: st.recs[dealer].damage_origin.unwrap().entity, targ: ent(target) },
                ent(t),
            );
            if t == target {
                assert(is_dead_at(st1.recs, t));
            } else {
                assert(ent(t).id == t as u64 && ent(target).id == target as u64);
                assert(ent(t) != ent(target));
            }
        }
    }
}

/// The same facts for one whole collision event.
proof fn lemma_collision_step(st: CombatState, ev: CollisionEvent, t: int)
    requires
        0 <= t < st.recs.len(),
        st.recs.len() <= u64::MAX,
    ensures
        apply_collision(st, ev).recs.len() == st.recs.len(),
        is_dead_at(st.recs, t) ==> is_dead_at(apply_collision(st, ev).recs, t) && count_kills(
            apply_collision(st, ev).kills,
            ent(t),
        ) == count_kills(st.kills, ent(t)),
        count_kills(apply_collision(st, ev).kills, ent(t)) <= count_kills(st.kills, ent(t)) + 1,
        count_kills(apply_collision(st, ev).kills, ent(t)) >= count_kills(st.kills, ent(t)),
        count_kills(apply_collision(st, ev).kills, ent(t)) > count_kills(st.kills, ent(t))
            ==> is_dead_at(apply_collision(st, ev).recs, t),
{
    let a = ev.0.id as int;
    let b = ev.1.id as int;
    let lo = if a <= b { a } else { b };
    let hi = if a <= b { b } else { a };
    if 0 <= a < st.recs.len() && 0 <= b < st.recs.len() && a != b {
        let st1 = apply_hit(st, lo, hi);
        lemma_hit_step(st, lo, hi, t);
        lemma_hit_step(st1, hi, lo, t);
        // a kill can be added for `t` by at most one of the two hits, since
        // each hit kills only its own target and a dead victim draws no kill
        if count_kills(st1.kills, ent(t)) > count_kills(st.kills, ent(t)) {
            assert(is_dead_at(st1.recs, t));
        }
    }
}

/// An entity's death flag goes from false to true at most once, and at most
/// one kill event is ever published for its death: once the flag is set, the
/// combat pass adds no kill event for that victim, and a pass that adds one
/// leaves the flag set.
pub proof fn lemma_kill_at_most_once(st: CombatState, evs: Seq<CollisionEvent>, t: int)
    requires
        0 <= t < st.recs.len(),
        st.recs.len() <= u64::MAX,
    ensures
        combat_fold(st, evs).recs.len() == st.recs.len(),
        is_dead_at(st.recs, t) ==> is_dead_at(combat_fold(st, evs).recs, t) && count_kills(
            combat_fold(st, evs).kills,
            ent(t),
        ) == count_kills(st.kills, ent(t)),
        count_kills(combat_fold(st, evs).kills, ent(t)) <= count_kills(st.kills, ent(t)) + 1,
        count_kills(combat_fold(st, evs).kills, ent(t)) >= count_kills(st.kills, ent(t)),
        count_kills(combat_fold(st, evs).kills, ent(t)) > count_kills(st.kills, ent(t))
            ==> is_dead_at(combat_fold(st, evs).recs, t),
    decreases evs.len(),
{
    if evs.len() > 0 {
        let st1 = apply_collision(st, evs[0]);
        lemma_collision_step(st, evs[0], t);
        lemma_kill_at_most_once(st1, evs.skip(1), t);
    }
}

/// Resolves the tick's collision events into hull damage, death flags and
/// the damage and kill events, exactly as the fold over the events states.
pub fn contact_damage_system(w: &mut World, collisions: &Vec<CollisionEvent>) -> (out: (
    Vec<DamageEvent>,
    Vec<KillEvent>,
))
    requires
        old(w).wf(),
    ensures
        final(w).wf(),
        final(w)@.len() == old(w)@.len(),
        out.0@.len() <= 2 * collisions@.len(),
        out.1@.len() <= 2 * collisions@.len(),
        ({
            let st = combat_fold(
                CombatState { recs: old(w)@, dmg: Seq::empty(), kills: Seq::empty() },
                collisions@,
            );
            final(w)@ == st.recs && out.0@ == st.dmg && out.1@ == st.kills
        }),
{
    let ghost st0 = CombatState { recs: w@, dmg: Seq::empty(), kills: Seq::empty() };
    let mut dmg_out: Vec<DamageEvent> = Vec::new();
    let mut kill_out: Vec<KillEvent> = Vec::new();
    let m = collisions.len();
    let mut k: usize = 0;
    while k < m
        invariant
            w.wf(),
            k <= m == collisions@.len(),
            w@.len() == st0.recs.len(),
            dmg_out@.len() <= 2 * k,
            kill_out@.len() <= 2 * k,
            (CombatState { recs: w@, dmg: dmg_out@, kills: kill_out@ }) =~= combat_fold(
                st0,
                collisions@.take(k as int),
            ),
        decreases m - k,
    {
        let ev = collisions[k];
        let ghost st_pre = CombatState { recs: w@, dmg: dmg_out@, kills: kill_out@ };
        let n = w.num_entities();
        let a = ev.0.id;
        let b = ev.1.id;
        if a < n as u64 && b < n as u64 && a != b {
            let lo = if a <= b { a as usize } else { b as usize };
            let hi = if a <= b { b as usize } else { a as usize };
            apply_hit_exec(w, lo, hi, &mut dmg_out, &mut kill_out);
            apply_hit_exec(w, hi, lo, &mut dmg_out, &mut kill_out);
            proof {
                assert(CombatState { recs: w@, dmg: dmg_out@, kills: kill_out@ } =~= apply_collision(
                    st_pre,
                    ev,
                ));
            }
        } else {
            proof {
                assert(CombatState { recs: w@, dmg: dmg_out@, kills: kill_out@ } =~= apply_collision(
                    st_pre,
                    ev,
                ));
            }
        }
        proof {
            lemma_combat_fold_snoc(st0, collisions@.take(k as int), ev);
            assert(collisions@.take(k + 1) =~= collisions@.take(k as int).push(ev));
        }
        k = k + 1;
    }
    proof {
        assert(collisions@.take(m as int) =~= collisions@);
    }
    (dmg_out, kill_out)
}

/// One directional hit, exactly as [`apply_hit`] states it.
fn apply_hit_exec(
    w: &mut World,
    dealer: usize,
    target: usize,
    dmg_out: &mut Vec<DamageEvent>,
    kill_out: &mut Vec<KillEvent>,
)
    requires
        old(w).wf(),
        dealer < old(w)@.len(),
        target < old(w)@.len(),
    ensures
        final(w).wf(),
        final(w)@.len() == old(w)@.len(),
        final(dmg_out)@.len() <= old(dmg_out)@.len() + 1,
        final(kill_out)@.len() <= old(kill_out)@.len() + 1,
        (CombatState { recs: final(w)@, dmg: final(dmg_out)@, kills: final(kill_out)@ }
            =~= apply_hit(
            CombatState { recs: old(w)@, dmg: old(dmg_out)@, kills: old(kill_out)@ },
            dealer as int,
            target as int,
        )),
{
    let rd = w.rec_at(dealer);
    if rd.damage.is_none() {
        return ;
    }
    let dmg = rd.damage.unwrap().hull;
    let origin = rd.damage_origin;
    let rt = w.rec_at(target);
    if rt.health.is_none() || rt.can_die.is_none() {
        return ;
    }
    let h = rt.health.unwrap();
    let cd = rt.can_die.unwrap();
    if let Some(o) = origin {
        if o.entity.id == target as u64 {
            proof {
                assert(o.entity == ent(target as int));
            }
            return ;
        }
    }
    proof {
        assert(hit_allowed(w@, dealer as int, target as int));
        assert(w@[target as int].wf());
        assert(w@[dealer as int].wf());
    }
    if h.hull <= dmg {
        let rm = w.rec_at_mut(target);
        rm.health = Some(HealthStats { hull: 0, max_hull: h.max_hull });
        rm.can_die = Some(CanDie { is_dead: true });
        dmg_out.push(
            DamageEvent { src: Entity { id: dealer as u64 }, targ: Entity { id: target as u64 } },
        );
        if let Some(o) = origin {
            if !cd.is_dead {
                kill_out.push(KillEvent { src: o.entity, targ: Entity { id: target as u64 } });
            }
        }
    } else {
        let rm = w.rec_at_mut(target);
        rm.health = Some(HealthStats { hull: h.hull - dmg, max_hull: h.max_hull });
        dmg_out.push(
            DamageEvent { src: Entity { id: dealer as u64 }, targ: Entity { id: target as u64 } },
        );
    }
}

} // verus!
