//! End-of-life systems: dissipation, hit-counter death, collected and dead
//! cleanup, off-bounds cleanup, kill scoring, and the disposal pipeline that
//! retires entities instead of destroying them.
//!
//! Retirement relocates an entity far outside the play field and strips its
//! functional fragments, turning it into an inert background decoration; the
//! identifier and whatever cosmetic data remain persist for the life of the
//! process. A monotonically increasing counter stands in for the memory
//! pressure this workaround introduces.

use vstd::prelude::*;
use crate::comp::{Dissipates, Position, TICK_LIMIT, STAT_LIMIT};
use crate::entity::Entity;
use crate::events::{DamageEvent, DisposeEntityEvent, KillEvent};
use crate::world::{EntityRec, World};

verus! {

/// The entity's dissipation countdown has run out.
pub open spec fn wants_dissipation_dispose(r: EntityRec) -> bool {
    r.dissipates is Some && r.dissipates.unwrap().timer.finished
}

/// A record after the dissipation step: an unfinished countdown advances,
/// anything else stays as it was.
pub open spec fn rec_after_dissipation(r: EntityRec, dt: int) -> EntityRec {
    if r.dissipates is Some && !r.dissipates.unwrap().timer.finished {
        EntityRec {
            dissipates: Some(Dissipates { timer: r.dissipates.unwrap().timer.ticked(dt) }),
            ..r
        }
    } else {
        r
    }
}

/// `out` lists exactly the arena slots of `s` that satisfy the marker given
/// by `marked`, each once, in ascending order, as dispose requests.
pub open spec fn disposals_exact(
    s: Seq<EntityRec>,
    out: Seq<DisposeEntityEvent>,
    marked: spec_fn(EntityRec) -> bool,
) -> bool {
    &&& forall|k: int|
        0 <= k < out.len() ==> (#[trigger] out[k]).0.id < s.len() && marked(s[out[k].0.id as int])
    &&& forall|k1: int, k2: int| 0 <= k1 < k2 < out.len() ==> out[k1].0.id < out[k2].0.id
    &&& forall|i: int|
        0 <= i < s.len() && marked(#[trigger] s[i]) ==> exists|k: int|
            0 <= k < out.len() && (#[trigger] out[k]).0.id == i
}

/// Appending to a dispose list keeps every witness it already held.
proof fn lemma_push_keeps_witness(
    pre: Seq<DisposeEntityEvent>,
    post: Seq<DisposeEntityEvent>,
    j: int,
)
    requires
        post.len() >= pre.len(),
        forall|k: int| 0 <= k < pre.len() ==> post[k] == pre[k],
        exists|k: int| 0 <= k < pre.len() && (#[trigger] pre[k]).0.id == j,
    ensures
        exists|k: int| 0 <= k < post.len() && (#[trigger] post[k]).0.id == j,
{
    let k = choose|k: int| 0 <= k < pre.len() && (#[trigger] pre[k]).0.id == j;
    assert(post[k].0.id == j);
}

/// Ticks every dissipation countdown and requests disposal of every entity
/// whose countdown has already run out.
pub fn timed_dissipation_system(w: &mut World, dt_ms: u32) -> (out: Vec<DisposeEntityEvent>)
    requires
        old(w).wf(),
        dt_ms <= TICK_LIMIT,
    ensures
        final(w).wf(),
        final(w)@.len() == old(w)@.len(),
        forall|i: int|
            0 <= i < old(w)@.len() ==> final(w)@[i] == rec_after_dissipation(
                old(w)@[i],
                dt_ms as int,
            ),
        disposals_exact(old(w)@, out@, |r: EntityRec| wants_dissipation_dispose(r)),
        out@.len() <= old(w)@.len(),
{
    let ghost w0 = w@;
    let mut out: Vec<DisposeEntityEvent> = Vec::new();
    let n = w.num_entities();
    let mut i: usize = 0;
    while i < n
        invariant
            w.wf(),
            i <= n == w@.len() == w0.len(),
            dt_ms <= TICK_LIMIT,
            forall|j: int| 0 <= j < i ==> w@[j] == rec_after_dissipation(w0[j], dt_ms as int),
            forall|j: int| i <= j < n ==> w@[j] == w0[j],
            forall|k: int|
                0 <= k < out@.len() ==> (#[trigger] out@[k]).0.id < i && wants_dissipation_dispose(
                    w0[out@[k].0.id as int],
                ),
            out@.len() <= i,
            forall|k1: int, k2: int| 0 <= k1 < k2 < out@.len() ==> out@[k1].0.id < out@[k2].0.id,
            forall|j: int|
                0 <= j < i && wants_dissipation_dispose(#[trigger] w0[j]) ==> exists|k: int|
                    0 <= k < out@.len() && (#[trigger] out@[k]).0.id == j,
        decreases n - i,
    {
        let ghost out_pre = out@;
        let r = w.rec_at(i);
        if let Some(d) = r.dissipates {
            if d.timer.finished {
                out.push(DisposeEntityEvent(Entity { id: i as u64 }));
                proof {
                    assert(out@[out@.len() - 1].0.id == i as u64);
                }
            } else {
                proof {
                    assert(w@[i as int].wf());
                }
                let mut t = d.timer;
                t.tick(dt_ms);
                let rm = w.rec_at_mut(i);
                rm.dissipates = Some(Dissipates { timer: t });
            }
        }
        proof {
            assert forall|j: int|
                0 <= j < i + 1 && wants_dissipation_dispose(#[trigger] w0[j]) implies exists|
                k: int,
            | 0 <= k < out@.len() && (#[trigger] out@[k]).0.id == j by {
                if j < i {
                    lemma_push_keeps_witness(out_pre, out@, j);
                }
            }
        }
        i = i + 1;
    }
    out
}

/// The entity dies of the next hit: it carries a hit counter at one or less.
pub open spec fn dies_of_next_hit(r: EntityRec) -> bool {
    r.dies_on_hit is Some && r.dies_on_hit.unwrap().hits_to_die <= 1
}

/// The dispose requests the hit-counter system derives from the tick's
/// damage events: one for each event whose source entity dies of a hit.
pub open spec fn on_hit_disposals(s: Seq<EntityRec>, evs: Seq<DamageEvent>) -> Seq<
    DisposeEntityEvent,
>
    decreases evs.len(),
{
    if evs.len() == 0 {
        Seq::empty()
    } else {
        let head = if 0 <= evs[0].src.id < s.len() && dies_of_next_hit(s[evs[0].src.id as int]) {
            seq![DisposeEntityEvent(evs[0].src)]
        } else {
            Seq::<DisposeEntityEvent>::empty()
        };
        head + on_hit_disposals(s, evs.skip(1))
    }
}

proof fn lemma_on_hit_disposals_snoc(s: Seq<EntityRec>, evs: Seq<DamageEvent>, ev: DamageEvent)
    ensures
        on_hit_disposals(s, evs.push(ev)) == on_hit_disposals(s, evs) + on_hit_disposals(
            s,
            seq![ev],
        ),
    decreases evs.len(),
{
    if evs.len() == 0 {
        assert(evs.push(ev)[0] == ev);
        assert(evs.push(ev).skip(1) =~= Seq::<DamageEvent>::empty());
        assert(on_hit_disposals(s, evs) + on_hit_disposals(s, seq![ev]) =~= on_hit_disposals(
            s,
            seq![ev],
        ));
        assert(seq![ev][0] == ev);
        assert(seq![ev].skip(1) =~= Seq::<DamageEvent>::empty());
    } else {
        assert(evs.push(ev)[0] == evs[0]);
        assert(evs.push(ev).skip(1) =~= evs.skip(1).push(ev));
        lemma_on_hit_disposals_snoc(s, evs.skip(1), ev);
        assert(on_hit_disposals(s, evs.push(ev)) =~= on_hit_disposals(s, evs) + on_hit_disposals(
            s,
            seq![ev],
        ));
    }
}

/// Requests disposal of the source of every damage event whose hit counter
/// says one more hit is fatal.
pub fn on_hit_die_system(w: &World, damage_events: &Vec<DamageEvent>) -> (out: Vec<
    DisposeEntityEvent,
>)
    ensures
        out@ == on_hit_disposals(w@, damage_events@),
        out@.len() <= damage_events@.len(),
{
    let mut out: Vec<DisposeEntityEvent> = Vec::new();
    let n = w.num_entities();
    let m = damage_events.len();
    let mut k: usize = 0;
    while k < m
        invariant
            k <= m == damage_events@.len(),
            n == w@.len(),
            out@.len() <= k,
            out@ =~= on_hit_disposals(w@, damage_events@.take(k as int)),
        decreases m - k,
    {
        let ev = damage_events[k];
        let ghost out_pre = out@;
        if ev.src.id < n as u64 {
            let r = w.rec_at(ev.src.id as usize);
            if let Some(d) = r.dies_on_hit {
                if d.hits_to_die <= 1 {
                    out.push(DisposeEntityEvent(ev.src));
                }
            }
        }
        proof {
            lemma_on_hit_disposals_snoc(w@, damage_events@.take(k as int), ev);
            assert(damage_events@.take(k + 1) =~= damage_events@.take(k as int).push(ev));
            assert(seq![ev][0] == ev);
            assert(seq![ev].skip(1) =~= Seq::<DamageEvent>::empty());
            assert(on_hit_disposals(w@, Seq::<DamageEvent>::empty()) =~= Seq::<
                DisposeEntityEvent,
            >::empty());
            if 0 <= ev.src.id < w@.len() && dies_of_next_hit(w@[ev.src.id as int]) {
                assert(on_hit_disposals(w@, seq![ev]) =~= seq![DisposeEntityEvent(ev.src)]);
                assert(out@ =~= out_pre.push(DisposeEntityEvent(ev.src)));
            } else {
                assert(on_hit_disposals(w@, seq![ev]) =~= Seq::<DisposeEntityEvent>::empty());
            }
            assert(out@ =~= out_pre + on_hit_disposals(w@, seq![ev]));
        }
        k = k + 1;
    }
    proof {
        assert(damage_events@.take(m as int) =~= damage_events@);
    }
    out
}

/// The entity has been picked up and awaits cleanup.
pub open spec fn wants_collected_dispose(r: EntityRec) -> bool {
    r.collectible is Some && r.collectible.unwrap().collected
}

/// Requests disposal of every collected collectible.
pub fn collectible_cleanup_system(w: &World) -> (out: Vec<DisposeEntityEvent>)
    ensures
        disposals_exact(w@, out@, |r: EntityRec| wants_collected_dispose(r)),
        out@.len() <= w@.len(),
{
    let mut out: Vec<DisposeEntityEvent> = Vec::new();
    let n = w.num_entities();
    let mut i: usize = 0;
    while i < n
        invariant
            i <= n == w@.len(),
            forall|k: int|
                0 <= k < out@.len() ==> (#[trigger] out@[k]).0.id < i && wants_collected_dispose(
                    w@[out@[k].0.id as int],
                ),
            out@.len() <= i,
            forall|k1: int, k2: int| 0 <= k1 < k2 < out@.len() ==> out@[k1].0.id < out@[k2].0.id,
            forall|j: int|
                0 <= j < i && wants_collected_dispose(#[trigger] w@[j]) ==> exists|k: int|
                    0 <= k < out@.len() && (#[trigger] out@[k]).0.id == j,
        decreases n - i,
    {
        let ghost out_pre = out@;
        if let Some(c) = w.rec_at(i).collectible {
            if c.collected {
                out.push(DisposeEntityEvent(Entity { id: i as u64 }));
                proof {
                    assert(out@[out@.len() - 1].0.id == i as u64);
                }
            }
        }
        proof {
            assert forall|j: int|
                0 <= j < i + 1 && wants_collected_dispose(#[trigger] w@[j]) implies exists|
                k: int,
            | 0 <= k < out@.len() && (#[trigger] out@[k]).0.id == j by {
                if j < i {
                    lemma_push_keeps_witness(out_pre, out@, j);
                }
            }
        }
        i = i + 1;
    }
    out
}

/// The entity's death flag is set and it awaits cleanup.
pub open spec fn wants_dead_dispose(r: EntityRec) -> bool {
    r.can_die is Some && r.can_die.unwrap().is_dead
}

/// Requests disposal of every entity whose death flag is set.
pub fn dead_cleanup_system(w: &World) -> (out: Vec<DisposeEntityEvent>)
    ensures
        disposals_exact(w@, out@, |r: EntityRec| wants_dead_dispose(r)),
        out@.len() <= w@.len(),
{
    let mut out: Vec<DisposeEntityEvent> = Vec::new();
    let n = w.num_entities();
    let mut i: usize = 0;
    while i < n
        invariant
            i <= n == w@.len(),
            forall|k: int|
                0 <= k < out@.len() ==> (#[trigger] out@[k]).0.id < i && wants_dead_dispose(
                    w@[out@[k].0.id as int],
                ),
            out@.len() <= i,
            forall|k1: int, k2: int| 0 <= k1 < k2 < out@.len() ==> out@[k1].0.id < out@[k2].0.id,
            forall|j: int|
                0 <= j < i && wants_dead_dispose(#[trigger] w@[j]) ==> exists|k: int|
                    0 <= k < out@.len() && (#[trigger] out@[k]).0.id == j,
        decreases n - i,
    {
        let ghost out_pre = out@;
        if let Some(c) = w.rec_at(i).can_die {
            if c.is_dead {
                out.push(DisposeEntityEvent(Entity { id: i as u64 }));
                proof {
                    assert(out@[out@.len() - 1].0.id == i as u64);
                }
            }
        }
        proof {
            assert forall|j: int|
                0 <= j < i + 1 && wants_dead_dispose(#[trigger] w@[j]) implies exists|k: int|
                0 <= k < out@.len() && (#[trigger] out@[k]).0.id == j by {
                if j < i {
                    lemma_push_keeps_witness(out_pre, out@, j);
                }
            }
        }
        i = i + 1;
    }
    out
}

/// The entity is subject to off-bounds cleanup and sits below the cutoff.
pub open spec fn wants_off_bounds_dispose(r: EntityRec, cutoff_y: int) -> bool {
    r.auto_cleaned && r.position is Some && r.position.unwrap().y < cutoff_y
}

/// Requests disposal of every auto-cleaned entity whose vertical position
/// has crossed below the cutoff.
pub fn off_bounds_cleanup_system(w: &World, cutoff_y: i64) -> (out: Vec<DisposeEntityEvent>)
    ensures
        disposals_exact(w@, out@, |r: EntityRec| wants_off_bounds_dispose(r, cutoff_y as int)),
        out@.len() <= w@.len(),
{
    let mut out: Vec<DisposeEntityEvent> = Vec::new();
    let n = w.num_entities();
    let mut i: usize = 0;
    while i < n
        invariant
            i <= n == w@.len(),
            forall|k: int|
                0 <= k < out@.len() ==> (#[trigger] out@[k]).0.id < i && wants_off_bounds_dispose(
                    w@[out@[k].0.id as int],
                    cutoff_y as int,
                ),
            out@.len() <= i,
            forall|k1: int, k2: int| 0 <= k1 < k2 < out@.len() ==> out@[k1].0.id < out@[k2].0.id,
            forall|j: int|
                0 <= j < i && wants_off_bounds_dispose(#[trigger] w@[j], cutoff_y as int)
                    ==> exists|k: int| 0 <= k < out@.len() && (#[trigger] out@[k]).0.id == j,
        decreases n - i,
    {
        let ghost out_pre = out@;
        let r = w.rec_at(i);
        if r.auto_cleaned {
            if let Some(p) = r.position {
                if p.y < cutoff_y {
                    out.push(DisposeEntityEvent(Entity { id: i as u64 }));
                    proof {
                        assert(out@[out@.len() - 1].0.id == i as u64);
                    }
                }
            }
        }
        proof {
            assert forall|j: int|
                0 <= j < i + 1 && wants_off_bounds_dispose(#[trigger] w@[j], cutoff_y as int)
                implies exists|k: int| 0 <= k < out@.len() && (#[trigger] out@[k]).0.id == j by {
                if j < i {
                    lemma_push_keeps_witness(out_pre, out@, j);
                }
            }
        }
        i = i + 1;
    }
    out
}

/// A record after one kill event credited to it: the score of the victim,
/// added to the player's tally, saturating at the machine bound.
pub open spec fn scored_rec(r: EntityRec, points: int) -> EntityRec {
    if r.player is Some {
        let p = r.player.unwrap();
        EntityRec {
            player: Some(
                crate::comp::Player {
                    score: if p.score + points <= STAT_LIMIT {
                        (p.score + points) as i64
                    } else {
                        STAT_LIMIT as i64
                    },
                },
            ),
            ..r
        }
    } else {
        r
    }
}

/// One kill event as the scoring system sees it: if the victim is dead and
/// carries a score, the killer's player tally grows by it.
pub open spec fn apply_kill_score(s: Seq<EntityRec>, ev: KillEvent) -> Seq<EntityRec> {
    let t = ev.targ.id as int;
    let k = ev.src.id as int;
    if 0 <= t < s.len() && 0 <= k < s.len() && wants_dead_dispose(s[t]) && s[t].score is Some
        && s[k].player is Some {
        s.update(k, scored_rec(s[k], s[t].score.unwrap().score as int))
    } else {
        s
    }
}

pub open spec fn score_fold(s: Seq<EntityRec>, evs: Seq<KillEvent>) -> Seq<EntityRec>
    decreases evs.len(),
{
    if evs.len() == 0 {
        s
    } else {
        score_fold(apply_kill_score(s, evs[0]), evs.skip(1))
    }
}

pub proof fn lemma_score_fold_snoc(s: Seq<EntityRec>, evs: Seq<KillEvent>, ev: KillEvent)
    ensures
        score_fold(s, evs.push(ev)) == apply_kill_score(score_fold(s, evs), ev),
    decreases evs.len(),
{
    if evs.len() == 0 {
        assert(evs.push(ev)[0] == ev);
        assert(evs.push(ev).skip(1) =~= Seq::<KillEvent>::empty());
        assert(score_fold(s, evs.push(ev)) == score_fold(
            apply_kill_score(s, ev),
            Seq::<KillEvent>::empty(),
        ));
    } else {
        assert(evs.push(ev)[0] == evs[0]);
        assert(evs.push(ev).skip(1) =~= evs.skip(1).push(ev));
        lemma_score_fold_snoc(apply_kill_score(s, evs[0]), evs.skip(1), ev);
        assert(score_fold(s, evs.push(ev)) == score_fold(
            apply_kill_score(s, evs[0]),
            evs.skip(1).push(ev),
        ));
    }
}

/// Credits each kill to the killing player, exactly as the fold over the
/// kill events states.
pub fn on_kill_score_system(w: &mut World, kills: &Vec<KillEvent>)
    requires
        old(w).wf(),
    ensures
        final(w).wf(),
        final(w)@.len() == old(w)@.len(),
        final(w)@ == score_fold(old(w)@, kills@),
{
    let ghost s0 = w@;
    let m = kills.len();
    let mut k: usize = 0;
    while k < m
        invariant
            w.wf(),
            k <= m == kills@.len(),
            w@.len() == s0.len(),
            w@ =~= score_fold(s0, kills@.take(k as int)),
        decreases m - k,
    {
        let ev = kills[k];
        apply_kill_score_exec(w, ev);
        proof {
            lemma_score_fold_snoc(s0, kills@.take(k as int), ev);
            assert(kills@.take(k + 1) =~= kills@.take(k as int).push(ev));
        }
        k = k + 1;
    }
    proof {
        assert(kills@.take(m as int) =~= kills@);
    }
}

/// One kill event, exactly as [`apply_kill_score`] states it.
#[verifier::rlimit(50)]
fn apply_kill_score_exec(w: &mut World, ev: KillEvent)
    requires
        old(w).wf(),
    ensures
        final(w).wf(),
        final(w)@.len() == old(w)@.len(),
        final(w)@ =~= apply_kill_score(old(w)@, ev),
{
    let n = w.num_entities();
    let t = ev.targ.id;
    let s = ev.src.id;
    if t < n as u64 && s < n as u64 {
        let tu = t as usize;
        let su = s as usize;
        let dead = match w.rec_at(tu).can_die {
            Some(c) => c.is_dead,
            None => false,
        };
        if dead && w.rec_at(tu).score.is_some() && w.rec_at(su).player.is_some() {
            let points = w.rec_at(tu).score.unwrap().score;
            let player = w.rec_at(su).player.unwrap();
            proof {
                assert(w@[tu as int].wf());
                assert(w@[su as int].wf());
            }
            let new_score = crate::comp::sat_add_limited(player.score, points, STAT_LIMIT);
            let rm = w.rec_at_mut(su);
            rm.player = Some(crate::comp::Player { score: new_score });
        }
    }
}

/// A record after retirement: relocated to the graveyard, every functional
/// fragment stripped, only cosmetic data left.
pub open spec fn retired_rec(r: EntityRec, graveyard: Position) -> EntityRec {
    EntityRec {
        position: Some(graveyard),
        velocity: None,
        collider: None,
        damage: None,
        damage_origin: None,
        dies_on_hit: None,
        can_die: None,
        health: None,
        energy: None,
        energy_regen: None,
        dissipates: None,
        collectible: None,
        speed_power_up: None,
        health_power_up: None,
        energy_power_up: None,
        score: None,
        weapon: None,
        auto_cleaned: false,
        ..r
    }
}

/// Retirement is idempotent: retiring an already-retired record changes
/// nothing.
pub proof fn lemma_retirement_idempotent(r: EntityRec, graveyard: Position)
    ensures
        retired_rec(retired_rec(r, graveyard), graveyard) == retired_rec(r, graveyard),
{
}

/// A retired record draws no further cleanup or combat: it is not
/// auto-cleaned, not collectible, not damageable, not dissipating and not
/// dying of hits.
pub proof fn lemma_retired_is_inert(r: EntityRec, graveyard: Position, cutoff_y: int)
    ensures
        !wants_off_bounds_dispose(retired_rec(r, graveyard), cutoff_y),
        !wants_collected_dispose(retired_rec(r, graveyard)),
        !wants_dead_dispose(retired_rec(r, graveyard)),
        !wants_dissipation_dispose(retired_rec(r, graveyard)),
        !dies_of_next_hit(retired_rec(r, graveyard)),
        retired_rec(r, graveyard).health is None,
        retired_rec(r, graveyard).damage is None,
        retired_rec(r, graveyard).collider is None,
{
}

/// The arena after the disposal pipeline has retired every disposed entity,
/// in request order.
pub open spec fn charon_fold(s: Seq<EntityRec>, evs: Seq<DisposeEntityEvent>, graveyard: Position) -> Seq<
    EntityRec,
>
    decreases evs.len(),
{
    if evs.len() == 0 {
        s
    } else {
        let e = evs[0].0.id as int;
        let s1 = if 0 <= e < s.len() {
            s.update(e, retired_rec(s[e], graveyard))
        } else {
            s
        };
        charon_fold(s1, evs.skip(1), graveyard)
    }
}

pub proof fn lemma_charon_fold_snoc(
    s: Seq<EntityRec>,
    evs: Seq<DisposeEntityEvent>,
    ev: DisposeEntityEvent,
    graveyard: Position,
)
    ensures
        charon_fold(s, evs.push(ev), graveyard) == ({
            let f = charon_fold(s, evs, graveyard);
            let e = ev.0.id as int;
            if 0 <= e < f.len() {
                f.update(e, retired_rec(f[e], graveyard))
            } else {
                f
            }
        }),
    decreases evs.len(),
{
    if evs.len() == 0 {
        assert(evs.push(ev)[0] == ev);
        assert(evs.push(ev).skip(1) =~= Seq::<DisposeEntityEvent>::empty());
        let e = ev.0.id as int;
        let s1 = if 0 <= e < s.len() {
            s.update(e, retired_rec(s[e], graveyard))
        } else {
            s
        };
        assert(charon_fold(s, evs.push(ev), graveyard) == charon_fold(
            s1,
            Seq::<DisposeEntityEvent>::empty(),
            graveyard,
        ));
        assert(charon_fold(s, evs, graveyard) == s);
    } else {
        assert(evs.push(ev)[0] == evs[0]);
        assert(evs.push(ev).skip(1) =~= evs.skip(1).push(ev));
        let e0 = evs[0].0.id as int;
        let s1 = if 0 <= e0 < s.len() {
            s.update(e0, retired_rec(s[e0], graveyard))
        } else {
            s
        };
        lemma_charon_fold_snoc(s1, evs.skip(1), ev, graveyard);
        assert(charon_fold(s, evs.push(ev), graveyard) == charon_fold(
            s1,
            evs.skip(1).push(ev),
            graveyard,
        ));
        assert(charon_fold(s, evs, graveyard) == charon_fold(s1, evs.skip(1), graveyard));
    }
}

/// The disposal pipeline's resource: where retired entities go and how many
/// have gone there.
#[derive(Clone, Copy, Debug)]
pub struct GraveyardState {
    pub location: Position,
    pub population: u64,
}

/// Retires every disposed entity: relocates it to the graveyard and strips
/// its functional fragments, counting each request. Retiring an entity that
/// is already retired is a no-op beyond the counter.
pub fn charon_system(w: &mut World, state: &mut GraveyardState, disposals: &Vec<DisposeEntityEvent>)
    requires
        old(w).wf(),
        old(state).location.wf(),
    ensures
        final(w).wf(),
        final(w)@.len() == old(w)@.len(),
        final(w)@ == charon_fold(old(w)@, disposals@, old(state).location),
        final(state).location == old(state).location,
        final(state).population == if old(state).population + disposals@.len() <= u64::MAX {
            old(state).population + disposals@.len()
        } else {
            u64::MAX as int
        },
{
    let ghost s0 = w@;
    let m = disposals.len();
    let mut k: usize = 0;
    while k < m
        invariant
            w.wf(),
            k <= m == disposals@.len(),
            w@.len() == s0.len(),
            state.location == old(state).location,
            state.location.wf(),
            w@ =~= charon_fold(s0, disposals@.take(k as int), state.location),
            state.population == if old(state).population + k <= u64::MAX {
                old(state).population + k
            } else {
                u64::MAX as int
            },
        decreases m - k,
    {
        let ev = disposals[k];
        let n = w.num_entities();
        if ev.0.id < n as u64 {
            let i = ev.0.id as usize;
            let rm = w.rec_at_mut(i);
            rm.position = Some(state.location);
            rm.velocity = None;
            rm.collider = None;
            rm.damage = None;
            rm.damage_origin = None;
            rm.dies_on_hit = None;
            rm.can_die = None;
            rm.health = None;
            rm.energy = None;
            rm.energy_regen = None;
            rm.dissipates = None;
            rm.collectible = None;
            rm.speed_power_up = None;
            rm.health_power_up = None;
            rm.energy_power_up = None;
            rm.score = None;
            rm.weapon = None;
            rm.auto_cleaned = false;
        }
        if state.population < u64::MAX {
            state.population = state.population + 1;
        }
        proof {
            lemma_charon_fold_snoc(s0, disposals@.take(k as int), ev, state.location);
            assert(disposals@.take(k + 1) =~= disposals@.take(k as int).push(ev));
            assert(w@ =~= charon_fold(s0, disposals@.take(k + 1), state.location));
        }
        k = k + 1;
    }
    proof {
        assert(disposals@.take(m as int) =~= disposals@);
    }
}

} // verus!
