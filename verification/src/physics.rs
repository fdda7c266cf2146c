//! Kinematics and the collision detector.
//!
//! Movement integrates velocity (units per second) over the tick
//! (milliseconds) directly into milliunit positions; drag shrinks each
//! velocity component towards zero by a fraction of the elapsed time. The
//! collision detector tests every pair of entities carrying both a box
//! collider and a position, and reports each touching unordered pair exactly
//! once per tick.

use vstd::prelude::*;
use crate::comp::{ColliderBox, Position, Velocity, COORD_LIMIT, TICK_LIMIT, VEL_LIMIT};
use crate::entity::Entity;
use crate::events::{Channel, CollisionEvent};
use crate::world::{EntityRec, World};

verus! {

/// Clamps `v` into `[lo, hi]`.
pub open spec fn clamped(v: int, lo: int, hi: int) -> int {
    if v < lo {
        lo
    } else if v > hi {
        hi
    } else {
        v
    }
}

/// Where a position ends up after integrating a velocity over `dt_ms`
/// milliseconds; each coordinate saturates at the world's coordinate bound.
pub open spec fn moved_position(p: Position, v: Velocity, dt_ms: int) -> Position {
    Position {
        x: clamped(p.x + v.x * dt_ms, -COORD_LIMIT as int, COORD_LIMIT as int) as i64,
        y: clamped(p.y + v.y * dt_ms, -COORD_LIMIT as int, COORD_LIMIT as int) as i64,
    }
}

/// A record after the movement step: only entities carrying both a velocity
/// and a position move.
pub open spec fn rec_after_move(r: EntityRec, dt_ms: int) -> EntityRec {
    if r.position is Some && r.velocity is Some {
        EntityRec { position: Some(moved_position(r.position.unwrap(), r.velocity.unwrap(), dt_ms)), ..r }
    } else {
        r
    }
}

/// A nonnegative magnitude after drag: shrunk by `c` millionths of itself,
/// rounding the shrinkage down.
pub open spec fn dragged_mag(m: int, c: int) -> int {
    m - m * c / 1_000_000
}

/// A velocity component after drag; the magnitude shrinks, the sign stays.
pub open spec fn dragged_comp(v: int, c: int) -> int {
    if v >= 0 {
        dragged_mag(v, c)
    } else {
        -dragged_mag(-v, c)
    }
}

/// The drag factor for one tick, in millionths: elapsed milliseconds times
/// the entity's permille-per-second drag, full stop at one million.
pub open spec fn drag_factor(drag: int, dt_ms: int) -> int {
    if drag * dt_ms > 1_000_000 {
        1_000_000
    } else {
        drag * dt_ms
    }
}

/// A record after the drag step: only entities carrying both a velocity and
/// a drag slow down.
pub open spec fn rec_after_drag(r: EntityRec, dt_ms: int) -> EntityRec {
    if r.velocity is Some && r.drag is Some {
        let c = drag_factor(r.drag.unwrap().0 as int, dt_ms);
        EntityRec {
            velocity: Some(Velocity {
                x: dragged_comp(r.velocity.unwrap().x as int, c) as i64,
                y: dragged_comp(r.velocity.unwrap().y as int, c) as i64,
            }),
            ..r
        }
    } else {
        r
    }
}

/// Applies drag to one nonnegative magnitude. `c` is in millionths.
fn apply_drag_mag(m: i64, c: u64) -> (r: i64)
    requires
        0 <= m <= VEL_LIMIT,
        c <= 1_000_000,
    ensures
        r == dragged_mag(m as int, c as int),
        0 <= r <= m,
{
    proof {
        assert(m * c <= 1_000_000_000_000) by (nonlinear_arith)
            requires
                0 <= m <= 1_000_000,
                0 <= c <= 1_000_000,
        ;
    }
    let prod: u64 = (m as u64) * c;
    let d: u64 = prod / 1_000_000;
    proof {
        assert(m * c / 1_000_000 <= m) by (nonlinear_arith)
            requires
                0 <= m,
                0 <= c <= 1_000_000,
        ;
        assert(m * c / 1_000_000 >= 0) by (nonlinear_arith)
            requires
                0 <= m,
                0 <= c,
        ;
    }
    m - (d as i64)
}

/// Moves every entity carrying a velocity and a position by one tick's worth
/// of its velocity.
pub fn process_velocity_system(w: &mut World, dt_ms: u32)
    requires
        old(w).wf(),
        dt_ms <= TICK_LIMIT,
    ensures
        final(w).wf(),
        final(w)@.len() == old(w)@.len(),
        forall|i: int|
            0 <= i < old(w)@.len() ==> final(w)@[i] == rec_after_move(old(w)@[i], dt_ms as int),
{
    let ghost w0 = w@;
    let n = w.num_entities();
    let mut i: usize = 0;
    while i < n
        invariant
            w.wf(),
            w@.len() == w0.len() == n,
            i <= n,
            dt_ms <= TICK_LIMIT,
            forall|j: int| 0 <= j < i ==> w@[j] == rec_after_move(w0[j], dt_ms as int),
            forall|j: int| i <= j < n ==> w@[j] == w0[j],
        decreases n - i,
    {
        let r = w.rec_at(i);
        if r.position.is_some() && r.velocity.is_some() {
            let p = r.position.unwrap();
            let v = r.velocity.unwrap();
            proof {
                assert(w@[i as int].wf());
                assert(-1_000_000_000 <= v.x * dt_ms <= 1_000_000_000) by (nonlinear_arith)
                    requires
                        -VEL_LIMIT <= v.x <= VEL_LIMIT,
                        0 <= dt_ms <= TICK_LIMIT,
                ;
                assert(-1_000_000_000 <= v.y * dt_ms <= 1_000_000_000) by (nonlinear_arith)
                    requires
                        -VEL_LIMIT <= v.y <= VEL_LIMIT,
                        0 <= dt_ms <= TICK_LIMIT,
                ;
            }
            let nx = clamp_coord(p.x + v.x * (dt_ms as i64));
            let ny = clamp_coord(p.y + v.y * (dt_ms as i64));
            let rm = w.rec_at_mut(i);
            rm.position = Some(Position { x: nx, y: ny });
        }
        i = i + 1;
    }
}

/// Clamps a computed coordinate into the world's coordinate bound.
fn clamp_coord(v: i64) -> (r: i64)
    ensures
        r == clamped(v as int, -COORD_LIMIT as int, COORD_LIMIT as int),
{
    if v < -COORD_LIMIT {
        -COORD_LIMIT
    } else if v > COORD_LIMIT {
        COORD_LIMIT
    } else {
        v
    }
}

/// Slows every entity carrying a velocity and a drag towards a standstill.
pub fn drag_system(w: &mut World, dt_ms: u32)
    requires
        old(w).wf(),
        dt_ms <= TICK_LIMIT,
    ensures
        final(w).wf(),
        final(w)@.len() == old(w)@.len(),
        forall|i: int|
            0 <= i < old(w)@.len() ==> final(w)@[i] == rec_after_drag(old(w)@[i], dt_ms as int),
{
    let ghost w0 = w@;
    let n = w.num_entities();
    let mut i: usize = 0;
    while i < n
        invariant
            w.wf(),
            w@.len() == w0.len() == n,
            i <= n,
            dt_ms <= TICK_LIMIT,
            forall|j: int| 0 <= j < i ==> w@[j] == rec_after_drag(w0[j], dt_ms as int),
            forall|j: int| i <= j < n ==> w@[j] == w0[j],
        decreases n - i,
    {
        let r = w.rec_at(i);
        if r.velocity.is_some() && r.drag.is_some() {
            let v = r.velocity.unwrap();
            let drag = r.drag.unwrap();
            proof {
                assert(w@[i as int].wf());
                assert(drag.0 * dt_ms <= 1_000_000_000) by (nonlinear_arith)
                    requires
                        0 <= drag.0 <= 1000,
                        0 <= dt_ms <= TICK_LIMIT,
                ;
            }
            let raw: u64 = (drag.0 as u64) * (dt_ms as u64);
            let c: u64 = if raw > 1_000_000 { 1_000_000 } else { raw };
            let nx = if v.x >= 0 { apply_drag_mag(v.x, c) } else { -apply_drag_mag(-v.x, c) };
            let ny = if v.y >= 0 { apply_drag_mag(v.y, c) } else { -apply_drag_mag(-v.y, c) };
            let rm = w.rec_at_mut(i);
            rm.velocity = Some(Velocity { x: nx, y: ny });
        }
        i = i + 1;
    }
}

/// Strict open-interval overlap of two axis-aligned boxes centered on the
/// given positions: touching edges do not count.
pub open spec fn boxes_overlap(p1: Position, c1: ColliderBox, p2: Position, c2: ColliderBox) -> bool {
    let left1 = p1.x - c1.w * 500;
    let right1 = p1.x + c1.w * 500;
    let top1 = p1.y + c1.h * 500;
    let bottom1 = p1.y - c1.h * 500;
    let left2 = p2.x - c2.w * 500;
    let right2 = p2.x + c2.w * 500;
    let top2 = p2.y + c2.h * 500;
    let bottom2 = p2.y - c2.h * 500;
    left1 < right2 && right1 > left2 && top1 > bottom2 && bottom1 < top2
}

/// The entity carries what collision testing needs.
pub open spec fn collidable(r: EntityRec) -> bool {
    r.collider is Some && r.position is Some
}

/// Entities at arena slots `a` and `b` are both collidable and their boxes
/// strictly overlap.
pub open spec fn touching(s: Seq<EntityRec>, a: int, b: int) -> bool {
    collidable(s[a]) && collidable(s[b]) && boxes_overlap(
        s[a].position.unwrap(),
        s[a].collider.unwrap(),
        s[b].position.unwrap(),
        s[b].collider.unwrap(),
    )
}

/// The entity at arena slot `i`.
pub open spec fn ent(i: int) -> Entity {
    Entity { id: i as u64 }
}

/// How many events of `s` report the unordered pair `{a, b}`.
pub open spec fn pair_count(s: Seq<CollisionEvent>, a: Entity, b: Entity) -> int
    decreases s.len(),
{
    if s.len() == 0 {
        0
    } else {
        pair_count(s.drop_last(), a, b) + if s.last().is_pair(a, b) {
            1int
        } else {
            0int
        }
    }
}

pub proof fn lemma_pair_count_push(s: Seq<CollisionEvent>, e: CollisionEvent, a: Entity, b: Entity)
    ensures
        pair_count(s.push(e), a, b) == pair_count(s, a, b) + if e.is_pair(a, b) {
            1int
        } else {
            0int
        },
{
    assert(s.push(e).drop_last() =~= s);
    assert(s.push(e).last() == e);
}

pub proof fn lemma_pair_count_nonneg(s: Seq<CollisionEvent>, a: Entity, b: Entity)
    ensures
        pair_count(s, a, b) >= 0,
    decreases s.len(),
{
    if s.len() > 0 {
        lemma_pair_count_nonneg(s.drop_last(), a, b);
    }
}

/// A positive pair count names a witness, and a witness makes the count
/// positive.
pub proof fn lemma_pair_count_pos(s: Seq<CollisionEvent>, a: Entity, b: Entity)
    ensures
        pair_count(s, a, b) >= 1 <==> exists|k: int| 0 <= k < s.len() && (#[trigger] s[k]).is_pair(a, b),
    decreases s.len(),
{
    lemma_pair_count_nonneg(s, a, b);
    if s.len() > 0 {
        lemma_pair_count_pos(s.drop_last(), a, b);
        lemma_pair_count_nonneg(s.drop_last(), a, b);
        if s.last().is_pair(a, b) {
            assert(s[s.len() - 1].is_pair(a, b));
        } else {
            assert forall|k: int| 0 <= k < s.len() && (#[trigger] s[k]).is_pair(a, b) implies
                pair_count(s, a, b) >= 1 by {
                assert(k < s.len() - 1);
                assert(s.drop_last()[k] == s[k]);
            }
        }
    }
}

/// Does `v` already report the unordered pair `{a, b}`?
fn contains_pair(v: &Vec<CollisionEvent>, a: Entity, b: Entity) -> (r: bool)
    ensures
        r == exists|k: int| 0 <= k < v@.len() && (#[trigger] v@[k]).is_pair(a, b),
{
    let n = v.len();
    let mut i: usize = 0;
    while i < n
        invariant
            i <= n == v@.len(),
            forall|k: int| 0 <= k < i ==> !(#[trigger] v@[k]).is_pair(a, b),
        decreases n - i,
    {
        let e = v[i];
        if (e.0.id == a.id && e.1.id == b.id) || (e.0.id == b.id && e.1.id == a.id) {
            return true;
        }
        i = i + 1;
    }
    false
}

/// The exhaustive pairwise scan: every touching unordered pair of distinct
/// collidable entities, each reported exactly once, deduplicated against the
/// already-reported list with unordered-pair equality, never a self-pair.
pub fn find_touching_pairs(w: &World) -> (out: Vec<CollisionEvent>)
    requires
        w.wf(),
    ensures
        out@.len() <= w@.len() * w@.len(),
        forall|k: int|
            0 <= k < out@.len() ==> (#[trigger] out@[k]).0.id < out@[k].1.id
                && out@[k].1.id < w@.len()
                && touching(w@, out@[k].0.id as int, out@[k].1.id as int),
        forall|a: int, b: int|
            0 <= a < b < w@.len() ==> #[trigger] pair_count(out@, ent(a), ent(b)) == if touching(
                w@,
                a,
                b,
            ) {
                1int
            } else {
                0int
            },
{
    let n = w.num_entities();
    let mut out: Vec<CollisionEvent> = Vec::new();
    let mut i: usize = 0;
    while i < n
        invariant
            w.wf(),
            i <= n == w@.len(),
            out@.len() <= i * n,
            forall|k: int|
                0 <= k < out@.len() ==> (#[trigger] out@[k]).0.id < out@[k].1.id
                    && out@[k].1.id < w@.len()
                    && touching(w@, out@[k].0.id as int, out@[k].1.id as int),
            forall|a: int, b: int|
                0 <= a < b < w@.len() ==> #[trigger] pair_count(out@, ent(a), ent(b)) == if a < i
                    && touching(w@, a, b) {
                    1int
                } else {
                    0int
                },
        decreases n - i,
    {
        let mut j: usize = 0;
        while j < n
            invariant
                w.wf(),
                i < n == w@.len(),
                j <= n,
                out@.len() <= i * n + j,
                forall|k: int|
                    0 <= k < out@.len() ==> (#[trigger] out@[k]).0.id < out@[k].1.id
                        && out@[k].1.id < w@.len()
                        && touching(w@, out@[k].0.id as int, out@[k].1.id as int),
                forall|a: int, b: int|
                    0 <= a < b < w@.len() ==> #[trigger] pair_count(out@, ent(a), ent(b)) == if (
                    a < i || (a == i && b < j)) && touching(w@, a, b) {
                        1int
                    } else {
                        0int
                    },
            decreases n - j,
        {
            if i != j {
                let ri = w.rec_at(i);
                let rj = w.rec_at(j);
                if ri.collider.is_some() && ri.position.is_some() && rj.collider.is_some()
                    && rj.position.is_some() {
                    let pi = ri.position.unwrap();
                    let ci = ri.collider.unwrap();
                    let pj = rj.position.unwrap();
                    let cj = rj.collider.unwrap();
                    proof {
                        assert(w@[i as int].wf());
                        assert(w@[j as int].wf());
                    }
                    if overlap_test(pi, ci, pj, cj) {
                        let a = Entity { id: i as u64 };
                        let b = Entity { id: j as u64 };
                        if !contains_pair(&out, a, b) {
                            let ghost out0 = out@;
                            proof {
                                // a push can only be reached from the upper triangle:
                                // the lower-triangle visit finds the pair already reported
                                lemma_pair_count_pos(out@, ent(i as int), ent(j as int));
                                if j < i {
                                    assert(pair_count(out@, ent(j as int), ent(i as int)) == 1);
                                    lemma_pair_count_pos(out@, ent(j as int), ent(i as int));
                                    let k = choose|k: int|
                                        0 <= k < out@.len() && (#[trigger] out@[k]).is_pair(
                                            ent(j as int),
                                            ent(i as int),
                                        );
                                    assert(out@[k].is_pair(ent(i as int), ent(j as int)));
                                    assert(false);
                                }
                            }
                            out.push(CollisionEvent(a, b));
                            proof {
                                assert forall|a2: int, b2: int| 0 <= a2 < b2 < w@.len() implies
                                    #[trigger] pair_count(out@, ent(a2), ent(b2)) == if (a2 < i || (
                                    a2 == i && b2 < j + 1)) && touching(w@, a2, b2) {
                                        1int
                                    } else {
                                        0int
                                    } by {
                                    lemma_pair_count_push(out0, CollisionEvent(ent(i as int), ent(j as int)), ent(a2), ent(b2));
                                }
                            }
                        } else {
                            proof {
                                lemma_pair_count_pos(out@, ent(i as int), ent(j as int));
                                if i < j {
                                    let k = choose|k: int|
                                        0 <= k < out@.len() && (#[trigger] out@[k]).is_pair(
                                            ent(i as int),
                                            ent(j as int),
                                        );
                                    assert(pair_count(out@, ent(i as int), ent(j as int)) == 1);
                                }
                            }
                        }
                    }
                }
            }
            j = j + 1;
        }
        proof {
            assert((i + 1) * n == i * n + n) by (nonlinear_arith);
        }
        i = i + 1;
    }
    out
}

/// Tests strict overlap of two well-formed boxes.
fn overlap_test(pi: Position, ci: ColliderBox, pj: Position, cj: ColliderBox) -> (r: bool)
    requires
        pi.wf(),
        ci.wf(),
        pj.wf(),
        cj.wf(),
    ensures
        r == boxes_overlap(pi, ci, pj, cj),
{
    let left1 = pi.x - ci.w * 500;
    let right1 = pi.x + ci.w * 500;
    let top1 = pi.y + ci.h * 500;
    let bottom1 = pi.y - ci.h * 500;
    let left2 = pj.x - cj.w * 500;
    let right2 = pj.x + cj.w * 500;
    let top2 = pj.y + cj.h * 500;
    let bottom2 = pj.y - cj.h * 500;
    left1 < right2 && right1 > left2 && top1 > bottom2 && bottom1 < top2
}

/// Runs the detector and publishes its findings in order.
pub fn check_collision_system(w: &World, ch: &mut Channel<CollisionEvent>)
    requires
        w.wf(),
        old(ch).wf(),
        old(ch).total() + w@.len() * w@.len() <= usize::MAX,
    ensures
        final(ch).wf(),
        final(ch).base() == old(ch).base(),
        final(ch).tick_start() == old(ch).tick_start(),
        final(ch).events().len() >= old(ch).events().len(),
        final(ch).events().len() <= old(ch).events().len() + w@.len() * w@.len(),
        final(ch).events().take(old(ch).events().len() as int) =~= old(ch).events(),
        forall|k: int|
            old(ch).events().len() <= k < final(ch).events().len()
                ==> (#[trigger] final(ch).events()[k]).0.id < final(ch).events()[k].1.id
                && final(ch).events()[k].1.id < w@.len()
                && touching(
                w@,
                final(ch).events()[k].0.id as int,
                final(ch).events()[k].1.id as int,
            ),
        forall|a: int, b: int|
            0 <= a < b < w@.len() ==> #[trigger] pair_count(
                final(ch).events().skip(old(ch).events().len() as int),
                ent(a),
                ent(b),
            ) == if touching(w@, a, b) {
                1int
            } else {
                0int
            },
{
    let found = find_touching_pairs(w);
    ch.publish_all(&found);
    proof {
        assert(final(ch).events().skip(old(ch).events().len() as int) =~= found@);
    }
}

} // verus!
