//! Actor systems: controller input becomes movement and shoot commands,
//! weapons fire projectiles and reload, and energy regenerates.

use vstd::prelude::*;
use crate::comp::{
    Controller, EnergyRegen, EnergyStats, Position, Timer, Velocity, Weapon, COORD_LIMIT,
    TICK_LIMIT, VEL_LIMIT,
};
use crate::events::{EntityCommand, EntityCommandEvent};
use crate::physics::{clamped, ent};
use crate::spawn::{CommandBuffer, ProjectileDataComponents, SpawnOp};
use crate::world::{EntityRec, World};

verus! {

/// The sign of a movement intent component.
pub open spec fn signum(x: int) -> int {
    if x > 0 {
        1
    } else if x < 0 {
        -1
    } else {
        0
    }
}

pub open spec fn abs_of(x: int) -> int {
    if x >= 0 {
        x
    } else {
        -x
    }
}

/// One axis of velocity after a steering step: accelerate in the intended
/// direction, and when that would reach the top speed, pin the axis at the
/// top speed with the sign the velocity already had.
pub open spec fn steered(v: int, dir: int, accel: int, max: int) -> int {
    let cand = v + dir * accel;
    if abs_of(cand) < max {
        cand
    } else if v < 0 {
        -max
    } else {
        max
    }
}

/// The entity listens to its controller: it carries a controller, a
/// velocity, movement stats and a position.
pub open spec fn takes_commands(r: EntityRec) -> bool {
    r.controller is Some && r.velocity is Some && r.movement_speed is Some && r.position is Some
}

/// A record after the command step: the velocity steered by the intent's
/// signs, the controller drained and reset.
pub open spec fn rec_after_commands(r: EntityRec) -> EntityRec {
    if takes_commands(r) {
        let c = r.controller.unwrap();
        let v = r.velocity.unwrap();
        let sp = r.movement_speed.unwrap();
        EntityRec {
            controller: Some(Controller { movement_x: 0, movement_y: 0, queued_actions: 0 }),
            velocity: Some(
                Velocity {
                    x: steered(v.x as int, signum(c.movement_x as int), sp.accel as int, sp.max as int) as i64,
                    y: steered(v.y as int, signum(c.movement_y as int), sp.accel as int, sp.max as int) as i64,
                },
            ),
            ..r
        }
    } else {
        r
    }
}

/// The shoot commands one entity publishes: one per queued action, each
/// stamped with the entity and its position.
pub open spec fn commands_of(r: EntityRec, i: int) -> Seq<EntityCommandEvent> {
    if takes_commands(r) {
        Seq::new(
            r.controller.unwrap().queued_actions as nat,
            |k: int|
                EntityCommandEvent {
                    src: ent(i),
                    command: EntityCommand::Shoot,
                    src_loc: r.position.unwrap(),
                },
        )
    } else {
        Seq::empty()
    }
}

/// The commands of the first `n` entities, in arena order.
pub open spec fn commands_upto(s: Seq<EntityRec>, n: int) -> Seq<EntityCommandEvent>
    decreases n,
{
    if n <= 0 {
        Seq::empty()
    } else {
        commands_upto(s, n - 1) + commands_of(s[n - 1], n - 1)
    }
}

/// Turns every controller's state into movement and shoot commands: each
/// listening entity steers by the sign of its intent, publishes one shoot
/// command per queued action, and its controller resets.
pub fn process_commands_system(w: &mut World) -> (out: Vec<EntityCommandEvent>)
    requires
        old(w).wf(),
    ensures
        final(w).wf(),
        final(w)@.len() == old(w)@.len(),
        forall|i: int|
            0 <= i < old(w)@.len() ==> final(w)@[i] == rec_after_commands(old(w)@[i]),
        out@ == commands_upto(old(w)@, old(w)@.len() as int),
        out@.len() <= 1024 * old(w)@.len(),
{
    let ghost w0 = w@;
    let mut out: Vec<EntityCommandEvent> = Vec::new();
    let n = w.num_entities();
    let mut i: usize = 0;
    while i < n
        invariant
            w.wf(),
            i <= n == w@.len() == w0.len(),
            forall|j: int| 0 <= j < i ==> w@[j] == rec_after_commands(w0[j]),
            forall|j: int| i <= j < n ==> w@[j] == w0[j],
            out@ == commands_upto(w0, i as int),
            out@.len() <= 1024 * i,
        decreases n - i,
    {
        let ghost out_pre = out@;
        let r = w.rec_at(i);
        if r.controller.is_some() && r.velocity.is_some() && r.movement_speed.is_some()
            && r.position.is_some() {
            let c = r.controller.unwrap();
            let v = r.velocity.unwrap();
            let sp = r.movement_speed.unwrap();
            let pos = r.position.unwrap();
            proof {
                assert(w@[i as int].wf());
            }
            let mut q: u64 = 0;
            while q < c.queued_actions
                invariant
                    q <= c.queued_actions,
                    takes_commands(w0[i as int]),
                    c == w0[i as int].controller.unwrap(),
                    pos == w0[i as int].position.unwrap(),
                    i < w0.len(),
                    out@ =~= out_pre + Seq::new(
                        q as nat,
                        |k: int|
                            EntityCommandEvent {
                                src: ent(i as int),
                                command: EntityCommand::Shoot,
                                src_loc: pos,
                            },
                    ),
                decreases c.queued_actions - q,
            {
                out.push(
                    EntityCommandEvent {
                        src: crate::entity::Entity { id: i as u64 },
                        command: EntityCommand::Shoot,
                        src_loc: pos,
                    },
                );
                q = q + 1;
            }
            let dir_x: i64 = if c.movement_x > 0 {
                1
            } else if c.movement_x < 0 {
                -1
            } else {
                0
            };
            let dir_y: i64 = if c.movement_y > 0 {
                1
            } else if c.movement_y < 0 {
                -1
            } else {
                0
            };
            let nx = steer_axis(v.x, dir_x, sp.accel, sp.max);
            let ny = steer_axis(v.y, dir_y, sp.accel, sp.max);
            let rm = w.rec_at_mut(i);
            rm.velocity = Some(Velocity { x: nx, y: ny });
            rm.controller = Some(Controller { movement_x: 0, movement_y: 0, queued_actions: 0 });
            proof {
                assert(w@[i as int] == rec_after_commands(w0[i as int]));
                assert(out@ =~= out_pre + commands_of(w0[i as int], i as int));
            }
        } else {
            proof {
                assert(out@ =~= out_pre + commands_of(w0[i as int], i as int));
            }
        }
        proof {
            assert(1024 * (i + 1) == 1024 * i + 1024) by (nonlinear_arith);
        }
        i = i + 1;
    }
    out
}

/// One axis of the steering step, exactly as [`steered`] states it.
fn steer_axis(v: i64, dir: i64, accel: i64, max: i64) -> (r: i64)
    requires
        -VEL_LIMIT <= v <= VEL_LIMIT,
        -1 <= dir <= 1,
        0 <= accel <= VEL_LIMIT,
        0 <= max <= VEL_LIMIT,
    ensures
        r == steered(v as int, dir as int, accel as int, max as int),
        -VEL_LIMIT <= r <= VEL_LIMIT,
{
    proof {
        assert(-VEL_LIMIT <= dir * accel <= VEL_LIMIT) by (nonlinear_arith)
            requires
                -1 <= dir <= 1,
                0 <= accel <= VEL_LIMIT,
        ;
    }
    let cand = v + dir * accel;
    let cand_abs = if cand >= 0 {
        cand
    } else {
        -cand
    };
    if cand_abs < max {
        cand
    } else if v < 0 {
        -max
    } else {
        max
    }
}

/// A record after the reload step: the weapon's reload countdown advances.
pub open spec fn rec_after_reload(r: EntityRec, dt: int) -> EntityRec {
    if r.weapon is Some {
        let wp = r.weapon.unwrap();
        EntityRec {
            weapon: Some(Weapon { reload: wp.reload.ticked(dt), ..wp }),
            ..r
        }
    } else {
        r
    }
}

/// Advances every weapon's reload countdown.
pub fn weapon_reload_system(w: &mut World, dt_ms: u32)
    requires
        old(w).wf(),
        dt_ms <= TICK_LIMIT,
    ensures
        final(w).wf(),
        final(w)@.len() == old(w)@.len(),
        forall|i: int| 0 <= i < old(w)@.len() ==> final(w)@[i] == rec_after_reload(old(w)@[i], dt_ms as int),
{
    let ghost w0 = w@;
    let n = w.num_entities();
    let mut i: usize = 0;
    while i < n
        invariant
            w.wf(),
            i <= n == w@.len() == w0.len(),
            dt_ms <= TICK_LIMIT,
            forall|j: int| 0 <= j < i ==> w@[j] == rec_after_reload(w0[j], dt_ms as int),
            forall|j: int| i <= j < n ==> w@[j] == w0[j],
        decreases n - i,
    {
        let r = w.rec_at(i);
        if let Some(wp) = r.weapon {
            proof {
                assert(w@[i as int].wf());
            }
            let mut t = wp.reload;
            t.tick(dt_ms);
            let rm = w.rec_at_mut(i);
            rm.weapon = Some(Weapon { kind: wp.kind, reload: t, energy_drain: wp.energy_drain });
        }
        i = i + 1;
    }
}

/// A record after the regeneration step: when the cycle has finished, the
/// energy tops up — never above its max — and the cycle restarts; either
/// way the cycle countdown advances.
pub open spec fn rec_after_regen(r: EntityRec, dt: int) -> EntityRec {
    if r.energy is Some && r.energy_regen is Some {
        let e = r.energy.unwrap();
        let g = r.energy_regen.unwrap();
        if g.cycle.finished {
            EntityRec {
                energy: Some(
                    EnergyStats {
                        energy: if e.energy + g.energy > e.max_energy {
                            e.max_energy
                        } else {
                            (e.energy + g.energy) as i64
                        },
                        max_energy: e.max_energy,
                    },
                ),
                energy_regen: Some(
                    EnergyRegen {
                        energy: g.energy,
                        cycle: Timer {
                            duration_ms: g.cycle.duration_ms,
                            elapsed_ms: 0,
                            finished: false,
                        }.ticked(dt),
                    },
                ),
                ..r
            }
        } else {
            EntityRec {
                energy_regen: Some(EnergyRegen { energy: g.energy, cycle: g.cycle.ticked(dt) }),
                ..r
            }
        }
    } else {
        r
    }
}

/// Periodically regenerates energy: each finished cycle tops the entity's
/// energy up by its regeneration amount, clamped at the max, and restarts.
pub fn regen_energy_system(w: &mut World, dt_ms: u32)
    requires
        old(w).wf(),
        dt_ms <= TICK_LIMIT,
    ensures
        final(w).wf(),
        final(w)@.len() == old(w)@.len(),
        forall|i: int| 0 <= i < old(w)@.len() ==> final(w)@[i] == rec_after_regen(old(w)@[i], dt_ms as int),
{
    let ghost w0 = w@;
    let n = w.num_entities();
    let mut i: usize = 0;
    while i < n
        invariant
            w.wf(),
            i <= n == w@.len() == w0.len(),
            dt_ms <= TICK_LIMIT,
            forall|j: int| 0 <= j < i ==> w@[j] == rec_after_regen(w0[j], dt_ms as int),
            forall|j: int| i <= j < n ==> w@[j] == w0[j],
        decreases n - i,
    {
        let r = w.rec_at(i);
        if r.energy.is_some() && r.energy_regen.is_some() {
            let e = r.energy.unwrap();
            let g = r.energy_regen.unwrap();
            proof {
                assert(w@[i as int].wf());
            }
            if g.cycle.finished {
                let new_energy = crate::comp::top_up(e.energy, g.energy, e.max_energy);
                let mut t = Timer::from_ms(g.cycle.duration_ms);
                t.tick(dt_ms);
                let rm = w.rec_at_mut(i);
                rm.energy = Some(EnergyStats { energy: new_energy, max_energy: e.max_energy });
                rm.energy_regen = Some(EnergyRegen { energy: g.energy, cycle: t });
            } else {
                let mut t = g.cycle;
                t.tick(dt_ms);
                let rm = w.rec_at_mut(i);
                rm.energy_regen = Some(EnergyRegen { energy: g.energy, cycle: t });
            }
        }
        i = i + 1;
    }
}

/// The weapon-firing state: the arena plus the spawns buffered so far.
#[verifier::ext_equal]
pub struct ShootState {
    pub recs: Seq<EntityRec>,
    pub ops: Seq<SpawnOp>,
}

/// The weapon at slot `i` answers the command: the command is a shoot, the
/// slot carries a reloaded nova-blast weapon with a position, and it is
/// controlled by the command's source.
pub open spec fn shoot_applies(s: Seq<EntityRec>, ev: EntityCommandEvent, i: int) -> bool {
    &&& ev.command is Shoot
    &&& s[i].controlled is Some
    &&& s[i].weapon is Some
    &&& s[i].position is Some
    &&& s[i].controlled.unwrap().by == ev.src
    &&& s[i].weapon.unwrap().reload.finished
    &&& s[i].weapon.unwrap().kind is NovaBlast
}

/// The projectile a weapon at `wpos` fires for a command sent from
/// `src_loc`: it appears at the sum of the two positions, clamped to the
/// coordinate bound, flying up at 320 units per second with damage 50.
pub open spec fn fired_projectile(wpos: Position, src_loc: Position) -> ProjectileDataComponents {
    ProjectileDataComponents {
        translation: Position {
            x: clamped(wpos.x + src_loc.x, -COORD_LIMIT as int, COORD_LIMIT as int) as i64,
            y: clamped(wpos.y + src_loc.y, -COORD_LIMIT as int, COORD_LIMIT as int) as i64,
        },
        velocity: Velocity { x: 0, y: 320 },
        ..ProjectileDataComponents::stock_spec()
    }
}

/// One command against one weapon slot. A reloaded, addressed weapon fires
/// unless its owner meters energy and has too little: the owner's energy
/// drops by the drain, the projectile is buffered with the owner as its
/// damage origin, and the reload countdown restarts.
pub open spec fn apply_shoot(st: ShootState, ev: EntityCommandEvent, i: int) -> ShootState {
    if !shoot_applies(st.recs, ev, i) {
        st
    } else {
        let wp = st.recs[i].weapon.unwrap();
        let owner = st.recs[i].controlled.unwrap().by;
        let oid = owner.id as int;
        let metered = 0 <= oid < st.recs.len() && st.recs[oid].energy is Some;
        if metered && st.recs[oid].energy.unwrap().energy < wp.energy_drain {
            st
        } else {
            let recs1 = if metered {
                st.recs.update(
                    oid,
                    EntityRec {
                        energy: Some(
                            EnergyStats {
                                energy: (st.recs[oid].energy.unwrap().energy - wp.energy_drain) as i64,
                                max_energy: st.recs[oid].energy.unwrap().max_energy,
                            },
                        ),
                        ..st.recs[oid]
                    },
                )
            } else {
                st.recs
            };
            ShootState {
                recs: recs1.update(
                    i,
                    EntityRec {
                        weapon: Some(
                            Weapon {
                                kind: wp.kind,
                                reload: Timer {
                                    duration_ms: wp.reload.duration_ms,
                                    elapsed_ms: 0,
                                    finished: false,
                                },
                                energy_drain: wp.energy_drain,
                            },
                        ),
                        ..recs1[i]
                    },
                ),
                ops: st.ops.push(
                    SpawnOp::Projectile(
                        fired_projectile(st.recs[i].position.unwrap(), ev.src_loc),
                        owner,
                    ),
                ),
            }
        }
    }
}

/// One command against the first `n` weapon slots, in arena order.
pub open spec fn shoot_event_upto(st: ShootState, ev: EntityCommandEvent, n: int) -> ShootState
    decreases n,
{
    if n <= 0 {
        st
    } else {
        apply_shoot(shoot_event_upto(st, ev, n - 1), ev, n - 1)
    }
}

/// The first `k` commands, in publication order.
pub open spec fn shoot_fold_upto(st: ShootState, evs: Seq<EntityCommandEvent>, k: int, n: int) -> ShootState
    decreases k,
{
    if k <= 0 {
        st
    } else {
        shoot_event_upto(shoot_fold_upto(st, evs, k - 1, n), evs[k - 1], n)
    }
}

/// Fires every weapon addressed by the tick's commands, exactly as the fold
/// over commands and weapon slots states. Projectiles are buffered and
/// appear at the next flush.
pub fn weapon_shoot_system(
    w: &mut World,
    buf: &mut CommandBuffer,
    commands: &Vec<EntityCommandEvent>,
)
    requires
        old(w).wf(),
        old(buf).wf(),
    ensures
        final(w).wf(),
        final(buf).wf(),
        final(w)@.len() == old(w)@.len(),
        final(buf)@.len() <= old(buf)@.len() + old(w)@.len(),
        (ShootState { recs: final(w)@, ops: final(buf)@ }) == shoot_fold_upto(
            ShootState { recs: old(w)@, ops: old(buf)@ },
            commands@,
            commands@.len() as int,
            old(w)@.len() as int,
        ),
{
    let ghost st0 = ShootState { recs: w@, ops: buf@ };
    let n = w.num_entities();
    let m = commands.len();
    let mut k: usize = 0;
    while k < m
        invariant
            w.wf(),
            buf.wf(),
            k <= m == commands@.len(),
            n == w@.len() == st0.recs.len(),
            (ShootState { recs: w@, ops: buf@ }) =~= shoot_fold_upto(
                st0,
                commands@,
                k as int,
                n as int,
            ),
        decreases m - k,
    {
        let ev = commands[k];
        let mut i: usize = 0;
        let ghost st_ev = ShootState { recs: w@, ops: buf@ };
        while i < n
            invariant
                w.wf(),
                buf.wf(),
                i <= n == w@.len() == st_ev.recs.len(),
                (ShootState { recs: w@, ops: buf@ }) =~= shoot_event_upto(st_ev, ev, i as int),
            decreases n - i,
        {
            apply_shoot_exec(w, buf, ev, i);
            i = i + 1;
        }
        k = k + 1;
    }
    proof {
        lemma_shoot_fold_budget(st0, commands@, m as int, n as int);
        lemma_count_ready_bounds(st0.recs, n as int);
        lemma_count_ready_bounds(
            shoot_fold_upto(st0, commands@, m as int, n as int).recs,
            n as int,
        );
    }
}

/// The weapon at this slot is loaded and ready to answer a command.
pub open spec fn is_ready_weapon(r: EntityRec) -> bool {
    r.weapon is Some && r.weapon.unwrap().reload.finished
}

/// How many of the first `n` slots hold a ready weapon.
pub open spec fn count_ready_weapons(s: Seq<EntityRec>, n: int) -> int
    decreases n,
{
    if n <= 0 {
        0
    } else {
        count_ready_weapons(s, n - 1) + if is_ready_weapon(s[n - 1]) {
            1int
        } else {
            0int
        }
    }
}

proof fn lemma_count_ready_bounds(s: Seq<EntityRec>, n: int)
    ensures
        0 <= count_ready_weapons(s, n),
        n >= 0 ==> count_ready_weapons(s, n) <= n,
    decreases n,
{
    if n > 0 {
        lemma_count_ready_bounds(s, n - 1);
    }
}

/// Two arenas that agree on weapon readiness everywhere but one slot have
/// ready counts that differ only by that slot.
proof fn lemma_count_ready_except(s1: Seq<EntityRec>, s2: Seq<EntityRec>, i: int, n: int)
    requires
        s1.len() == s2.len(),
        0 <= i < s1.len(),
        n <= s1.len(),
        forall|j: int|
            0 <= j < s1.len() && j != i ==> is_ready_weapon(#[trigger] s1[j]) == is_ready_weapon(
                s2[j],
            ),
    ensures
        count_ready_weapons(s2, n) == count_ready_weapons(s1, n) + if i < n {
            (if is_ready_weapon(s2[i]) {
                1int
            } else {
                0int
            }) - (if is_ready_weapon(s1[i]) {
                1int
            } else {
                0int
            })
        } else {
            0int
        },
    decreases n,
{
    if n > 0 {
        lemma_count_ready_except(s1, s2, i, n - 1);
    }
}

/// One hit of the weapon budget: a command fires a slot only by spending its
/// readiness, so the buffered spawns plus the ready count never grow.
proof fn lemma_apply_shoot_budget(st: ShootState, ev: EntityCommandEvent, i: int, n: int)
    requires
        0 <= i < n == st.recs.len(),
    ensures
        apply_shoot(st, ev, i).recs.len() == n,
        apply_shoot(st, ev, i).ops.len() + count_ready_weapons(apply_shoot(st, ev, i).recs, n)
            <= st.ops.len() + count_ready_weapons(st.recs, n),
        apply_shoot(st, ev, i).ops.len() >= st.ops.len(),
{
    let st1 = apply_shoot(st, ev, i);
    if st1.ops.len() > st.ops.len() {
        assert(shoot_applies(st.recs, ev, i));
        assert(is_ready_weapon(st.recs[i]));
        assert(!is_ready_weapon(st1.recs[i]));
        assert(forall|j: int|
            0 <= j < n && j != i ==> is_ready_weapon(#[trigger] st.recs[j]) == is_ready_weapon(
                st1.recs[j],
            ));
        lemma_count_ready_except(st.recs, st1.recs, i, n);
    } else {
        if st1 != st {
            assert(forall|j: int|
                0 <= j < n && j != i ==> is_ready_weapon(#[trigger] st.recs[j]) == is_ready_weapon(
                    st1.recs[j],
                ));
            lemma_count_ready_except(st.recs, st1.recs, i, n);
        }
    }
}

/// The budget over one command and the first `i` slots.
proof fn lemma_shoot_event_budget(st: ShootState, ev: EntityCommandEvent, i: int, n: int)
    requires
        0 <= i <= n == st.recs.len(),
    ensures
        shoot_event_upto(st, ev, i).recs.len() == n,
        shoot_event_upto(st, ev, i).ops.len() + count_ready_weapons(
            shoot_event_upto(st, ev, i).recs,
            n,
        ) <= st.ops.len() + count_ready_weapons(st.recs, n),
        shoot_event_upto(st, ev, i).ops.len() >= st.ops.len(),
    decreases i,
{
    if i > 0 {
        lemma_shoot_event_budget(st, ev, i - 1, n);
        lemma_apply_shoot_budget(shoot_event_upto(st, ev, i - 1), ev, i - 1, n);
    }
}

/// The budget over the first `k` commands: however many commands arrive, the
/// pass buffers at most one projectile per initially ready weapon.
proof fn lemma_shoot_fold_budget(st: ShootState, evs: Seq<EntityCommandEvent>, k: int, n: int)
    requires
        0 <= k,
        n == st.recs.len(),
    ensures
        shoot_fold_upto(st, evs, k, n).recs.len() == n,
        shoot_fold_upto(st, evs, k, n).ops.len() + count_ready_weapons(
            shoot_fold_upto(st, evs, k, n).recs,
            n,
        ) <= st.ops.len() + count_ready_weapons(st.recs, n),
        shoot_fold_upto(st, evs, k, n).ops.len() >= st.ops.len(),
    decreases k,
{
    if k > 0 {
        lemma_shoot_fold_budget(st, evs, k - 1, n);
        lemma_shoot_event_budget(shoot_fold_upto(st, evs, k - 1, n), evs[k - 1], n, n);
    }
}

/// One command against one weapon slot, exactly as [`apply_shoot`] states
/// it.
fn apply_shoot_exec(w: &mut World, buf: &mut CommandBuffer, ev: EntityCommandEvent, i: usize)
    requires
        old(w).wf(),
        old(buf).wf(),
        i < old(w)@.len(),
    ensures
        final(w).wf(),
        final(buf).wf(),
        final(w)@.len() == old(w)@.len(),
        final(buf)@.len() <= old(buf)@.len() + 1,
        (ShootState { recs: final(w)@, ops: final(buf)@ }) =~= apply_shoot(
            ShootState { recs: old(w)@, ops: old(buf)@ },
            ev,
            i as int,
        ),
{
    let r = w.rec_at(i);
    if r.controlled.is_none() || r.weapon.is_none() || r.position.is_none() {
        return ;
    }
    let controlled = r.controlled.unwrap();
    let wp = r.weapon.unwrap();
    let wpos = r.position.unwrap();
    if controlled.by.id != ev.src.id {
        proof {
            assert(controlled.by != ev.src);
        }
        return ;
    }
    if !wp.reload.finished {
        return ;
    }
    match ev.command {
        EntityCommand::Shoot => {},
    }
    match wp.kind {
        crate::comp::WeaponKind::NovaBlast => {},
    }
    proof {
        assert(shoot_applies(w@, ev, i as int));
        assert(w@[i as int].wf());
    }
    let owner = controlled.by;
    let nw = w.num_entities();
    let metered = owner.id < nw as u64 && w.rec_at(owner.id as usize).energy.is_some();
    if metered {
        let oid = owner.id as usize;
        let e = w.rec_at(oid).energy.unwrap();
        proof {
            assert(w@[oid as int].wf());
        }
        if e.energy < wp.energy_drain {
            return ;
        }
        let rm = w.rec_at_mut(oid);
        rm.energy = Some(
            EnergyStats { energy: e.energy - wp.energy_drain, max_energy: e.max_energy },
        );
    }
    proof {
        assert(wpos.wf());
    }
    let px = clamp_sum_coord(wpos.x, ev.src_loc.x);
    let py = clamp_sum_coord(wpos.y, ev.src_loc.y);
    let mut data = ProjectileDataComponents::stock();
    data.translation = Position { x: px, y: py };
    data.velocity = Velocity { x: 0, y: 320 };
    crate::spawn::spawn_projectile(buf, owner, data);
    let rm = w.rec_at_mut(i);
    rm.weapon = Some(
        Weapon {
            kind: wp.kind,
            reload: Timer { duration_ms: wp.reload.duration_ms, elapsed_ms: 0, finished: false },
            energy_drain: wp.energy_drain,
        },
    );
}

/// Adds two coordinates and clamps the sum onto the coordinate bound.
fn clamp_sum_coord(a: i64, b: i64) -> (r: i64)
    requires
        -COORD_LIMIT <= a <= COORD_LIMIT,
    ensures
        r == clamped(a + b, -COORD_LIMIT as int, COORD_LIMIT as int),
{
    if b >= 0 {
        if a > COORD_LIMIT - b {
            COORD_LIMIT
        } else {
            a + b
        }
    } else {
        if a < -COORD_LIMIT - b {
            -COORD_LIMIT
        } else {
            a + b
        }
    }
}

} // verus!
