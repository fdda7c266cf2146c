//! The gameplay director and its surroundings: the play-field bounds, the
//! tick-driven spawner with its difficulty ramp, the game-over latch, and
//! the developer command executive.

use vstd::prelude::*;
use crate::comp::{Position, Timer, Velocity, COORD_LIMIT, TICK_LIMIT};
use crate::events::{DeveloperCommand, DeveloperCommandEvent, SpawnEntityEvent, SpawnType};
use crate::rng::random_in_range;
use crate::spawn::{
    standard_energy_extras, standard_health_extras, standard_speed_extras, AsteroidDataComponents,
    CommandBuffer, PowerupDataComponents, SpawnOp,
};
use crate::world::{EntityRec, World};

verus! {

/// How far above the top bound the director spawns, in milliunits.
pub const SPAWN_MARGIN: i64 = 100_000;

/// How far below the bottom bound off-bounds cleanup begins, in milliunits;
/// generous, so nothing is cleaned up on screen.
pub const CLEANUP_MARGIN: i64 = 650_000;

/// The play field: a centre point and the field's full extent on each axis,
/// in milliunits. Well-formedness keeps the field and the spawn line inside
/// the coordinate bound.
#[derive(Clone, Copy, Debug, PartialEq, Eq, Structural)]
pub struct GameBounds {
    pub point: Position,
    pub dim_x: i64,
    pub dim_y: i64,
}

impl GameBounds {
    pub open spec fn wf(self) -> bool {
        &&& self.point.wf()
        &&& 2 <= self.dim_x <= COORD_LIMIT
        &&& 2 <= self.dim_y <= COORD_LIMIT
        &&& -COORD_LIMIT <= self.point.x - self.dim_x / 2
        &&& self.point.x + self.dim_x / 2 <= COORD_LIMIT
        &&& -COORD_LIMIT <= self.point.y - self.dim_y / 2
        &&& self.point.y + self.dim_y / 2 + SPAWN_MARGIN <= COORD_LIMIT
        &&& self.point.y + self.dim_y <= COORD_LIMIT
    }

    /// The stock play field: 720 by 680 units around the origin.
    pub fn standard() -> (b: GameBounds)
        ensures
            b == (GameBounds { point: Position { x: 0, y: 0 }, dim_x: 720_000, dim_y: 680_000 }),
            b.wf(),
    {
        GameBounds { point: Position { x: 0, y: 0 }, dim_x: 720_000, dim_y: 680_000 }
    }

    /// The vertical line below which off-bounds cleanup disposes.
    pub fn cleanup_cutoff(&self) -> (y: i64)
        requires
            self.wf(),
        ensures
            y == self.point.y - self.dim_y / 2 - CLEANUP_MARGIN,
    {
        self.point.y - self.dim_y / 2 - CLEANUP_MARGIN
    }
}

/// A record after the bounds step: a player is pinned inside the field, and
/// an axis that was pinned loses its velocity.
pub open spec fn rec_in_bounds(r: EntityRec, b: GameBounds) -> EntityRec {
    if r.player is Some && r.velocity is Some && r.position is Some {
        let p = r.position.unwrap();
        let v = r.velocity.unwrap();
        let lo_x = b.point.x - b.dim_x / 2;
        let hi_x = b.point.x + b.dim_x / 2;
        let lo_y = b.point.y - b.dim_y / 2;
        let hi_y = b.point.y + b.dim_y / 2;
        let nx: (int, int) = if p.x > hi_x {
            (hi_x, 0)
        } else if p.x < lo_x {
            (lo_x, 0)
        } else {
            (p.x as int, v.x as int)
        };
        let ny: (int, int) = if p.y > hi_y {
            (hi_y, 0)
        } else if p.y < lo_y {
            (lo_y, 0)
        } else {
            (p.y as int, v.y as int)
        };
        EntityRec {
            position: Some(Position { x: nx.0 as i64, y: ny.0 as i64 }),
            velocity: Some(Velocity { x: nx.1 as i64, y: ny.1 as i64 }),
            ..r
        }
    } else {
        r
    }
}

/// Keeps every player within the play field, zeroing the velocity of any
/// axis that had to be pinned.
pub fn keep_player_in_bounds_system(w: &mut World, bounds: &GameBounds)
    requires
        old(w).wf(),
        bounds.wf(),
    ensures
        final(w).wf(),
        final(w)@.len() == old(w)@.len(),
        forall|i: int| 0 <= i < old(w)@.len() ==> final(w)@[i] == rec_in_bounds(old(w)@[i], *bounds),
{
    let ghost w0 = w@;
    let n = w.num_entities();
    let lo_x = bounds.point.x - bounds.dim_x / 2;
    let hi_x = bounds.point.x + bounds.dim_x / 2;
    let lo_y = bounds.point.y - bounds.dim_y / 2;
    let hi_y = bounds.point.y + bounds.dim_y / 2;
    let mut i: usize = 0;
    while i < n
        invariant
            w.wf(),
            i <= n == w@.len() == w0.len(),
            bounds.wf(),
            lo_x == bounds.point.x - bounds.dim_x / 2,
            hi_x == bounds.point.x + bounds.dim_x / 2,
            lo_y == bounds.point.y - bounds.dim_y / 2,
            hi_y == bounds.point.y + bounds.dim_y / 2,
            forall|j: int| 0 <= j < i ==> w@[j] == rec_in_bounds(w0[j], *bounds),
            forall|j: int| i <= j < n ==> w@[j] == w0[j],
        decreases n - i,
    {
        let r = w.rec_at(i);
        if r.player.is_some() && r.velocity.is_some() && r.position.is_some() {
            let p = r.position.unwrap();
            let v = r.velocity.unwrap();
            proof {
                assert(w@[i as int].wf());
            }
            let (px, vx): (i64, i64) = if p.x > hi_x {
                (hi_x, 0)
            } else if p.x < lo_x {
                (lo_x, 0)
            } else {
                (p.x, v.x)
            };
            let (py, vy): (i64, i64) = if p.y > hi_y {
                (hi_y, 0)
            } else if p.y < lo_y {
                (lo_y, 0)
            } else {
                (p.y, v.y)
            };
            let rm = w.rec_at_mut(i);
            rm.position = Some(Position { x: px, y: py });
            rm.velocity = Some(Velocity { x: vx, y: vy });
        }
        i = i + 1;
    }
}

/// The director's state: two independent spawn cadences, the elapsed game
/// time, and the game-over latch.
#[derive(Clone, Copy, Debug, PartialEq, Eq, Structural)]
pub struct GameplaySpawnState {
    pub asteroid_timer: Timer,
    pub powerup_timer: Timer,
    pub game_time_ms: u64,
    pub game_over: bool,
}

impl GameplaySpawnState {
    pub open spec fn wf(self) -> bool {
        self.asteroid_timer.wf() && self.powerup_timer.wf()
    }
}

impl Default for GameplaySpawnState {
    /// A fresh director: asteroids every 1.7 seconds, power-ups every 11,
    /// no time elapsed, the game running.
    fn default() -> (s: GameplaySpawnState)
        ensures
            s == (GameplaySpawnState {
                asteroid_timer: Timer { duration_ms: 1700, elapsed_ms: 0, finished: false },
                powerup_timer: Timer { duration_ms: 11000, elapsed_ms: 0, finished: false },
                game_time_ms: 0,
                game_over: false,
            }),
            s.wf(),
    {
        GameplaySpawnState {
            asteroid_timer: Timer::from_ms(1700),
            powerup_timer: Timer::from_ms(11000),
            game_time_ms: 0,
            game_over: false,
        }
    }
}

/// Latches the game-over flag once any player's death flag is observed; the
/// latch never clears.
pub fn check_game_over_system(w: &World, state: &mut GameplaySpawnState)
    ensures
        final(state).asteroid_timer == old(state).asteroid_timer,
        final(state).powerup_timer == old(state).powerup_timer,
        final(state).game_time_ms == old(state).game_time_ms,
        final(state).game_over == (old(state).game_over || exists|i: int|
            0 <= i < w@.len() && player_is_dead(#[trigger] w@[i])),
{
    if state.game_over {
        return ;
    }
    let n = w.num_entities();
    let mut i: usize = 0;
    while i < n
        invariant
            i <= n == w@.len(),
            !state.game_over,
            *state == *old(state),
            forall|j: int| 0 <= j < i ==> !player_is_dead(#[trigger] w@[j]),
        decreases n - i,
    {
        let r = w.rec_at(i);
        if r.player.is_some() {
            if let Some(c) = r.can_die {
                if c.is_dead {
                    state.game_over = true;
                    proof {
                        assert(player_is_dead(w@[i as int]));
                    }
                    return ;
                }
            }
        }
        i = i + 1;
    }
}

/// The entity is a player whose death flag is set.
pub open spec fn player_is_dead(r: EntityRec) -> bool {
    r.player is Some && r.can_die is Some && r.can_die.unwrap().is_dead
}

/// The fall speed the difficulty ramp assigns after `t_ms` of play: it grows
/// linearly from zero and caps at `base` once `ramp_ms` has elapsed.
pub open spec fn ramp_speed(t_ms: int, base: int, ramp_ms: int) -> int {
    if t_ms >= ramp_ms {
        base
    } else {
        base * t_ms / ramp_ms
    }
}

/// The ramp, exactly as [`ramp_speed`] states it.
fn ramp_speed_exec(t_ms: u64, base: i64, ramp_ms: u64) -> (r: i64)
    requires
        0 < base <= 1000,
        0 < ramp_ms <= 100_000,
    ensures
        r == ramp_speed(t_ms as int, base as int, ramp_ms as int),
        0 <= r <= base,
{
    if t_ms >= ramp_ms {
        base
    } else {
        proof {
            assert(base * t_ms <= 1000 * 100_000) by (nonlinear_arith)
                requires
                    0 <= base <= 1000,
                    0 <= t_ms <= 100_000,
            ;
            assert((base * t_ms) as int / ramp_ms as int <= base) by (nonlinear_arith)
                requires
                    0 <= base,
                    0 < ramp_ms,
                    t_ms < ramp_ms,
            ;
            assert((base * t_ms) as int / ramp_ms as int >= 0) by (nonlinear_arith)
                requires
                    0 <= base,
                    0 <= t_ms,
                    0 < ramp_ms,
            ;
        }
        ((base as u64 * t_ms) / ramp_ms) as i64
    }
}

/// The asteroid op the director would send from horizontal position `tx`
/// after `t_ms` of play.
pub open spec fn directed_asteroid_op(b: GameBounds, t_ms: int, tx: int) -> SpawnOp {
    SpawnOp::Asteroid(
        AsteroidDataComponents {
            translation: Position {
                x: tx as i64,
                y: (b.point.y + b.dim_y / 2 + SPAWN_MARGIN) as i64,
            },
            velocity: Velocity { x: 0, y: (-ramp_speed(t_ms, 100, 70_000)) as i64 },
            ..AsteroidDataComponents::stock_spec()
        },
    )
}

/// The op is the asteroid the director sends after `t_ms` of play: the
/// stock asteroid at some horizontal position inside the field, just above
/// the top bound, falling at the ramp's speed.
pub open spec fn is_directed_asteroid(op: SpawnOp, b: GameBounds, t_ms: int) -> bool {
    exists|tx: int|
        b.point.x - b.dim_x / 2 <= tx < b.point.x + b.dim_x / 2 && op == #[trigger] directed_asteroid_op(
            b,
            t_ms,
            tx,
        )
}

/// The power-up bundle the director would send from horizontal position
/// `tx` after `t_ms` of play.
pub open spec fn directed_powerup_data(b: GameBounds, t_ms: int, tx: int) -> PowerupDataComponents {
    PowerupDataComponents {
        translation: Position {
            x: tx as i64,
            y: (b.point.y + b.dim_y / 2 + SPAWN_MARGIN) as i64,
        },
        velocity: Velocity { x: 0, y: (-ramp_speed(t_ms, 80, 75_000)) as i64 },
        ..PowerupDataComponents::stock_spec()
    }
}

/// The op is the power-up the director sends after `t_ms` of play: the
/// stock power-up carrying one of the three standard payloads, at some
/// horizontal position inside the field, just above the top bound, falling
/// at the ramp's speed.
pub open spec fn is_directed_powerup(op: SpawnOp, b: GameBounds, t_ms: int) -> bool {
    exists|tx: int|
        b.point.x - b.dim_x / 2 <= tx < b.point.x + b.dim_x / 2 && ({
            let data = #[trigger] directed_powerup_data(b, t_ms, tx);
            op == SpawnOp::Powerup(data, standard_speed_extras()) || op == SpawnOp::Powerup(
                data,
                standard_health_extras(),
            ) || op == SpawnOp::Powerup(data, standard_energy_extras())
        })
}

/// Drives the spawn cadences once the game is running: each expired timer
/// sends its entity from a random spot on the spawn line and restarts; both
/// timers and the clock then advance. A finished game changes nothing.
pub fn gameplay_spawn_system(
    state: &mut GameplaySpawnState,
    bounds: &GameBounds,
    buf: &mut CommandBuffer,
    dt_ms: u32,
)
    requires
        old(state).wf(),
        old(buf).wf(),
        bounds.wf(),
        dt_ms <= TICK_LIMIT,
    ensures
        final(state).wf(),
        final(buf).wf(),
        final(state).game_over == old(state).game_over,
        old(state).game_over ==> *final(state) == *old(state) && final(buf)@ == old(buf)@,
        !old(state).game_over ==> {
            let fired_a = old(state).asteroid_timer.finished;
            let fired_p = old(state).powerup_timer.finished;
            &&& final(state).asteroid_timer == if fired_a {
                Timer {
                    duration_ms: old(state).asteroid_timer.duration_ms,
                    elapsed_ms: 0,
                    finished: false,
                }.ticked(dt_ms as int)
            } else {
                old(state).asteroid_timer.ticked(dt_ms as int)
            }
            &&& final(state).powerup_timer == if fired_p {
                Timer {
                    duration_ms: old(state).powerup_timer.duration_ms,
                    elapsed_ms: 0,
                    finished: false,
                }.ticked(dt_ms as int)
            } else {
                old(state).powerup_timer.ticked(dt_ms as int)
            }
            &&& final(state).game_time_ms == if old(state).game_time_ms + dt_ms <= u64::MAX {
                old(state).game_time_ms + dt_ms
            } else {
                u64::MAX as int
            }
            &&& final(buf)@.len() == old(buf)@.len() + (if fired_a {
                1int
            } else {
                0int
            }) + (if fired_p {
                1int
            } else {
                0int
            })
            &&& forall|j: int| 0 <= j < old(buf)@.len() ==> final(buf)@[j] == old(buf)@[j]
            &&& fired_a ==> is_directed_asteroid(
                final(buf)@[old(buf)@.len() as int],
                *bounds,
                old(state).game_time_ms as int,
            )
            &&& fired_p ==> is_directed_powerup(
                final(buf)@[old(buf)@.len() + (if fired_a {
                    1int
                } else {
                    0int
                })],
                *bounds,
                old(state).game_time_ms as int,
            )
        },
{
    if state.game_over {
        return ;
    }
    let ghost b0 = buf@;
    if state.asteroid_timer.finished {
        let tx = random_in_range(
            bounds.point.x - bounds.dim_x / 2,
            bounds.point.x + bounds.dim_x / 2,
        );
        let ty = bounds.point.y + bounds.dim_y / 2 + SPAWN_MARGIN;
        let speed = ramp_speed_exec(state.game_time_ms, 100, 70_000);
        let mut data = AsteroidDataComponents::stock();
        data.translation = Position { x: tx, y: ty };
        data.velocity = Velocity { x: 0, y: -speed };
        crate::spawn::spawn_asteroid(buf, data);
        state.asteroid_timer.reset();
        proof {
            assert(buf@[b0.len() as int] == directed_asteroid_op(
                *bounds,
                old(state).game_time_ms as int,
                tx as int,
            ));
            assert(is_directed_asteroid(
                buf@[b0.len() as int],
                *bounds,
                old(state).game_time_ms as int,
            ));
        }
    }
    let ghost b1 = buf@;
    if state.powerup_timer.finished {
        let tx = random_in_range(
            bounds.point.x - bounds.dim_x / 2,
            bounds.point.x + bounds.dim_x / 2,
        );
        let ty = bounds.point.y + bounds.dim_y / 2 + SPAWN_MARGIN;
        let speed = ramp_speed_exec(state.game_time_ms, 80, 75_000);
        let mut data = PowerupDataComponents::stock();
        data.translation = Position { x: tx, y: ty };
        data.velocity = Velocity { x: 0, y: -speed };
        let select = random_in_range(0, 3);
        let kind = if select == 0 {
            crate::spawn::PowerUpKind::Speed(
                crate::comp::SpeedPowerUp {
                    speed: crate::comp::MovementSpeed { accel: 2, max: 40 },
                },
            )
        } else if select == 1 {
            crate::spawn::PowerUpKind::Health(
                crate::comp::HealthPowerUp {
                    health: crate::comp::HealthStats { hull: 90, max_hull: 0 },
                },
            )
        } else {
            crate::spawn::PowerUpKind::Energy(
                crate::comp::EnergyPowerUp {
                    energy: crate::comp::EnergyStats { energy: 200, max_energy: 20 },
                },
            )
        };
        let mut kinds: Vec<crate::spawn::PowerUpKind> = Vec::new();
        kinds.push(kind);
        proof {
            assert(kinds@.drop_last() =~= Seq::<crate::spawn::PowerUpKind>::empty());
            assert(crate::spawn::extras_of(Seq::<crate::spawn::PowerUpKind>::empty())
                == crate::spawn::PowerupExtras::none_spec());
            assert(kinds@.last() == kind);
        }
        crate::spawn::spawn_powerup(buf, data, kinds);
        state.powerup_timer.reset();
        proof {
            assert(data == directed_powerup_data(
                *bounds,
                old(state).game_time_ms as int,
                tx as int,
            ));
            assert(is_directed_powerup(
                buf@[b1.len() as int],
                *bounds,
                old(state).game_time_ms as int,
            ));
            assert forall|j: int| 0 <= j < b1.len() implies buf@[j] == b1[j] by {}
        }
    }
    state.asteroid_timer.tick(dt_ms);
    state.powerup_timer.tick(dt_ms);
    if dt_ms as u64 <= u64::MAX - state.game_time_ms {
        state.game_time_ms = state.game_time_ms + dt_ms as u64;
    } else {
        state.game_time_ms = u64::MAX;
    }
}

/// Reads a developer command string; anything unrecognized is `Unknown`.
pub fn parse_developer_command(s: &String) -> (r: DeveloperCommand)
    ensures
        r is SpawnAsteroid <==> s@ == "spawn_asteroid"@,
        r is SpawnProjectile <==> s@ == "spawn_projectile"@,
        r is SpawnPowerup <==> s@ == "spawn_powerup"@,
{
    proof {
        reveal_strlit("spawn_asteroid");
        reveal_strlit("spawn_projectile");
        reveal_strlit("spawn_powerup");
    }
    let lit_a = "spawn_asteroid".to_string();
    let lit_j = "spawn_projectile".to_string();
    let lit_p = "spawn_powerup".to_string();
    proof {
        vstd::string::to_string_from_display_ensures_for_str("spawn_asteroid", lit_a);
        vstd::string::to_string_from_display_ensures_for_str("spawn_projectile", lit_j);
        vstd::string::to_string_from_display_ensures_for_str("spawn_powerup", lit_p);
        assert(lit_a@ == "spawn_asteroid"@);
        assert(lit_j@ == "spawn_projectile"@);
        assert(lit_p@ == "spawn_powerup"@);
        assert("spawn_asteroid"@.len() == 14);
        assert("spawn_projectile"@.len() == 16);
        assert("spawn_powerup"@.len() == 13);
    }
    if *s == lit_a {
        DeveloperCommand::SpawnAsteroid
    } else if *s == lit_j {
        DeveloperCommand::SpawnProjectile
    } else if *s == lit_p {
        DeveloperCommand::SpawnPowerup
    } else {
        DeveloperCommand::Unknown
    }
}

/// The spawn request one recognized developer command resolves to: an
/// asteroid tossed somewhere inside the field with a small random drift, a
/// projectile rising from the cursor, or a power-up drifting down from a
/// random spot high in the field.
pub open spec fn command_request_matches(
    cmd: DeveloperCommand,
    se: SpawnEntityEvent,
    cursor: Position,
    b: GameBounds,
) -> bool {
    match cmd {
        DeveloperCommand::SpawnAsteroid => exists|tx: int, ty: int, vx: int, vy: int|
            {
                &&& b.point.x - b.dim_x / 2 <= tx < b.point.x + b.dim_x / 2
                &&& b.point.y - b.dim_y / 2 <= ty < b.point.y + b.dim_y / 2
                &&& -10 <= vx < 10 && -10 <= vy < 10
                &&& se == #[trigger] dev_asteroid_request(tx, ty, vx, vy)
            },
        DeveloperCommand::SpawnProjectile => se == (SpawnEntityEvent {
            spawn_type: SpawnType::Projectile,
            location: cursor,
            velocity: Some(Velocity { x: 0, y: 80 }),
            origin: None,
        }),
        DeveloperCommand::SpawnPowerup => exists|tx: int|
            {
                &&& b.point.x - b.dim_x / 2 <= tx < b.point.x + b.dim_x / 2
                &&& se == #[trigger] dev_powerup_request(b, tx)
            },
        DeveloperCommand::Unknown => false,
    }
}

/// The asteroid request a developer command resolves to from the drawn
/// position and drift.
pub open spec fn dev_asteroid_request(tx: int, ty: int, vx: int, vy: int) -> SpawnEntityEvent {
    SpawnEntityEvent {
        spawn_type: SpawnType::Asteroid,
        location: Position { x: tx as i64, y: ty as i64 },
        velocity: Some(Velocity { x: vx as i64, y: vy as i64 }),
        origin: None,
    }
}

/// The power-up request a developer command resolves to from the drawn
/// horizontal position: high in the field, drifting down.
pub open spec fn dev_powerup_request(b: GameBounds, tx: int) -> SpawnEntityEvent {
    SpawnEntityEvent {
        spawn_type: SpawnType::Powerup,
        location: Position { x: tx as i64, y: (b.point.y + b.dim_y * 4 / 5) as i64 },
        velocity: Some(Velocity { x: 0, y: -40i64 }),
        origin: None,
    }
}

/// Resolves one developer command into a spawn request; an unrecognized
/// command resolves to nothing and is otherwise ignored.
pub fn execute_developer_command(
    cmd: DeveloperCommand,
    cursor: Position,
    bounds: &GameBounds,
) -> (r: Option<SpawnEntityEvent>)
    requires
        bounds.wf(),
    ensures
        r is Some <==> !(cmd is Unknown),
        r matches Some(se) ==> command_request_matches(cmd, se, cursor, *bounds),
{
    match cmd {
        DeveloperCommand::SpawnAsteroid => {
            let vx = random_in_range(-10, 10);
            let vy = random_in_range(-10, 10);
            let tx = random_in_range(
                bounds.point.x - bounds.dim_x / 2,
                bounds.point.x + bounds.dim_x / 2,
            );
            let ty = random_in_range(
                bounds.point.y - bounds.dim_y / 2,
                bounds.point.y + bounds.dim_y / 2,
            );
            let se = SpawnEntityEvent {
                spawn_type: SpawnType::Asteroid,
                location: Position { x: tx, y: ty },
                velocity: Some(Velocity { x: vx, y: vy }),
                origin: None,
            };
            proof {
                assert(se == dev_asteroid_request(tx as int, ty as int, vx as int, vy as int));
            }
            Some(se)
        },
        DeveloperCommand::SpawnProjectile => Some(
            SpawnEntityEvent {
                spawn_type: SpawnType::Projectile,
                location: cursor,
                velocity: Some(Velocity { x: 0, y: 80 }),
                origin: None,
            },
        ),
        DeveloperCommand::SpawnPowerup => {
            let tx = random_in_range(
                bounds.point.x - bounds.dim_x / 2,
                bounds.point.x + bounds.dim_x / 2,
            );
            let ty = bounds.point.y + bounds.dim_y * 4 / 5;
            let se = SpawnEntityEvent {
                spawn_type: SpawnType::Powerup,
                location: Position { x: tx, y: ty },
                velocity: Some(Velocity { x: 0, y: -40 }),
                origin: None,
            };
            proof {
                assert(se == dev_powerup_request(*bounds, tx as int));
            }
            Some(se)
        },
        DeveloperCommand::Unknown => None,
    }
}

/// How many of the commands are unrecognized.
pub open spec fn count_unknown(evs: Seq<DeveloperCommandEvent>, n: int) -> int
    decreases n,
{
    if n <= 0 {
        0
    } else {
        count_unknown(evs, n - 1) + if evs[n - 1].command is Unknown {
            1int
        } else {
            0int
        }
    }
}

/// Resolves the tick's developer commands into spawn requests, in order,
/// and reports how many commands were unrecognized and ignored.
pub fn developer_executive_system(
    events: &Vec<DeveloperCommandEvent>,
    cursor: Position,
    bounds: &GameBounds,
) -> (out: (Vec<SpawnEntityEvent>, usize))
    requires
        bounds.wf(),
    ensures
        out.1 == count_unknown(events@, events@.len() as int),
        out.0@.len() + out.1 == events@.len(),
        forall|k: int|
            0 <= k < out.0@.len() ==> exists|j: int|
                0 <= j < events@.len() && command_request_matches(
                    events@[j].command,
                    #[trigger] out.0@[k],
                    cursor,
                    *bounds,
                ),
{
    let mut out: Vec<SpawnEntityEvent> = Vec::new();
    let mut unknown: usize = 0;
    let m = events.len();
    let mut k: usize = 0;
    while k < m
        invariant
            bounds.wf(),
            k <= m == events@.len(),
            unknown == count_unknown(events@, k as int),
            out@.len() + unknown == k,
            forall|j2: int|
                0 <= j2 < out@.len() ==> exists|j: int|
                    0 <= j < events@.len() && command_request_matches(
                        events@[j].command,
                        #[trigger] out@[j2],
                        cursor,
                        *bounds,
                    ),
        decreases m - k,
    {
        let ghost out_pre = out@;
        let ev = events[k];
        match execute_developer_command(ev.command, cursor, bounds) {
            Some(se) => {
                out.push(se);
                proof {
                    assert(command_request_matches(events@[k as int].command, se, cursor, *bounds));
                    assert forall|j2: int| 0 <= j2 < out@.len() implies exists|j: int|
                        0 <= j < events@.len() && command_request_matches(
                            events@[j].command,
                            #[trigger] out@[j2],
                            cursor,
                            *bounds,
                        ) by {
                        if j2 < out_pre.len() {
                            assert(out@[j2] == out_pre[j2]);
                            let j = choose|j: int|
                                0 <= j < events@.len() && command_request_matches(
                                    events@[j].command,
                                    #[trigger] out_pre[j2],
                                    cursor,
                                    *bounds,
                                );
                            assert(command_request_matches(
                                events@[j].command,
                                out@[j2],
                                cursor,
                                *bounds,
                            ));
                        } else {
                            assert(out@[j2] == se);
                        }
                    }
                }
            },
            None => {
                unknown = unknown + 1;
            },
        }
        k = k + 1;
    }
    (out, unknown)
}

} // verus!
