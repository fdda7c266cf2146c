//! The stage scheduler: the whole simulation state and the fixed tick that
//! drives it.
//!
//! Each tick runs three ordered phases — pre-update, update, post-update —
//! with systems in registration order inside each phase and a structural
//! flush at every phase boundary. Contact-damage resolution deliberately
//! runs in pre-update, one phase ahead of collision detection, so a freshly
//! spawned projectile is never queried in the phase that created it. Data
//! flows only through the component store and the event channels.

use vstd::prelude::*;
use crate::actor::{process_commands_system, regen_energy_system, weapon_reload_system, weapon_shoot_system};
use crate::combat::contact_damage_system;
use crate::comp::{
    CanDie, ColliderBox, Controller, Damage, DamageOrigin, Drag, EnergyRegen, EnergyStats,
    HealthStats, MovementSpeed, Player, Position, Timer, Velocity, Weapon, WeaponKind, TICK_LIMIT,
};
use crate::director::{
    check_game_over_system, developer_executive_system, gameplay_spawn_system,
    keep_player_in_bounds_system, GameBounds, GameplaySpawnState,
};
use crate::entity::Entity;
use crate::events::{
    Channel, CollisionEvent, Cursor, DamageEvent, DeveloperCommand, DeveloperCommandEvent,
    DisposeEntityEvent, EntityCommandEvent, KillEvent, PickupEvent, SpawnEntityEvent,
};
use crate::lifecycle::{
    charon_system, collectible_cleanup_system, dead_cleanup_system, off_bounds_cleanup_system,
    on_hit_die_system, timed_dissipation_system, GraveyardState,
};
use crate::physics::{check_collision_system, drag_system, process_velocity_system};
use crate::pickup::{
    apply_energy_powerup_system, apply_health_powerup_system, apply_speed_powerup_system,
    detect_pickup_system,
};
use crate::spawn::{
    death_effect_particles_system, flush_spawns, generic_spawn_entity_system,
    lemma_count_death_effects_bound, CommandBuffer,
};
use crate::world::{EntityRec, World};

verus! {

/// Most entities the arena may hold before a tick is refused.
pub const WORLD_CAP: u64 = 0x1000;

/// Most buffered spawns a tick may start with.
pub const BUF_CAP: u64 = 0x1000;

/// Most events a channel may have carried before a tick is refused.
pub const CHANNEL_TOTAL_CAP: u64 = 0x1000_0000;

/// Most events a channel may retain before a tick is refused.
pub const CHANNEL_RETAINED_CAP: u64 = 0x100_0000;

/// The whole simulation: the component store, the play field, the director,
/// the disposal pipeline, the deferred spawn buffer, the event channels and
/// each consumer's read cursor.
pub struct Game {
    pub world: World,
    pub bounds: GameBounds,
    pub director: GameplaySpawnState,
    pub graveyard: GraveyardState,
    pub spawn_buf: CommandBuffer,
    pub representative: Entity,
    pub cursor_pos: Position,
    pub collisions: Channel<CollisionEvent>,
    pub damage_events: Channel<DamageEvent>,
    pub kill_events: Channel<KillEvent>,
    pub pickup_events: Channel<PickupEvent>,
    pub dispose_events: Channel<DisposeEntityEvent>,
    pub spawn_requests: Channel<SpawnEntityEvent>,
    pub entity_commands: Channel<EntityCommandEvent>,
    pub developer_commands: Channel<DeveloperCommandEvent>,
    pub contact_damage_cursor: Cursor,
    pub contact_pickup_cursor: Cursor,
    pub on_hit_cursor: Cursor,
    pub on_kill_cursor: Cursor,
    pub charon_cursor: Cursor,
    pub spawn_cursor: Cursor,
    pub shoot_cursor: Cursor,
    pub developer_cursor: Cursor,
    pub speed_powerup_cursor: Cursor,
    pub health_powerup_cursor: Cursor,
    pub energy_powerup_cursor: Cursor,
}

impl Game {
    /// Everything a tick relies on: a well-formed store, field, director,
    /// graveyard and spawn buffer, well-formed channels, and no cursor past
    /// its channel's end.
    pub open spec fn wf(self) -> bool {
        &&& self.world.wf()
        &&& self.bounds.wf()
        &&& self.director.wf()
        &&& self.graveyard.location.wf()
        &&& self.spawn_buf.wf()
        &&& self.collisions.wf()
        &&& self.damage_events.wf()
        &&& self.kill_events.wf()
        &&& self.pickup_events.wf()
        &&& self.dispose_events.wf()
        &&& self.spawn_requests.wf()
        &&& self.entity_commands.wf()
        &&& self.developer_commands.wf()
        &&& self.contact_damage_cursor.at <= self.collisions.total()
        &&& self.contact_pickup_cursor.at <= self.collisions.total()
        &&& self.on_hit_cursor.at <= self.damage_events.total()
        &&& self.on_kill_cursor.at <= self.kill_events.total()
        &&& self.charon_cursor.at <= self.dispose_events.total()
        &&& self.spawn_cursor.at <= self.spawn_requests.total()
        &&& self.shoot_cursor.at <= self.entity_commands.total()
        &&& self.developer_cursor.at <= self.developer_commands.total()
        &&& self.speed_powerup_cursor.at <= self.pickup_events.total()
        &&& self.health_powerup_cursor.at <= self.pickup_events.total()
        &&& self.energy_powerup_cursor.at <= self.pickup_events.total()
    }

    /// The machine limits a tick fits in. The arena only grows — retirement
    /// never frees a slot, by design — so a long enough run exhausts this
    /// and the driver must stop.
    pub open spec fn capacity_ok(self) -> bool {
        &&& self.world@.len() <= WORLD_CAP
        &&& self.spawn_buf@.len() <= BUF_CAP
        &&& self.collisions.total() <= CHANNEL_TOTAL_CAP
        &&& self.damage_events.total() <= CHANNEL_TOTAL_CAP
        &&& self.kill_events.total() <= CHANNEL_TOTAL_CAP
        &&& self.pickup_events.total() <= CHANNEL_TOTAL_CAP
        &&& self.dispose_events.total() <= CHANNEL_TOTAL_CAP
        &&& self.spawn_requests.total() <= CHANNEL_TOTAL_CAP
        &&& self.entity_commands.total() <= CHANNEL_TOTAL_CAP
        &&& self.developer_commands.total() <= CHANNEL_TOTAL_CAP
        &&& self.collisions.events().len() <= CHANNEL_RETAINED_CAP
        &&& self.damage_events.events().len() <= CHANNEL_RETAINED_CAP
        &&& self.kill_events.events().len() <= CHANNEL_RETAINED_CAP
        &&& self.pickup_events.events().len() <= CHANNEL_RETAINED_CAP
        &&& self.dispose_events.events().len() <= CHANNEL_RETAINED_CAP
        &&& self.spawn_requests.events().len() <= CHANNEL_RETAINED_CAP
        &&& self.entity_commands.events().len() <= CHANNEL_RETAINED_CAP
        &&& self.developer_commands.events().len() <= CHANNEL_RETAINED_CAP
    }

    /// Tests [`Game::capacity_ok`] at runtime, so an unverified driver can
    /// refuse a tick that would run out of room.
    pub fn within_capacity(&self) -> (b: bool)
        requires
            self.wf(),
        ensures
            b == self.capacity_ok(),
    {
        self.world.num_entities() as u64 <= WORLD_CAP && self.spawn_buf.len() as u64 <= BUF_CAP
            && self.collisions.total_count() as u64 <= CHANNEL_TOTAL_CAP
            && self.damage_events.total_count() as u64 <= CHANNEL_TOTAL_CAP
            && self.kill_events.total_count() as u64 <= CHANNEL_TOTAL_CAP
            && self.pickup_events.total_count() as u64 <= CHANNEL_TOTAL_CAP
            && self.dispose_events.total_count() as u64 <= CHANNEL_TOTAL_CAP
            && self.spawn_requests.total_count() as u64 <= CHANNEL_TOTAL_CAP
            && self.entity_commands.total_count() as u64 <= CHANNEL_TOTAL_CAP
            && self.developer_commands.total_count() as u64 <= CHANNEL_TOTAL_CAP
            && self.collisions.retained_count() as u64 <= CHANNEL_RETAINED_CAP
            && self.damage_events.retained_count() as u64 <= CHANNEL_RETAINED_CAP
            && self.kill_events.retained_count() as u64 <= CHANNEL_RETAINED_CAP
            && self.pickup_events.retained_count() as u64 <= CHANNEL_RETAINED_CAP
            && self.dispose_events.retained_count() as u64 <= CHANNEL_RETAINED_CAP
            && self.spawn_requests.retained_count() as u64 <= CHANNEL_RETAINED_CAP
            && self.entity_commands.retained_count() as u64 <= CHANNEL_RETAINED_CAP
            && self.developer_commands.retained_count() as u64 <= CHANNEL_RETAINED_CAP
    }

    /// The player's starting record: a drag-slowed, collidable, collecting
    /// ship with full hull and energy, steady regeneration, crash damage
    /// owned by itself, and a controller.
    pub open spec fn player_rec_spec() -> EntityRec {
        EntityRec {
            position: Some(Position { x: 0, y: 0 }),
            velocity: Some(Velocity { x: 0, y: 0 }),
            drag: Some(Drag(450)),
            collider: Some(ColliderBox { w: 60, h: 100 }),
            player: Some(Player { score: 0 }),
            controller: Some(Controller { movement_x: 0, movement_y: 0, queued_actions: 0 }),
            collector: true,
            movement_speed: Some(MovementSpeed { accel: 12, max: 400 }),
            health: Some(HealthStats { hull: 500, max_hull: 500 }),
            energy: Some(EnergyStats { energy: 300, max_energy: 300 }),
            energy_regen: Some(
                EnergyRegen {
                    energy: 1,
                    cycle: Timer { duration_ms: 170, elapsed_ms: 0, finished: false },
                },
            ),
            damage: Some(Damage { hull: 8 }),
            can_die: Some(CanDie { is_dead: false }),
            damage_origin: Some(DamageOrigin { entity: Entity { id: 0 } }),
            ..EntityRec::empty_spec()
        }
    }

    /// A starting weapon's record: a reloading nova blast controlled by the
    /// player, offset from the ship.
    pub open spec fn weapon_rec_spec(x: i64, y: i64) -> EntityRec {
        EntityRec {
            position: Some(Position { x: x, y: y }),
            weapon: Some(
                Weapon {
                    kind: WeaponKind::NovaBlast,
                    reload: Timer { duration_ms: 500, elapsed_ms: 0, finished: false },
                    energy_drain: 5,
                },
            ),
            controlled: Some(crate::comp::Controlled { by: Entity { id: 0 } }),
            ..EntityRec::empty_spec()
        }
    }

    /// Builds the starting world: the player at the origin with two weapons,
    /// and the spawner singleton that stands as the default damage origin
    /// for dispatched projectiles.
    pub fn new() -> (g: Game)
        ensures
            g.wf(),
            g.capacity_ok(),
            g.world@.len() == 4,
            g.world@[0] == Game::player_rec_spec(),
            g.world@[1] == Game::weapon_rec_spec(-20_000i64, 20_000),
            g.world@[2] == Game::weapon_rec_spec(20_000, 20_000),
            g.world@[3] == EntityRec::empty_spec(),
            g.representative.id == 3,
            g.director == (GameplaySpawnState {
                asteroid_timer: Timer { duration_ms: 1700, elapsed_ms: 0, finished: false },
                powerup_timer: Timer { duration_ms: 11000, elapsed_ms: 0, finished: false },
                game_time_ms: 0,
                game_over: false,
            }),
            g.graveyard.population == 0,
            g.bounds == (GameBounds {
                point: Position { x: 0, y: 0 },
                dim_x: 720_000,
                dim_y: 680_000,
            }),
            g.collisions.total() == 0,
            g.damage_events.total() == 0,
            g.kill_events.total() == 0,
            g.pickup_events.total() == 0,
            g.dispose_events.total() == 0,
            g.spawn_requests.total() == 0,
            g.entity_commands.total() == 0,
            g.developer_commands.total() == 0,
    {
        let mut world = World::new();
        let player = world.spawn_empty();
        let pr = world.rec_at_mut(0);
        pr.position = Some(Position { x: 0, y: 0 });
        pr.velocity = Some(Velocity { x: 0, y: 0 });
        pr.drag = Some(Drag(450));
        pr.collider = Some(ColliderBox { w: 60, h: 100 });
        pr.player = Some(Player { score: 0 });
        pr.controller = Some(Controller::new());
        pr.collector = true;
        pr.movement_speed = Some(MovementSpeed { accel: 12, max: 400 });
        pr.health = Some(HealthStats { hull: 500, max_hull: 500 });
        pr.energy = Some(EnergyStats { energy: 300, max_energy: 300 });
        pr.energy_regen = Some(EnergyRegen { energy: 1, cycle: Timer::from_ms(170) });
        pr.damage = Some(Damage { hull: 8 });
        pr.can_die = Some(CanDie { is_dead: false });
        pr.damage_origin = Some(DamageOrigin { entity: player });
        let _w1 = world.spawn_empty();
        let r1 = world.rec_at_mut(1);
        r1.position = Some(Position { x: -20_000, y: 20_000 });
        r1.weapon = Some(
            Weapon { kind: WeaponKind::NovaBlast, reload: Timer::from_ms(500), energy_drain: 5 },
        );
        r1.controlled = Some(crate::comp::Controlled { by: player });
        let _w2 = world.spawn_empty();
        let r2 = world.rec_at_mut(2);
        r2.position = Some(Position { x: 20_000, y: 20_000 });
        r2.weapon = Some(
            Weapon { kind: WeaponKind::NovaBlast, reload: Timer::from_ms(500), energy_drain: 5 },
        );
        r2.controlled = Some(crate::comp::Controlled { by: player });
        let representative = world.spawn_empty();
        Game {
            world,
            bounds: GameBounds::standard(),
            director: GameplaySpawnState::default(),
            graveyard: GraveyardState {
                location: Position { x: 50_000_000, y: 50_000_000 },
                population: 0,
            },
            spawn_buf: CommandBuffer::new(),
            representative,
            cursor_pos: Position { x: 0, y: 0 },
            collisions: Channel::new(),
            damage_events: Channel::new(),
            kill_events: Channel::new(),
            pickup_events: Channel::new(),
            dispose_events: Channel::new(),
            spawn_requests: Channel::new(),
            entity_commands: Channel::new(),
            developer_commands: Channel::new(),
            contact_damage_cursor: Cursor::new(),
            contact_pickup_cursor: Cursor::new(),
            on_hit_cursor: Cursor::new(),
            on_kill_cursor: Cursor::new(),
            charon_cursor: Cursor::new(),
            spawn_cursor: Cursor::new(),
            shoot_cursor: Cursor::new(),
            developer_cursor: Cursor::new(),
            speed_powerup_cursor: Cursor::new(),
            health_powerup_cursor: Cursor::new(),
            energy_powerup_cursor: Cursor::new(),
        }
    }

    /// Writes the tick's input onto the player's controller: the movement
    /// intent replaces the previous one, and a requested shot joins the
    /// action queue. An entity without a controller takes no input.
    pub fn apply_input(&mut self, movement_x: i64, movement_y: i64, shoot: bool)
        requires
            old(self).wf(),
        ensures
            final(self).wf(),
            final(self).world@.len() == old(self).world@.len(),
            ({
                let w0 = old(self).world@;
                if w0.len() > 0 && w0[0].controller is Some {
                    let c0 = w0[0].controller.unwrap();
                    let queued = if shoot && c0.queued_actions < crate::comp::ACTION_LIMIT {
                        c0.queued_actions + 1
                    } else {
                        c0.queued_actions as int
                    };
                    final(self).world@ =~= w0.update(
                        0,
                        EntityRec {
                            controller: Some(
                                Controller {
                                    movement_x,
                                    movement_y,
                                    queued_actions: queued as u64,
                                },
                            ),
                            ..w0[0]
                        },
                    )
                } else {
                    final(self).world@ =~= old(self).world@
                }
            }),
            *final(self) == (Game { world: final(self).world, ..*old(self) }),
    {
        let n = self.world.num_entities();
        if n == 0 {
            return ;
        }
        let r = self.world.rec_at(0);
        if let Some(c) = &r.controller {
            let mut c2 = Controller {
                movement_x,
                movement_y,
                queued_actions: c.queued_actions,
            };
            if shoot {
                c2.queue_action(crate::comp::ControllerAction::Shoot);
            }
            let rm = self.world.rec_at_mut(0);
            rm.controller = Some(c2);
            proof {
                assert forall|i: int| 0 <= i < self.world@.len() implies (#[trigger] self.world@[i]).wf() by {
                    assert(old(self).world@[i].wf());
                }
            }
        }
    }

    /// Notes where the pointing device last was, for developer spawns.
    pub fn set_cursor_position(&mut self, p: Position)
        requires
            old(self).wf(),
        ensures
            final(self).wf(),
            final(self).cursor_pos == p,
            *final(self) == (Game { cursor_pos: p, ..*old(self) }),
    {
        self.cursor_pos = p;
    }

    /// Publishes a spawn request into the current tick's buffer.
    pub fn request_spawn(&mut self, ev: SpawnEntityEvent)
        requires
            old(self).wf(),
            old(self).spawn_requests.total() < usize::MAX,
        ensures
            final(self).wf(),
            final(self).spawn_requests.events() =~= old(self).spawn_requests.events().push(ev),
            final(self).spawn_requests.base() == old(self).spawn_requests.base(),
            *final(self) == (Game { spawn_requests: final(self).spawn_requests, ..*old(self) }),
    {
        self.spawn_requests.publish(ev);
    }

    /// Publishes a developer command into the current tick's buffer.
    pub fn send_developer_command(&mut self, command: DeveloperCommand)
        requires
            old(self).wf(),
            old(self).developer_commands.total() < usize::MAX,
        ensures
            final(self).wf(),
            final(self).developer_commands.events() =~= old(self).developer_commands.events().push(
                DeveloperCommandEvent { command },
            ),
            final(self).developer_commands.base() == old(self).developer_commands.base(),
            *final(self) == (Game {
                developer_commands: final(self).developer_commands,
                ..*old(self)
            }),
    {
        self.developer_commands.publish(DeveloperCommandEvent { command });
    }

    /// Advances the whole simulation one fixed tick: pre-update resolves the
    /// previous tick's contacts into damage, update moves, collides, picks
    /// up, regenerates and directs spawning, post-update cleans up, scores
    /// kills, scatters death effects and retires disposed entities; spawns
    /// flush at every phase boundary. The arena never shrinks, the game-over
    /// latch never clears, and the retirement count never falls. Returns how
    /// many developer commands were unrecognized and ignored, for the driver
    /// to report.
    pub fn run_tick(&mut self, dt_ms: u32) -> (unknown_commands: usize)
        requires
            old(self).wf(),
            old(self).capacity_ok(),
            dt_ms <= TICK_LIMIT,
        ensures
            final(self).wf(),
            final(self).world@.len() >= old(self).world@.len(),
            old(self).director.game_over ==> final(self).director == old(self).director,
            old(self).director.game_over ==> final(self).director.game_over,
            final(self).graveyard.population >= old(self).graveyard.population,
            final(self).graveyard.location == old(self).graveyard.location,
            final(self).bounds == old(self).bounds,
            final(self).representative == old(self).representative,
            final(self).cursor_pos == old(self).cursor_pos,
            !old(self).director.game_over ==> {
                let d = old(self).director;
                &&& final(self).director.game_time_ms == if d.game_time_ms + dt_ms <= u64::MAX {
                    d.game_time_ms + dt_ms
                } else {
                    u64::MAX as int
                }
                &&& final(self).director.asteroid_timer == if d.asteroid_timer.finished {
                    Timer {
                        duration_ms: d.asteroid_timer.duration_ms,
                        elapsed_ms: 0,
                        finished: false,
                    }.ticked(dt_ms as int)
                } else {
                    d.asteroid_timer.ticked(dt_ms as int)
                }
                &&& final(self).director.powerup_timer == if d.powerup_timer.finished {
                    Timer {
                        duration_ms: d.powerup_timer.duration_ms,
                        elapsed_ms: 0,
                        finished: false,
                    }.ticked(dt_ms as int)
                } else {
                    d.powerup_timer.ticked(dt_ms as int)
                }
            },
    {
        // buffers retire: events older than the previous tick are dropped
        self.collisions.advance_tick();
        self.damage_events.advance_tick();
        self.kill_events.advance_tick();
        self.pickup_events.advance_tick();
        self.dispose_events.advance_tick();
        self.spawn_requests.advance_tick();
        self.entity_commands.advance_tick();
        self.developer_commands.advance_tick();

        // pre-update: contact damage resolves the previous tick's collisions
        let col_evs = self.collisions.drain(&mut self.contact_damage_cursor);
        let (dmg, kills) = contact_damage_system(&mut self.world, &col_evs);
        self.damage_events.publish_all(&dmg);
        self.kill_events.publish_all(&kills);
        flush_spawns(&mut self.world, &mut self.spawn_buf);

        // update
        let cmds = process_commands_system(&mut self.world);
        proof {
            assert(cmds@.len() <= 1024 * (WORLD_CAP + BUF_CAP)) by (nonlinear_arith)
                requires
                    cmds@.len() <= 1024 * self.world@.len(),
                    self.world@.len() <= WORLD_CAP + BUF_CAP,
            ;
        }
        self.entity_commands.publish_all(&cmds);
        let cmd_evs = self.entity_commands.drain(&mut self.shoot_cursor);
        proof {
            assert(self.entity_commands.events().len() <= CHANNEL_RETAINED_CAP + 1024 * (WORLD_CAP
                + BUF_CAP));
            assert(cmd_evs@.len() <= self.entity_commands.events().len());
        }
        weapon_shoot_system(&mut self.world, &mut self.spawn_buf, &cmd_evs);
        weapon_reload_system(&mut self.world, dt_ms);
        process_velocity_system(&mut self.world, dt_ms);
        drag_system(&mut self.world, dt_ms);
        proof {
            assert(self.world@.len() * self.world@.len() <= (WORLD_CAP + BUF_CAP) * (WORLD_CAP
                + BUF_CAP)) by (nonlinear_arith)
                requires
                    0 <= self.world@.len() <= WORLD_CAP + BUF_CAP,
            ;
        }
        check_collision_system(&self.world, &mut self.collisions);
        let col_evs2 = self.collisions.drain(&mut self.contact_pickup_cursor);
        proof {
            assert(self.collisions.events().len() <= CHANNEL_RETAINED_CAP + (WORLD_CAP + BUF_CAP)
                * (WORLD_CAP + BUF_CAP));
            assert(col_evs2@.len() <= self.collisions.events().len());
        }
        let picks = detect_pickup_system(&mut self.world, &col_evs2);
        self.pickup_events.publish_all(&picks);
        let disp1 = timed_dissipation_system(&mut self.world, dt_ms);
        self.dispose_events.publish_all(&disp1);
        let pe1 = self.pickup_events.drain(&mut self.speed_powerup_cursor);
        apply_speed_powerup_system(&mut self.world, &pe1);
        let pe2 = self.pickup_events.drain(&mut self.health_powerup_cursor);
        apply_health_powerup_system(&mut self.world, &pe2);
        let pe3 = self.pickup_events.drain(&mut self.energy_powerup_cursor);
        apply_energy_powerup_system(&mut self.world, &pe3);
        regen_energy_system(&mut self.world, dt_ms);
        let dev_evs = self.developer_commands.drain(&mut self.developer_cursor);
        let (reqs, unknown_commands) = developer_executive_system(
            &dev_evs,
            self.cursor_pos,
            &self.bounds,
        );
        self.spawn_requests.publish_all(&reqs);
        keep_player_in_bounds_system(&mut self.world, &self.bounds);
        let spawn_evs = self.spawn_requests.drain(&mut self.spawn_cursor);
        generic_spawn_entity_system(&mut self.spawn_buf, &spawn_evs, self.representative);
        let cutoff = self.bounds.cleanup_cutoff();
        let disp2 = off_bounds_cleanup_system(&self.world, cutoff);
        self.dispose_events.publish_all(&disp2);
        gameplay_spawn_system(&mut self.director, &self.bounds, &mut self.spawn_buf, dt_ms);
        check_game_over_system(&self.world, &mut self.director);
        flush_spawns(&mut self.world, &mut self.spawn_buf);

        // post-update
        let disp3 = collectible_cleanup_system(&self.world);
        self.dispose_events.publish_all(&disp3);
        let dmg_evs = self.damage_events.drain(&mut self.on_hit_cursor);
        let disp4 = on_hit_die_system(&self.world, &dmg_evs);
        self.dispose_events.publish_all(&disp4);
        let disp5 = dead_cleanup_system(&self.world);
        self.dispose_events.publish_all(&disp5);
        let kill_evs = self.kill_events.drain(&mut self.on_kill_cursor);
        crate::lifecycle::on_kill_score_system(&mut self.world, &kill_evs);
        proof {
            lemma_count_death_effects_bound(self.world@, self.world@.len() as int);
        }
        death_effect_particles_system(&self.world, &mut self.spawn_buf);
        let disp_evs = self.dispose_events.drain(&mut self.charon_cursor);
        charon_system(&mut self.world, &mut self.graveyard, &disp_evs);
        flush_spawns(&mut self.world, &mut self.spawn_buf);
        unknown_commands
    }
}

} // verus!
