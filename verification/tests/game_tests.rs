use per_spatium::comp::{
    CanDie, ColliderBox, Damage, DamageOrigin, DeathEffectParticles, DiesOnHit, EffectKind,
    HealthStats, Position, Score, Velocity,
};
use per_spatium::entity::Entity;
use per_spatium::events::{CollisionEvent, Cursor, DeveloperCommand, SpawnEntityEvent, SpawnType};
use per_spatium::sched::Game;
use per_spatium::world::{Component, ComponentKind};

fn scenario_game() -> Game {
    let mut g = Game::new();
    // keep the ship itself out of the collision scenario
    g.world.detach(Entity { id: 0 }, ComponentKind::Collider);
    g
}

fn put_asteroid(g: &mut Game, hull: i64) -> Entity {
    let a = g.world.spawn_empty();
    g.world.attach(a, Component::Position(Position { x: 0, y: 0 }));
    g.world.attach(a, Component::Collider(ColliderBox { w: 80, h: 80 }));
    g.world.attach(a, Component::Health(HealthStats { hull, max_hull: hull }));
    g.world.attach(a, Component::CanDie(CanDie { is_dead: false }));
    g.world.attach(a, Component::Damage(Damage { hull: 5 }));
    g.world.attach(a, Component::Score(Score { score: 100 }));
    a
}

fn put_projectile(g: &mut Game, dmg: i64, origin: Entity) -> Entity {
    let p = g.world.spawn_empty();
    g.world.attach(p, Component::Position(Position { x: 0, y: 0 }));
    g.world.attach(p, Component::Collider(ColliderBox { w: 35, h: 35 }));
    g.world.attach(p, Component::Damage(Damage { hull: dmg }));
    g.world.attach(p, Component::DamageOrigin(DamageOrigin { entity: origin }));
    g.world.attach(p, Component::DiesOnHit(DiesOnHit { hits_to_die: 1 }));
    p
}

#[test]
fn projectile_scrapes_the_asteroid_and_both_survive() {
    let mut g = scenario_game();
    let origin = Entity { id: 0 };
    let a = put_asteroid(&mut g, 100);
    let p = put_projectile(&mut g, 50, origin);
    let mut col_cur = Cursor::new();
    let mut dmg_cur = Cursor::new();
    let mut kill_cur = Cursor::new();

    g.run_tick(16);
    // the tick of contact: exactly one collision event, damage still pending
    let cols = g.collisions.drain(&mut col_cur);
    assert_eq!(cols.len(), 1);
    assert_eq!(cols[0], CollisionEvent::new(a, p));
    assert!(g.damage_events.drain(&mut dmg_cur).is_empty());
    assert_eq!(g.world.rec(a).health.unwrap().hull, 100);

    g.run_tick(16);
    // pre-update resolved the contact: one damage event, no kill
    let dmg = g.damage_events.drain(&mut dmg_cur);
    assert_eq!(dmg.len(), 1);
    assert_eq!(dmg[0].src, p);
    assert_eq!(dmg[0].targ, a);
    assert!(g.kill_events.drain(&mut kill_cur).is_empty());
    assert_eq!(g.world.rec(a).health.unwrap().hull, 50);
    assert!(!g.world.rec(a).can_die.unwrap().is_dead);
    // the projectile died of its own hit and was retired
    assert!(g.world.rec(p).damage.is_none());
    assert!(g.world.rec(p).collider.is_none());

    g.run_tick(16);
    // the retired projectile deals no further damage
    assert!(g.damage_events.drain(&mut dmg_cur).is_empty());
    assert_eq!(g.world.rec(a).health.unwrap().hull, 50);
}

#[test]
fn lethal_projectile_kills_scores_and_retirement_silences_the_wreck() {
    let mut g = scenario_game();
    let player = Entity { id: 0 };
    let a = put_asteroid(&mut g, 100);
    let p = put_projectile(&mut g, 120, player);
    let mut col_cur = Cursor::new();
    let mut dmg_cur = Cursor::new();
    let mut kill_cur = Cursor::new();

    g.run_tick(16);
    assert_eq!(g.collisions.drain(&mut col_cur).len(), 1);

    g.run_tick(16);
    let dmg = g.damage_events.drain(&mut dmg_cur);
    assert_eq!(dmg.len(), 1);
    let kills = g.kill_events.drain(&mut kill_cur);
    assert_eq!(kills.len(), 1);
    assert_eq!(kills[0].src, player);
    assert_eq!(kills[0].targ, a);
    // the kill was scored and the wreck retired to the graveyard
    assert_eq!(g.world.rec(player).player.unwrap().score, 100);
    let ra = g.world.rec(a);
    assert!(ra.health.is_none());
    assert!(ra.collider.is_none());
    assert!(ra.can_die.is_none());
    assert_eq!(ra.position.unwrap(), Position { x: 50_000_000, y: 50_000_000 });

    // a fresh projectile over the old spot finds nothing to hit
    let _p2 = put_projectile(&mut g, 50, player);
    g.run_tick(16);
    g.run_tick(16);
    assert!(g.collisions.drain(&mut col_cur).is_empty());
    assert!(g.damage_events.drain(&mut dmg_cur).is_empty());
    assert!(g.kill_events.drain(&mut kill_cur).is_empty());
    assert_eq!(g.world.rec(player).player.unwrap().score, 100);
}

#[test]
fn off_bounds_cleanup_disposes_exactly_once() {
    let mut g = Game::new();
    let drifter = g.world.spawn_empty();
    g.world.attach(drifter, Component::Position(Position { x: 0, y: -1_200_000 }));
    g.world.attach(drifter, Component::AutoCleaned);
    let mut disp_cur = Cursor::new();

    g.run_tick(16);
    let disposed = g.dispose_events.drain(&mut disp_cur);
    assert_eq!(disposed.len(), 1);
    assert_eq!(disposed[0].0, drifter);
    assert!(!g.world.rec(drifter).auto_cleaned);

    g.run_tick(16);
    g.run_tick(16);
    assert!(g.dispose_events.drain(&mut disp_cur).is_empty());
}

#[test]
fn reloaded_weapons_fire_once_and_drain_energy() {
    let mut g = Game::new();
    g.run_tick(500);
    assert!(g.world.rec(Entity { id: 1 }).weapon.unwrap().reload.finished);
    g.apply_input(0, 0, true);
    g.run_tick(16);
    // both guns fired one projectile each, and one regeneration cycle paid back
    assert_eq!(g.world.num_entities(), 6);
    assert_eq!(g.world.rec(Entity { id: 0 }).energy.unwrap().energy, 291);
    let shot = g.world.rec(Entity { id: 4 });
    assert_eq!(shot.damage.unwrap().hull, 50);
    assert_eq!(shot.velocity.unwrap(), Velocity { x: 0, y: 320 });
    assert_eq!(shot.damage_origin.unwrap().entity.id, 0);
    assert_eq!(shot.dies_on_hit.unwrap().hits_to_die, 1);
    // the reload restarted: asking again right away fires nothing
    g.apply_input(0, 0, true);
    g.run_tick(16);
    assert_eq!(g.world.num_entities(), 6);
    assert_eq!(g.world.rec(Entity { id: 0 }).energy.unwrap().energy, 291);
}

#[test]
fn requested_asteroid_appears_with_the_stock_bundle() {
    let mut g = Game::new();
    g.request_spawn(
        SpawnEntityEvent {
            spawn_type: SpawnType::Asteroid,
            location: Position { x: 10_000, y: 250_000 },
            velocity: Some(Velocity { x: 0, y: -5 }),
            origin: None,
        },
    );
    g.run_tick(16);
    assert_eq!(g.world.num_entities(), 5);
    let r = g.world.rec(Entity { id: 4 });
    assert_eq!(r.position.unwrap(), Position { x: 10_000, y: 250_000 });
    assert_eq!(r.velocity.unwrap(), Velocity { x: 0, y: -5 });
    assert_eq!(r.health.unwrap(), HealthStats { hull: 100, max_hull: 100 });
    assert_eq!(r.collider.unwrap(), ColliderBox { w: 80, h: 80 });
    assert!(r.auto_cleaned);
    assert_eq!(r.score.unwrap().score, 100);
}

#[test]
fn developer_projectile_command_spawns_at_the_pointer() {
    let mut g = Game::new();
    g.set_cursor_position(Position { x: 100_000, y: 200_000 });
    g.send_developer_command(DeveloperCommand::SpawnProjectile);
    g.run_tick(16);
    assert_eq!(g.world.num_entities(), 5);
    let r = g.world.rec(Entity { id: 4 });
    // spawns flush after the movement step, so the first look finds it unmoved
    assert_eq!(r.position.unwrap(), Position { x: 100_000, y: 200_000 });
    assert_eq!(r.velocity.unwrap(), Velocity { x: 0, y: 80 });
    assert_eq!(r.damage_origin.unwrap().entity.id, 3);
}

#[test]
fn unknown_developer_command_is_reported_and_ignored() {
    let mut g = Game::new();
    g.send_developer_command(DeveloperCommand::Unknown);
    let unknown = g.run_tick(16);
    assert_eq!(unknown, 1);
    assert_eq!(g.world.num_entities(), 4);
    assert_eq!(g.run_tick(16), 0);
}

#[test]
fn a_dying_decorated_entity_scatters_five_particles() {
    let mut g = Game::new();
    let e = g.world.spawn_empty();
    g.world.attach(e, Component::Position(Position { x: 3_000, y: 4_000 }));
    g.world.attach(e, Component::CanDie(CanDie { is_dead: true }));
    g.world.attach(
        e,
        Component::DeathEffect(DeathEffectParticles { effect: EffectKind::Asteroid }),
    );
    g.run_tick(16);
    assert_eq!(g.world.num_entities(), 10);
    for id in 5..10u64 {
        let r = g.world.rec(Entity { id });
        assert_eq!(r.dissipates.unwrap().timer.duration_ms, 1500);
        assert!(r.auto_cleaned);
        let v = r.velocity.unwrap();
        assert!(v.x >= -40 && v.x < 40);
        assert!(v.y >= -40 && v.y < 40);
    }
}

#[test]
fn a_dead_player_ends_the_game_for_good() {
    let mut g = Game::new();
    {
        let r = g.world.rec_at_mut(0);
        r.can_die = Some(CanDie { is_dead: true });
    }
    assert!(!g.director.game_over);
    g.run_tick(16);
    assert!(g.director.game_over);
    g.run_tick(16);
    g.run_tick(16);
    assert!(g.director.game_over);
}

#[test]
fn hull_and_energy_stay_inside_their_bounds_through_play() {
    let mut g = Game::new();
    let origin = Entity { id: 0 };
    for i in 0..6 {
        let a = g.world.spawn_empty();
        g.world.attach(a, Component::Position(Position { x: i * 20_000, y: 0 }));
        g.world.attach(a, Component::Collider(ColliderBox { w: 80, h: 80 }));
        g.world.attach(a, Component::Health(HealthStats { hull: 40, max_hull: 60 }));
        g.world.attach(a, Component::CanDie(CanDie { is_dead: false }));
        g.world.attach(a, Component::Damage(Damage { hull: 25 }));
        let _ = origin;
    }
    for _ in 0..10 {
        assert!(g.within_capacity());
        g.run_tick(16);
        for id in 0..g.world.num_entities() {
            let r = g.world.rec(Entity { id: id as u64 });
            if let Some(h) = r.health {
                assert!(0 <= h.hull && h.hull <= h.max_hull);
            }
            if let Some(e) = r.energy {
                assert!(0 <= e.energy && e.energy <= e.max_energy);
            }
        }
    }
}

#[test]
fn the_arena_never_shrinks_and_identifiers_are_never_reused() {
    let mut g = Game::new();
    let a = put_asteroid(&mut g, 10);
    let p = put_projectile(&mut g, 50, Entity { id: 0 });
    let before = g.world.num_entities();
    for _ in 0..5 {
        g.run_tick(16);
    }
    // the asteroid and projectile died and were retired, not destroyed
    assert!(g.world.num_entities() >= before);
    assert!(g.world.rec(a).health.is_none());
    assert!(g.world.rec(p).damage.is_none());
    let fresh = g.world.spawn_empty();
    assert!(fresh.id >= before as u64);
}

#[test]
fn a_dispatched_projectile_dissipates_after_two_seconds() {
    let mut g = Game::new();
    g.world.detach(Entity { id: 0 }, ComponentKind::Collider);
    g.request_spawn(
        SpawnEntityEvent {
            spawn_type: SpawnType::Projectile,
            location: Position { x: 200_000, y: 0 },
            velocity: Some(Velocity { x: 0, y: 0 }),
            origin: None,
        },
    );
    g.run_tick(16);
    let p = Entity { id: 4 };
    assert_eq!(g.world.rec(p).dissipates.unwrap().timer.duration_ms, 2000);
    // two full seconds tick the countdown out; the next tick retires it
    g.run_tick(1000);
    g.run_tick(1000);
    assert!(g.world.rec(p).dissipates.is_some());
    g.run_tick(16);
    assert!(g.world.rec(p).dissipates.is_none());
    assert!(g.world.rec(p).damage.is_none());
    assert_eq!(g.world.rec(p).position.unwrap(), Position { x: 50_000_000, y: 50_000_000 });
}

#[test]
fn the_ship_collects_a_powerup_and_gains_one_standard_effect() {
    let mut g = Game::new();
    g.request_spawn(
        SpawnEntityEvent {
            spawn_type: SpawnType::Powerup,
            location: Position { x: 0, y: 0 },
            velocity: Some(Velocity { x: 0, y: 0 }),
            origin: None,
        },
    );
    g.run_tick(16);
    let pu = Entity { id: 4 };
    assert!(g.world.rec(pu).collectible.is_some());
    g.run_tick(16);
    // picked up, applied, and retired within the tick of contact
    assert!(g.world.rec(pu).collectible.is_none());
    let ship = g.world.rec(Entity { id: 0 });
    let speed = ship.movement_speed.unwrap();
    let energy = ship.energy.unwrap();
    let health = ship.health.unwrap();
    let speed_effect = speed.accel == 14 && speed.max == 440;
    let energy_effect = energy.max_energy == 320;
    let health_effect = speed.accel == 12 && speed.max == 400 && energy.max_energy == 300
        && health.hull == 500 && health.max_hull == 500;
    assert!(speed_effect || energy_effect || health_effect);
}
