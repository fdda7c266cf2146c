use per_spatium::comp::{HealthStats, Position, SpeedPowerUp, Velocity, MovementSpeed};
use per_spatium::entity::Entity;
use per_spatium::events::{SpawnEntityEvent, SpawnType};
use per_spatium::spawn::{
    flush_spawns, generic_spawn_entity_system, spawn_powerup, AsteroidDataComponents,
    CommandBuffer, PowerUpKind, PowerupDataComponents, ProjectileDataComponents, SpawnOp,
};
use per_spatium::world::World;

#[test]
fn stock_bundles_carry_the_documented_defaults() {
    let a = AsteroidDataComponents::stock();
    assert_eq!(a.collider.w, 80);
    assert_eq!(a.collider.h, 80);
    assert_eq!(a.health, HealthStats { hull: 100, max_hull: 100 });
    assert_eq!(a.damage.hull, 5);
    let p = ProjectileDataComponents::stock();
    assert_eq!(p.collider.w, 35);
    assert_eq!(p.damage.hull, 50);
    assert_eq!(p.dissipates.timer.duration_ms, 2000);
    let u = PowerupDataComponents::stock();
    assert_eq!(u.collider.w, 120);
    assert_eq!(u.collider.h, 20);
    assert_eq!(u.velocity, Velocity { x: 0, y: -40 });
}

#[test]
fn dispatched_asteroid_lays_the_request_over_the_stock_bundle() {
    let mut buf = CommandBuffer::new();
    let ev = SpawnEntityEvent {
        spawn_type: SpawnType::Asteroid,
        location: Position { x: 10_000, y: 20_000 },
        velocity: Some(Velocity { x: 1, y: -2 }),
        origin: None,
    };
    generic_spawn_entity_system(&mut buf, &vec![ev], Entity { id: 3 });
    assert_eq!(buf.len(), 1);
    match *buf.op_at(0) {
        SpawnOp::Asteroid(d) => {
            assert_eq!(d.translation, Position { x: 10_000, y: 20_000 });
            assert_eq!(d.velocity, Velocity { x: 1, y: -2 });
            assert_eq!(d.health, HealthStats { hull: 100, max_hull: 100 });
        },
        _ => panic!("expected an asteroid"),
    }
}

#[test]
fn dispatched_projectile_takes_the_named_origin_or_the_spawner() {
    let mut buf = CommandBuffer::new();
    let with_origin = SpawnEntityEvent {
        spawn_type: SpawnType::Projectile,
        location: Position { x: 0, y: 0 },
        velocity: None,
        origin: Some(Entity { id: 7 }),
    };
    let without = SpawnEntityEvent {
        spawn_type: SpawnType::Projectile,
        location: Position { x: 0, y: 0 },
        velocity: None,
        origin: None,
    };
    generic_spawn_entity_system(&mut buf, &vec![with_origin, without], Entity { id: 3 });
    match *buf.op_at(0) {
        SpawnOp::Projectile(_, o) => assert_eq!(o.id, 7),
        _ => panic!("expected a projectile"),
    }
    match *buf.op_at(1) {
        SpawnOp::Projectile(d, o) => {
            assert_eq!(o.id, 3);
            assert_eq!(d.velocity, Velocity { x: 0, y: 0 });
        },
        _ => panic!("expected a projectile"),
    }
}

#[test]
fn dispatched_powerup_carries_one_of_the_standard_payloads() {
    for _ in 0..12 {
        let mut buf = CommandBuffer::new();
        let ev = SpawnEntityEvent {
            spawn_type: SpawnType::Powerup,
            location: Position { x: 0, y: 0 },
            velocity: None,
            origin: None,
        };
        generic_spawn_entity_system(&mut buf, &vec![ev], Entity { id: 3 });
        match *buf.op_at(0) {
            SpawnOp::Powerup(_, e) => {
                let kinds = [e.speed.is_some(), e.health.is_some(), e.energy.is_some()];
                assert_eq!(kinds.iter().filter(|k| **k).count(), 1);
                if let Some(s) = e.speed {
                    assert_eq!(s.speed, MovementSpeed { accel: 2, max: 40 });
                }
                if let Some(h) = e.health {
                    assert_eq!(h.health, HealthStats { hull: 90, max_hull: 0 });
                }
                if let Some(en) = e.energy {
                    assert_eq!(en.energy.energy, 200);
                    assert_eq!(en.energy.max_energy, 20);
                }
            },
            _ => panic!("expected a power-up"),
        }
    }
}

#[test]
fn flush_turns_each_op_into_one_fresh_entity_in_order() {
    let mut w = World::new();
    let _existing = w.spawn_empty();
    let mut buf = CommandBuffer::new();
    let mut a = AsteroidDataComponents::stock();
    a.translation = Position { x: 5_000, y: 0 };
    per_spatium::spawn::spawn_asteroid(&mut buf, a);
    let mut p = ProjectileDataComponents::stock();
    p.translation = Position { x: 0, y: 5_000 };
    per_spatium::spawn::spawn_projectile(&mut buf, Entity { id: 0 }, p);
    flush_spawns(&mut w, &mut buf);
    assert_eq!(w.num_entities(), 3);
    assert_eq!(buf.len(), 0);
    let ra = w.rec(Entity { id: 1 });
    assert_eq!(ra.position.unwrap(), Position { x: 5_000, y: 0 });
    assert!(ra.auto_cleaned);
    assert!(!ra.can_die.unwrap().is_dead);
    assert_eq!(ra.score.unwrap().score, 100);
    assert!(ra.death_effect.is_some());
    let rp = w.rec(Entity { id: 2 });
    assert_eq!(rp.position.unwrap(), Position { x: 0, y: 5_000 });
    assert_eq!(rp.damage_origin.unwrap().entity.id, 0);
    assert_eq!(rp.dies_on_hit.unwrap().hits_to_die, 1);
    assert!(rp.auto_cleaned);
}

#[test]
fn later_powerup_payload_of_a_kind_replaces_the_earlier() {
    let mut buf = CommandBuffer::new();
    let kinds = vec![
        PowerUpKind::Speed(SpeedPowerUp { speed: MovementSpeed { accel: 1, max: 1 } }),
        PowerUpKind::Speed(SpeedPowerUp { speed: MovementSpeed { accel: 2, max: 40 } }),
    ];
    spawn_powerup(&mut buf, PowerupDataComponents::stock(), kinds);
    match *buf.op_at(0) {
        SpawnOp::Powerup(_, e) => {
            assert_eq!(e.speed.unwrap().speed, MovementSpeed { accel: 2, max: 40 });
            assert!(e.health.is_none());
        },
        _ => panic!("expected a power-up"),
    }
}
