use per_spatium::comp::{
    Collectible, EnergyPowerUp, EnergyStats, HealthPowerUp, HealthStats, MovementSpeed,
    SpeedPowerUp,
};
use per_spatium::entity::Entity;
use per_spatium::events::{CollisionEvent, PickupEvent};
use per_spatium::pickup::{
    apply_energy_powerup_system, apply_health_powerup_system, apply_speed_powerup_system,
    detect_pickup_system,
};
use per_spatium::world::{Component, World};

fn collector(w: &mut World) -> Entity {
    let e = w.spawn_empty();
    w.attach(e, Component::Collector);
    e
}

fn collectible(w: &mut World) -> Entity {
    let e = w.spawn_empty();
    w.attach(e, Component::Collectible(Collectible { collected: false }));
    e
}

#[test]
fn contact_between_collector_and_collectible_is_a_pickup() {
    let mut w = World::new();
    let c = collector(&mut w);
    let p = collectible(&mut w);
    let evs = vec![CollisionEvent::new(c, p)];
    let picks = detect_pickup_system(&mut w, &evs);
    assert_eq!(picks.len(), 1);
    assert_eq!(picks[0].collector, c);
    assert_eq!(picks[0].pickup, p);
    assert!(w.rec(p).collectible.unwrap().collected);
}

#[test]
fn contact_between_two_plain_entities_is_no_pickup() {
    let mut w = World::new();
    let a = w.spawn_empty();
    let b = w.spawn_empty();
    let evs = vec![CollisionEvent::new(a, b)];
    let picks = detect_pickup_system(&mut w, &evs);
    assert!(picks.is_empty());
}

#[test]
fn health_powerup_tops_up_but_never_past_the_new_max() {
    let mut w = World::new();
    let c = w.spawn_empty();
    w.attach(c, Component::Health(HealthStats { hull: 50, max_hull: 100 }));
    let p = w.spawn_empty();
    w.attach(
        p,
        Component::HealthPowerUp(HealthPowerUp { health: HealthStats { hull: 90, max_hull: 0 } }),
    );
    let picks = vec![PickupEvent { collector: c, pickup: p }];
    apply_health_powerup_system(&mut w, &picks);
    let h = w.rec(c).health.unwrap();
    assert_eq!(h.hull, 100);
    assert_eq!(h.max_hull, 100);
}

#[test]
fn health_powerup_grows_the_max_first() {
    let mut w = World::new();
    let c = w.spawn_empty();
    w.attach(c, Component::Health(HealthStats { hull: 90, max_hull: 100 }));
    let p = w.spawn_empty();
    w.attach(
        p,
        Component::HealthPowerUp(HealthPowerUp { health: HealthStats { hull: 50, max_hull: 60 } }),
    );
    let picks = vec![PickupEvent { collector: c, pickup: p }];
    apply_health_powerup_system(&mut w, &picks);
    let h = w.rec(c).health.unwrap();
    assert_eq!(h.max_hull, 160);
    assert_eq!(h.hull, 140);
}

#[test]
fn speed_powerup_adds_to_both_stats() {
    let mut w = World::new();
    let c = w.spawn_empty();
    w.attach(c, Component::MovementSpeed(MovementSpeed { accel: 12, max: 400 }));
    let p = w.spawn_empty();
    w.attach(
        p,
        Component::SpeedPowerUp(SpeedPowerUp { speed: MovementSpeed { accel: 2, max: 40 } }),
    );
    let picks = vec![PickupEvent { collector: c, pickup: p }];
    apply_speed_powerup_system(&mut w, &picks);
    let s = w.rec(c).movement_speed.unwrap();
    assert_eq!(s.accel, 14);
    assert_eq!(s.max, 440);
}

#[test]
fn energy_powerup_follows_the_same_clamp_rule() {
    let mut w = World::new();
    let c = w.spawn_empty();
    w.attach(c, Component::Energy(EnergyStats { energy: 10, max_energy: 20 }));
    let p = w.spawn_empty();
    w.attach(
        p,
        Component::EnergyPowerUp(
            EnergyPowerUp { energy: EnergyStats { energy: 200, max_energy: 20 } },
        ),
    );
    let picks = vec![PickupEvent { collector: c, pickup: p }];
    apply_energy_powerup_system(&mut w, &picks);
    let e = w.rec(c).energy.unwrap();
    assert_eq!(e.max_energy, 40);
    assert_eq!(e.energy, 40);
}

#[test]
fn each_powerup_applies_exactly_once_per_pickup_event() {
    let mut w = World::new();
    let c = w.spawn_empty();
    w.attach(c, Component::Health(HealthStats { hull: 10, max_hull: 100 }));
    let p = w.spawn_empty();
    w.attach(
        p,
        Component::HealthPowerUp(HealthPowerUp { health: HealthStats { hull: 5, max_hull: 0 } }),
    );
    let one = vec![PickupEvent { collector: c, pickup: p }];
    apply_health_powerup_system(&mut w, &one);
    assert_eq!(w.rec(c).health.unwrap().hull, 15);
    // two events apply twice; the count of events is what matters
    let two = vec![
        PickupEvent { collector: c, pickup: p },
        PickupEvent { collector: c, pickup: p },
    ];
    apply_health_powerup_system(&mut w, &two);
    assert_eq!(w.rec(c).health.unwrap().hull, 25);
}
