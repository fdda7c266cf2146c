use per_spatium::comp::{
    Controller, Drag, MovementSpeed, Position, Velocity, COORD_LIMIT,
};
use per_spatium::actor::process_commands_system;
use per_spatium::physics::{drag_system, process_velocity_system};
use per_spatium::rng::random_in_range;
use per_spatium::world::{Component, World};

#[test]
fn velocity_integrates_exactly_into_milliunits() {
    let mut w = World::new();
    let e = w.spawn_empty();
    w.attach(e, Component::Position(Position { x: 0, y: 0 }));
    w.attach(e, Component::Velocity(Velocity { x: 1000, y: -250 }));
    process_velocity_system(&mut w, 16);
    let p = w.rec(e).position.unwrap();
    assert_eq!(p.x, 16_000);
    assert_eq!(p.y, -4_000);
}

#[test]
fn positions_saturate_at_the_coordinate_bound() {
    let mut w = World::new();
    let e = w.spawn_empty();
    w.attach(e, Component::Position(Position { x: COORD_LIMIT, y: 0 }));
    w.attach(e, Component::Velocity(Velocity { x: 1000, y: 0 }));
    process_velocity_system(&mut w, 16);
    assert_eq!(w.rec(e).position.unwrap().x, COORD_LIMIT);
}

#[test]
fn drag_shaves_the_exact_fraction_of_the_velocity() {
    let mut w = World::new();
    let e = w.spawn_empty();
    w.attach(e, Component::Velocity(Velocity { x: 1000, y: -1000 }));
    w.attach(e, Component::Drag(Drag(450)));
    // 16 ms of 450 permille per second shaves 7200 millionths: 7 of 1000
    drag_system(&mut w, 16);
    let v = w.rec(e).velocity.unwrap();
    assert_eq!(v.x, 993);
    assert_eq!(v.y, -993);
}

#[test]
fn steering_accelerates_and_caps_at_top_speed() {
    let mut w = World::new();
    let e = w.spawn_empty();
    w.attach(e, Component::Position(Position { x: 0, y: 0 }));
    w.attach(e, Component::Velocity(Velocity { x: 395, y: 0 }));
    w.attach(e, Component::MovementSpeed(MovementSpeed { accel: 12, max: 400 }));
    w.attach(
        e,
        Component::Controller(Controller { movement_x: 5, movement_y: -3, queued_actions: 0 }),
    );
    let out = process_commands_system(&mut w);
    assert!(out.is_empty());
    let v = w.rec(e).velocity.unwrap();
    // 395 + 12 reaches the cap; 0 - 12 stays under it
    assert_eq!(v.x, 400);
    assert_eq!(v.y, -12);
    let c = w.rec(e).controller.unwrap();
    assert_eq!(c.movement_x, 0);
    assert_eq!(c.movement_y, 0);
}

#[test]
fn queued_actions_become_commands_and_drain() {
    let mut w = World::new();
    let e = w.spawn_empty();
    w.attach(e, Component::Position(Position { x: 1_000, y: 2_000 }));
    w.attach(e, Component::Velocity(Velocity { x: 0, y: 0 }));
    w.attach(e, Component::MovementSpeed(MovementSpeed { accel: 12, max: 400 }));
    w.attach(
        e,
        Component::Controller(Controller { movement_x: 0, movement_y: 0, queued_actions: 3 }),
    );
    let out = process_commands_system(&mut w);
    assert_eq!(out.len(), 3);
    for ev in &out {
        assert_eq!(ev.src, e);
        assert_eq!(ev.src_loc, Position { x: 1_000, y: 2_000 });
    }
    assert_eq!(w.rec(e).controller.unwrap().queued_actions, 0);
}

#[test]
fn random_draws_stay_inside_the_asked_range() {
    assert_eq!(random_in_range(5, 6), 5);
    for _ in 0..50 {
        let r = random_in_range(-3, 3);
        assert!(r >= -3 && r < 3);
    }
}
