use per_spatium::comp::{ColliderBox, Position};
use per_spatium::entity::Entity;
use per_spatium::events::{Channel, CollisionEvent, Cursor};
use per_spatium::physics::{check_collision_system, find_touching_pairs};
use per_spatium::world::{Component, World};

fn put_box(w: &mut World, x_units: i64, y_units: i64, side: i64) -> Entity {
    let e = w.spawn_empty();
    w.attach(e, Component::Position(Position { x: x_units * 1000, y: y_units * 1000 }));
    w.attach(e, Component::Collider(ColliderBox { w: side, h: side }));
    e
}

#[test]
fn collision_event_equality_is_symmetric() {
    let a = Entity { id: 3 };
    let b = Entity { id: 9 };
    assert_eq!(CollisionEvent::new(a, b), CollisionEvent::new(b, a));
    assert_eq!(CollisionEvent::new(b, a), CollisionEvent::new(a, b));
    assert!(CollisionEvent::new(a, b) != CollisionEvent::new(a, a));
}

#[test]
fn touching_pair_is_reported_exactly_once() {
    let mut w = World::new();
    let a = put_box(&mut w, 0, 0, 80);
    let b = put_box(&mut w, 30, 0, 80);
    let _far = put_box(&mut w, 500, 500, 80);
    let found = find_touching_pairs(&w);
    assert_eq!(found.len(), 1);
    assert_eq!(found[0], CollisionEvent::new(a, b));
    assert!(found[0].0.id < found[0].1.id);
}

#[test]
fn no_self_pairs_and_no_duplicates_among_three_touching() {
    let mut w = World::new();
    // three boxes stacked on the same spot: three unordered pairs
    put_box(&mut w, 0, 0, 80);
    put_box(&mut w, 0, 0, 80);
    put_box(&mut w, 0, 0, 80);
    let found = find_touching_pairs(&w);
    assert_eq!(found.len(), 3);
    for ev in &found {
        assert!(ev.0.id != ev.1.id);
    }
    for i in 0..found.len() {
        for j in 0..found.len() {
            if i != j {
                assert!(found[i] != found[j]);
            }
        }
    }
}

#[test]
fn touching_edges_do_not_count() {
    let mut w = World::new();
    // 80-wide boxes exactly 80 units apart: edges meet, intervals are open
    put_box(&mut w, 0, 0, 80);
    put_box(&mut w, 80, 0, 80);
    assert!(find_touching_pairs(&w).is_empty());
    // one unit closer and they overlap
    let mut w2 = World::new();
    put_box(&mut w2, 0, 0, 80);
    put_box(&mut w2, 79, 0, 80);
    assert_eq!(find_touching_pairs(&w2).len(), 1);
}

#[test]
fn detector_publishes_into_the_channel() {
    let mut w = World::new();
    let a = put_box(&mut w, 0, 0, 40);
    let b = put_box(&mut w, 10, 10, 40);
    let mut ch: Channel<CollisionEvent> = Channel::new();
    let mut c = Cursor::new();
    check_collision_system(&w, &mut ch);
    let seen = ch.drain(&mut c);
    assert_eq!(seen.len(), 1);
    assert_eq!(seen[0], CollisionEvent::new(a, b));
}

#[test]
fn entities_without_collider_or_position_never_collide() {
    let mut w = World::new();
    let a = w.spawn_empty();
    w.attach(a, Component::Position(Position { x: 0, y: 0 }));
    let b = w.spawn_empty();
    w.attach(b, Component::Collider(ColliderBox { w: 100, h: 100 }));
    put_box(&mut w, 0, 0, 100);
    assert!(find_touching_pairs(&w).is_empty());
}
