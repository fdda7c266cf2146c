use per_spatium::combat::contact_damage_system;
use per_spatium::comp::{CanDie, Damage, DamageOrigin, HealthStats};
use per_spatium::entity::Entity;
use per_spatium::events::CollisionEvent;
use per_spatium::world::{Component, World};

fn damageable(w: &mut World, hull: i64, max_hull: i64) -> Entity {
    let e = w.spawn_empty();
    w.attach(e, Component::Health(HealthStats { hull, max_hull }));
    w.attach(e, Component::CanDie(CanDie { is_dead: false }));
    e
}

fn dealer(w: &mut World, dmg: i64, origin: Option<Entity>) -> Entity {
    let e = w.spawn_empty();
    w.attach(e, Component::Damage(Damage { hull: dmg }));
    if let Some(o) = origin {
        w.attach(e, Component::DamageOrigin(DamageOrigin { entity: o }));
    }
    e
}

#[test]
fn nonlethal_damage_subtracts_and_reports() {
    let mut w = World::new();
    let target = damageable(&mut w, 100, 100);
    let src = dealer(&mut w, 50, None);
    let evs = vec![CollisionEvent::new(target, src)];
    let (dmg, kills) = contact_damage_system(&mut w, &evs);
    assert_eq!(w.rec(target).health.unwrap().hull, 50);
    assert!(!w.rec(target).can_die.unwrap().is_dead);
    assert_eq!(dmg.len(), 1);
    assert_eq!(dmg[0].src, src);
    assert_eq!(dmg[0].targ, target);
    assert!(kills.is_empty());
}

#[test]
fn lethal_damage_clamps_kills_once_and_sets_the_flag() {
    let mut w = World::new();
    let owner = w.spawn_empty();
    let target = damageable(&mut w, 100, 100);
    let src = dealer(&mut w, 120, Some(owner));
    let evs = vec![CollisionEvent::new(target, src), CollisionEvent::new(src, target)];
    let (dmg, kills) = contact_damage_system(&mut w, &evs);
    assert_eq!(w.rec(target).health.unwrap().hull, 0);
    assert!(w.rec(target).can_die.unwrap().is_dead);
    // hit twice in one tick, reported dead once
    assert_eq!(dmg.len(), 2);
    assert_eq!(kills.len(), 1);
    assert_eq!(kills[0].src, owner);
    assert_eq!(kills[0].targ, target);
}

#[test]
fn already_dead_target_draws_no_second_kill() {
    let mut w = World::new();
    let owner = w.spawn_empty();
    let target = damageable(&mut w, 10, 100);
    let src = dealer(&mut w, 50, Some(owner));
    {
        let r = w.rec_at_mut(target.id as usize);
        r.can_die = Some(CanDie { is_dead: true });
    }
    let evs = vec![CollisionEvent::new(target, src)];
    let (dmg, kills) = contact_damage_system(&mut w, &evs);
    assert_eq!(dmg.len(), 1);
    assert!(kills.is_empty());
    assert!(w.rec(target).can_die.unwrap().is_dead);
}

#[test]
fn lethal_hit_without_origin_sets_flag_but_attributes_nothing() {
    let mut w = World::new();
    let target = damageable(&mut w, 30, 100);
    let src = dealer(&mut w, 50, None);
    let evs = vec![CollisionEvent::new(src, target)];
    let (dmg, kills) = contact_damage_system(&mut w, &evs);
    assert_eq!(dmg.len(), 1);
    assert!(kills.is_empty());
    assert!(w.rec(target).can_die.unwrap().is_dead);
}

#[test]
fn self_damage_guard_spares_the_owner() {
    let mut w = World::new();
    let owner = damageable(&mut w, 100, 100);
    let src = dealer(&mut w, 50, Some(owner));
    let evs = vec![CollisionEvent::new(owner, src)];
    let (dmg, kills) = contact_damage_system(&mut w, &evs);
    assert_eq!(w.rec(owner).health.unwrap().hull, 100);
    assert!(dmg.is_empty());
    assert!(kills.is_empty());
}

#[test]
fn mutual_damage_resolves_both_directions() {
    let mut w = World::new();
    let a = w.spawn_empty();
    w.attach(a, Component::Health(HealthStats { hull: 100, max_hull: 100 }));
    w.attach(a, Component::CanDie(CanDie { is_dead: false }));
    w.attach(a, Component::Damage(Damage { hull: 30 }));
    let b = w.spawn_empty();
    w.attach(b, Component::Health(HealthStats { hull: 100, max_hull: 100 }));
    w.attach(b, Component::CanDie(CanDie { is_dead: false }));
    w.attach(b, Component::Damage(Damage { hull: 20 }));
    let evs = vec![CollisionEvent::new(a, b)];
    let (dmg, _) = contact_damage_system(&mut w, &evs);
    assert_eq!(w.rec(a).health.unwrap().hull, 80);
    assert_eq!(w.rec(b).health.unwrap().hull, 70);
    assert_eq!(dmg.len(), 2);
}
