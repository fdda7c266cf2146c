use per_spatium::comp::{
    CanDie, ColliderBox, Damage, Dissipates, DiesOnHit, HealthStats, Player, Position, Score,
    Timer, Velocity,
};
use per_spatium::entity::Entity;
use per_spatium::events::{DamageEvent, DisposeEntityEvent, KillEvent};
use per_spatium::lifecycle::{
    charon_system, collectible_cleanup_system, dead_cleanup_system, off_bounds_cleanup_system,
    on_hit_die_system, on_kill_score_system, timed_dissipation_system, GraveyardState,
};
use per_spatium::world::{Component, World};

fn graveyard() -> GraveyardState {
    GraveyardState { location: Position { x: 50_000_000, y: 50_000_000 }, population: 0 }
}

#[test]
fn retirement_strips_and_relocates() {
    let mut w = World::new();
    let e = w.spawn_empty();
    w.attach(e, Component::Position(Position { x: 0, y: 0 }));
    w.attach(e, Component::Velocity(Velocity { x: 5, y: 5 }));
    w.attach(e, Component::Collider(ColliderBox { w: 80, h: 80 }));
    w.attach(e, Component::Health(HealthStats { hull: 100, max_hull: 100 }));
    w.attach(e, Component::Damage(Damage { hull: 5 }));
    w.attach(e, Component::CanDie(CanDie { is_dead: true }));
    w.attach(e, Component::Score(Score { score: 100 }));
    w.attach(e, Component::AutoCleaned);
    let mut g = graveyard();
    charon_system(&mut w, &mut g, &vec![DisposeEntityEvent(e)]);
    let r = w.rec(e);
    assert_eq!(r.position.unwrap(), g.location);
    assert!(r.velocity.is_none());
    assert!(r.collider.is_none());
    assert!(r.health.is_none());
    assert!(r.damage.is_none());
    assert!(r.can_die.is_none());
    assert!(r.score.is_none());
    assert!(!r.auto_cleaned);
    assert_eq!(g.population, 1);
}

#[test]
fn retiring_twice_changes_nothing_but_the_counter() {
    let mut w = World::new();
    let e = w.spawn_empty();
    w.attach(e, Component::Position(Position { x: 1000, y: 2000 }));
    w.attach(e, Component::Health(HealthStats { hull: 10, max_hull: 10 }));
    w.attach(e, Component::AutoCleaned);
    let mut g = graveyard();
    charon_system(&mut w, &mut g, &vec![DisposeEntityEvent(e)]);
    let after_once = format!("{:?}", w.rec(e));
    charon_system(&mut w, &mut g, &vec![DisposeEntityEvent(e)]);
    let after_twice = format!("{:?}", w.rec(e));
    assert_eq!(after_once, after_twice);
    assert_eq!(g.population, 2);
}

#[test]
fn dissipation_requests_disposal_when_the_countdown_ends() {
    let mut w = World::new();
    let e = w.spawn_empty();
    let mut t = Timer::from_ms(30);
    t.tick(30);
    w.attach(e, Component::Dissipates(Dissipates { timer: t }));
    let fresh = w.spawn_empty();
    w.attach(fresh, Component::Dissipates(Dissipates { timer: Timer::from_ms(1000) }));
    let out = timed_dissipation_system(&mut w, 16);
    assert_eq!(out.len(), 1);
    assert_eq!(out[0].0, e);
    // the fresh countdown advanced instead
    assert_eq!(w.rec(fresh).dissipates.unwrap().timer.elapsed_ms, 16);
}

#[test]
fn one_more_hit_kills_a_one_hit_entity() {
    let mut w = World::new();
    let tough = w.spawn_empty();
    w.attach(tough, Component::DiesOnHit(DiesOnHit { hits_to_die: 2 }));
    let frail = w.spawn_empty();
    w.attach(frail, Component::DiesOnHit(DiesOnHit { hits_to_die: 1 }));
    let victim = w.spawn_empty();
    let evs = vec![
        DamageEvent { src: tough, targ: victim },
        DamageEvent { src: frail, targ: victim },
    ];
    let out = on_hit_die_system(&w, &evs);
    assert_eq!(out.len(), 1);
    assert_eq!(out[0].0, frail);
}

#[test]
fn collected_and_dead_entities_are_requested_for_disposal() {
    let mut w = World::new();
    let picked = w.spawn_empty();
    w.attach(
        picked,
        Component::Collectible(per_spatium::comp::Collectible { collected: true }),
    );
    let unpicked = w.spawn_empty();
    w.attach(
        unpicked,
        Component::Collectible(per_spatium::comp::Collectible { collected: false }),
    );
    let dead = w.spawn_empty();
    w.attach(dead, Component::CanDie(CanDie { is_dead: true }));
    let alive = w.spawn_empty();
    w.attach(alive, Component::CanDie(CanDie { is_dead: false }));
    let collected = collectible_cleanup_system(&w);
    assert_eq!(collected.len(), 1);
    assert_eq!(collected[0].0, picked);
    let perished = dead_cleanup_system(&w);
    assert_eq!(perished.len(), 1);
    assert_eq!(perished[0].0, dead);
}

#[test]
fn off_bounds_cleanup_takes_only_marked_entities_below_the_cutoff() {
    let mut w = World::new();
    let below = w.spawn_empty();
    w.attach(below, Component::Position(Position { x: 0, y: -2_000_000 }));
    w.attach(below, Component::AutoCleaned);
    let unmarked = w.spawn_empty();
    w.attach(unmarked, Component::Position(Position { x: 0, y: -2_000_000 }));
    let above = w.spawn_empty();
    w.attach(above, Component::Position(Position { x: 0, y: 0 }));
    w.attach(above, Component::AutoCleaned);
    let out = off_bounds_cleanup_system(&w, -990_000);
    assert_eq!(out.len(), 1);
    assert_eq!(out[0].0, below);
}

#[test]
fn kills_credit_the_player_with_the_victims_score() {
    let mut w = World::new();
    let killer = w.spawn_empty();
    w.attach(killer, Component::Player(Player { score: 7 }));
    let victim = w.spawn_empty();
    w.attach(victim, Component::CanDie(CanDie { is_dead: true }));
    w.attach(victim, Component::Score(Score { score: 100 }));
    let evs = vec![KillEvent { src: killer, targ: victim }];
    on_kill_score_system(&mut w, &evs);
    assert_eq!(w.rec(killer).player.unwrap().score, 107);
}

#[test]
fn a_live_victim_scores_nothing() {
    let mut w = World::new();
    let killer = w.spawn_empty();
    w.attach(killer, Component::Player(Player { score: 0 }));
    let victim = w.spawn_empty();
    w.attach(victim, Component::CanDie(CanDie { is_dead: false }));
    w.attach(victim, Component::Score(Score { score: 100 }));
    let evs = vec![KillEvent { src: killer, targ: victim }];
    on_kill_score_system(&mut w, &evs);
    assert_eq!(w.rec(killer).player.unwrap().score, 0);
}

#[test]
fn stale_identifiers_dispose_nothing() {
    let mut w = World::new();
    let _e = w.spawn_empty();
    let mut g = graveyard();
    charon_system(&mut w, &mut g, &vec![DisposeEntityEvent(Entity { id: 99 })]);
    assert_eq!(g.population, 1);
    assert_eq!(w.num_entities(), 1);
}
