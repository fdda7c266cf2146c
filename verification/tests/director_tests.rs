use per_spatium::comp::{CanDie, Player, Position, Timer, Velocity};
use per_spatium::director::{
    check_game_over_system, execute_developer_command, gameplay_spawn_system,
    keep_player_in_bounds_system, parse_developer_command, GameBounds, GameplaySpawnState,
};
use per_spatium::events::{DeveloperCommand, SpawnType};
use per_spatium::spawn::{CommandBuffer, SpawnOp};
use per_spatium::world::{Component, World};

#[test]
fn developer_command_strings_parse_exactly() {
    assert!(matches!(
        parse_developer_command(&"spawn_asteroid".to_string()),
        DeveloperCommand::SpawnAsteroid
    ));
    assert!(matches!(
        parse_developer_command(&"spawn_projectile".to_string()),
        DeveloperCommand::SpawnProjectile
    ));
    assert!(matches!(
        parse_developer_command(&"spawn_powerup".to_string()),
        DeveloperCommand::SpawnPowerup
    ));
    assert!(matches!(
        parse_developer_command(&"spawn_asteroids".to_string()),
        DeveloperCommand::Unknown
    ));
    assert!(matches!(parse_developer_command(&"".to_string()), DeveloperCommand::Unknown));
}

#[test]
fn unknown_commands_resolve_to_nothing() {
    let b = GameBounds::standard();
    let r = execute_developer_command(DeveloperCommand::Unknown, Position { x: 0, y: 0 }, &b);
    assert!(r.is_none());
}

#[test]
fn projectile_command_spawns_at_the_pointer() {
    let b = GameBounds::standard();
    let cursor = Position { x: 12_000, y: -7_000 };
    let se = execute_developer_command(DeveloperCommand::SpawnProjectile, cursor, &b).unwrap();
    assert!(matches!(se.spawn_type, SpawnType::Projectile));
    assert_eq!(se.location, cursor);
    assert_eq!(se.velocity.unwrap(), Velocity { x: 0, y: 80 });
    assert!(se.origin.is_none());
}

#[test]
fn asteroid_command_lands_inside_the_field_with_a_small_drift() {
    let b = GameBounds::standard();
    for _ in 0..20 {
        let se =
            execute_developer_command(DeveloperCommand::SpawnAsteroid, Position { x: 0, y: 0 }, &b)
                .unwrap();
        assert!(matches!(se.spawn_type, SpawnType::Asteroid));
        assert!(se.location.x >= -360_000 && se.location.x < 360_000);
        assert!(se.location.y >= -340_000 && se.location.y < 340_000);
        let v = se.velocity.unwrap();
        assert!(v.x >= -10 && v.x < 10);
        assert!(v.y >= -10 && v.y < 10);
    }
}

#[test]
fn game_over_latches_on_a_dead_player_and_never_clears() {
    let mut w = World::new();
    let p = w.spawn_empty();
    w.attach(p, Component::Player(Player { score: 0 }));
    w.attach(p, Component::CanDie(CanDie { is_dead: false }));
    let mut st = GameplaySpawnState::default();
    check_game_over_system(&w, &mut st);
    assert!(!st.game_over);
    {
        let r = w.rec_at_mut(p.id as usize);
        r.can_die = Some(CanDie { is_dead: true });
    }
    check_game_over_system(&w, &mut st);
    assert!(st.game_over);
    // even once the flag is gone, the latch holds
    {
        let r = w.rec_at_mut(p.id as usize);
        r.can_die = None;
    }
    check_game_over_system(&w, &mut st);
    assert!(st.game_over);
}

#[test]
fn players_are_pinned_inside_the_field() {
    let mut w = World::new();
    let p = w.spawn_empty();
    w.attach(p, Component::Player(Player { score: 0 }));
    w.attach(p, Component::Position(Position { x: 500_000, y: -400_000 }));
    w.attach(p, Component::Velocity(Velocity { x: 100, y: -50 }));
    let b = GameBounds::standard();
    keep_player_in_bounds_system(&mut w, &b);
    let r = w.rec(p);
    assert_eq!(r.position.unwrap(), Position { x: 360_000, y: -340_000 });
    assert_eq!(r.velocity.unwrap(), Velocity { x: 0, y: 0 });
}

#[test]
fn expired_asteroid_cadence_sends_one_asteroid_from_the_spawn_line() {
    let mut st = GameplaySpawnState::default();
    let mut finished = Timer::from_ms(1700);
    finished.tick(1000);
    finished.tick(700);
    st.asteroid_timer = finished;
    st.game_time_ms = 35_000;
    let b = GameBounds::standard();
    let mut buf = CommandBuffer::new();
    gameplay_spawn_system(&mut st, &b, &mut buf, 16);
    assert_eq!(buf.len(), 1);
    match *buf.op_at(0) {
        SpawnOp::Asteroid(d) => {
            assert!(d.translation.x >= -360_000 && d.translation.x < 360_000);
            assert_eq!(d.translation.y, 440_000);
            // the ramp at 35 of 70 seconds: half of the 100-unit cap, falling
            assert_eq!(d.velocity, Velocity { x: 0, y: -50 });
            assert_eq!(d.health.hull, 100);
        },
        _ => panic!("expected an asteroid"),
    }
    // the cadence restarted and then advanced by the tick
    assert!(!st.asteroid_timer.finished);
    assert_eq!(st.asteroid_timer.elapsed_ms, 16);
    assert_eq!(st.game_time_ms, 35_016);
}

#[test]
fn a_finished_game_spawns_nothing() {
    let mut st = GameplaySpawnState::default();
    let mut finished = Timer::from_ms(1700);
    finished.tick(1000);
    finished.tick(1000);
    st.asteroid_timer = finished;
    st.game_over = true;
    let b = GameBounds::standard();
    let mut buf = CommandBuffer::new();
    gameplay_spawn_system(&mut st, &b, &mut buf, 16);
    assert_eq!(buf.len(), 0);
    assert_eq!(st.game_time_ms, 0);
}
