use tank_battle::common::Direction;
use tank_battle::tank::{remove_shield, setup_tank, tank_attack};
use tank_battle::timer::{Timer, TimerMode};
use tank_battle::world::{Arena, GameWorld};

fn spawned_world() -> GameWorld {
    let arena = Arena {
        left_wall: -300_000,
        right_wall: 300_000,
        bottom_wall: -300_000,
        top_wall: 300_000,
        wall_thickness: 20_000,
        tank_half_extent: 40_000,
        tank_padding: 10_000,
        step: 4_000,
    };
    let mut w = GameWorld::new(arena);
    setup_tank(&mut w);
    w
}

#[test]
fn setup_spawns_tank_with_shield_child() {
    let w = spawned_world();
    let t = w.tank.expect("tank spawned");
    assert_eq!(t.x, 0);
    assert_eq!(t.y, -200_000);
    assert_eq!(t.direction, Direction::Up);
    assert_eq!(t.sprite_index, 0);
    assert_eq!(t.animation_timer.0, Timer::from_millis(200, TimerMode::Repeating));
    assert_eq!(t.refresh_bullet_timer.0, Timer::from_millis(2000, TimerMode::Once));
    let s = w.shield.expect("shield spawned");
    assert_eq!(s.sprite_index, 0);
    assert_eq!(s.animation_timer.0, Timer::from_millis(200, TimerMode::Repeating));
    assert_eq!(s.remove_timer.0, Timer::from_millis(5000, TimerMode::Once));
    assert!(w.bullets.is_empty());
}

#[test]
fn two_fires_within_cooldown_spawn_one_bullet() {
    let mut w = spawned_world();
    // the spawn cooldown must first run its full 2000 ms once
    tank_attack(&mut w, 2000, true);
    assert_eq!(w.bullets.len(), 1);
    // a second fire 100 ms later is swallowed by the running cooldown
    tank_attack(&mut w, 100, true);
    assert_eq!(w.bullets.len(), 1);
}

#[test]
fn fire_after_exactly_the_cooldown_spawns_again() {
    let mut w = spawned_world();
    tank_attack(&mut w, 2000, true);
    assert_eq!(w.bullets.len(), 1);
    tank_attack(&mut w, 2000, true);
    assert_eq!(w.bullets.len(), 2);
}

#[test]
fn held_fire_without_fresh_edge_spawns_nothing() {
    let mut w = spawned_world();
    tank_attack(&mut w, 2000, false);
    assert!(w.bullets.is_empty());
    tank_attack(&mut w, 2000, false);
    assert!(w.bullets.is_empty());
    // the cooldown kept ticking all along, so the next edge fires at once
    tank_attack(&mut w, 0, true);
    assert_eq!(w.bullets.len(), 1);
}

#[test]
fn fresh_cooldown_blocks_fire_at_spawn() {
    let mut w = spawned_world();
    tank_attack(&mut w, 100, true);
    assert!(w.bullets.is_empty());
}

#[test]
fn bullet_takes_tank_position_and_facing_frame() {
    let mut w = spawned_world();
    tank_attack(&mut w, 2000, true);
    let b = w.bullets[0];
    assert_eq!(b.x, 0);
    assert_eq!(b.y, -200_000);
    assert_eq!(b.direction, Direction::Up);
    assert_eq!(b.sprite_index, 0);
    // turn the tank and fire again: the new bullet carries the new facing
    let mut t = w.tank.unwrap();
    t.direction = Direction::Left;
    w.tank = Some(t);
    tank_attack(&mut w, 2000, true);
    assert_eq!(w.bullets[1].direction, Direction::Left);
    assert_eq!(w.bullets[1].sprite_index, 3);
}

#[test]
fn shield_survives_under_five_seconds_total() {
    let mut w = spawned_world();
    for _ in 0..4 {
        remove_shield(&mut w, 1000);
        assert!(w.shield.is_some());
    }
    remove_shield(&mut w, 999);
    assert!(w.shield.is_some());
}

#[test]
fn shield_expires_at_five_seconds_total_in_any_split() {
    let mut w = spawned_world();
    for _ in 0..4 {
        remove_shield(&mut w, 1000);
    }
    remove_shield(&mut w, 1000);
    assert!(w.shield.is_none());

    let mut w = spawned_world();
    remove_shield(&mut w, 5000);
    assert!(w.shield.is_none());

    let mut w = spawned_world();
    remove_shield(&mut w, 4999);
    remove_shield(&mut w, 1);
    assert!(w.shield.is_none());
}

#[test]
fn despawned_shield_stays_gone() {
    let mut w = spawned_world();
    remove_shield(&mut w, 5000);
    assert!(w.shield.is_none());
    remove_shield(&mut w, 1000);
    assert!(w.shield.is_none());
    // the tank is untouched by its shield expiring
    assert!(w.tank.is_some());
}

#[test]
fn despawning_the_tank_cascades_to_its_shield() {
    let mut w = spawned_world();
    assert!(w.shield.is_some());
    w.despawn_tank();
    assert!(w.tank.is_none());
    assert!(w.shield.is_none());
}
