use tank_battle::common::{animate_sprite, AnimationIndices, AnimationTimer, Direction};
use tank_battle::tank::{animate_shield, animate_tank, setup_tank};
use tank_battle::timer::{Timer, TimerMode};
use tank_battle::world::{Arena, GameWorld};

fn spawned_world() -> GameWorld {
    let arena = Arena {
        left_wall: -300_000,
        right_wall: 300_000,
        bottom_wall: -300_000,
        top_wall: 300_000,
        wall_thickness: 20_000,
        tank_half_extent: 40_000,
        tank_padding: 10_000,
        step: 4_000,
    };
    let mut w = GameWorld::new(arena);
    setup_tank(&mut w);
    w
}

fn facing_with_frame(w: &mut GameWorld, direction: Direction, sprite_index: usize) {
    let mut t = w.tank.unwrap();
    t.direction = direction;
    t.sprite_index = sprite_index;
    w.tank = Some(t);
}

#[test]
fn right_quadrant_wraps_within_itself() {
    // 16 frames, quadrant size 4; Right quadrant is 4..=7
    let mut w = spawned_world();
    facing_with_frame(&mut w, Direction::Right, 7);
    animate_tank(&mut w, 200, 16);
    assert_eq!(w.tank.unwrap().sprite_index, 4);
}

#[test]
fn quadrant_frames_advance_by_one() {
    let mut w = spawned_world();
    facing_with_frame(&mut w, Direction::Right, 4);
    animate_tank(&mut w, 200, 16);
    assert_eq!(w.tank.unwrap().sprite_index, 5);
    animate_tank(&mut w, 200, 16);
    assert_eq!(w.tank.unwrap().sprite_index, 6);
}

#[test]
fn each_facing_animates_in_its_own_quadrant() {
    // 8 frames, quadrant size 2: Up 0..=1, Right 2..=3, Down 4..=5, Left 6..=7
    let mut w = spawned_world();
    animate_tank(&mut w, 200, 8);
    assert_eq!(w.tank.unwrap().sprite_index, 1);
    animate_tank(&mut w, 200, 8);
    assert_eq!(w.tank.unwrap().sprite_index, 0);
    facing_with_frame(&mut w, Direction::Left, 7);
    animate_tank(&mut w, 200, 8);
    assert_eq!(w.tank.unwrap().sprite_index, 6);
    facing_with_frame(&mut w, Direction::Down, 5);
    animate_tank(&mut w, 200, 8);
    assert_eq!(w.tank.unwrap().sprite_index, 4);
}

#[test]
fn animation_waits_for_the_timer() {
    let mut w = spawned_world();
    animate_tank(&mut w, 199, 8);
    assert_eq!(w.tank.unwrap().sprite_index, 0);
    animate_tank(&mut w, 1, 8);
    assert_eq!(w.tank.unwrap().sprite_index, 1);
}

#[test]
fn shield_animation_steps_modulo_sheet() {
    let mut w = spawned_world();
    animate_shield(&mut w, 200, 2);
    assert_eq!(w.shield.unwrap().sprite_index, 1);
    animate_shield(&mut w, 200, 2);
    assert_eq!(w.shield.unwrap().sprite_index, 0);
    animate_shield(&mut w, 150, 2);
    assert_eq!(w.shield.unwrap().sprite_index, 0);
}

#[test]
fn sprite_driver_wraps_from_last_to_first() {
    let mut timer = AnimationTimer(Timer::from_millis(200, TimerMode::Repeating));
    let indices = AnimationIndices { first: 3, last: 5 };
    let mut sprite_index: usize = 5;
    animate_sprite(&mut timer, 200, &indices, &mut sprite_index);
    assert_eq!(sprite_index, 3);
}

#[test]
fn sprite_driver_advances_inside_the_range() {
    let mut timer = AnimationTimer(Timer::from_millis(200, TimerMode::Repeating));
    let indices = AnimationIndices { first: 3, last: 5 };
    let mut sprite_index: usize = 4;
    animate_sprite(&mut timer, 100, &indices, &mut sprite_index);
    assert_eq!(sprite_index, 4);
    animate_sprite(&mut timer, 100, &indices, &mut sprite_index);
    assert_eq!(sprite_index, 5);
}

#[test]
fn quadrant_mappings_are_fixed() {
    assert_eq!(Direction::Up.quadrant_index(), 0);
    assert_eq!(Direction::Right.quadrant_index(), 1);
    assert_eq!(Direction::Down.quadrant_index(), 2);
    assert_eq!(Direction::Left.quadrant_index(), 3);
    assert_eq!(Direction::Up.idle_frame(), 0);
    assert_eq!(Direction::Right.idle_frame(), 2);
    assert_eq!(Direction::Down.idle_frame(), 4);
    assert_eq!(Direction::Left.idle_frame(), 6);
    assert_eq!(Direction::Up.bullet_frame(), 0);
    assert_eq!(Direction::Right.bullet_frame(), 1);
    assert_eq!(Direction::Down.bullet_frame(), 2);
    assert_eq!(Direction::Left.bullet_frame(), 3);
}
