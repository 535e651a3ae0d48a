use tank_battle::common::Direction;
use tank_battle::tank::{move_tank, setup_tank};
use tank_battle::world::{Arena, GameWorld, MoveKeys};

fn test_arena(step: u64) -> Arena {
    Arena {
        left_wall: -300_000,
        right_wall: 300_000,
        bottom_wall: -300_000,
        top_wall: 300_000,
        wall_thickness: 20_000,
        tank_half_extent: 40_000,
        tank_padding: 10_000,
        step,
    }
}

fn spawned_world(step: u64) -> GameWorld {
    let mut w = GameWorld::new(test_arena(step));
    setup_tank(&mut w);
    w
}

#[test]
fn left_beats_up() {
    let mut w = spawned_world(4_000);
    move_tank(&mut w, &MoveKeys { left: true, right: false, up: true, down: false });
    let t = w.tank.unwrap();
    assert_eq!(t.direction, Direction::Left);
    assert_eq!(t.x, -4_000);
    assert_eq!(t.y, -200_000);
}

#[test]
fn priority_order_is_left_right_up_down() {
    let mut w = spawned_world(4_000);
    move_tank(&mut w, &MoveKeys { left: true, right: true, up: true, down: true });
    assert_eq!(w.tank.unwrap().direction, Direction::Left);
    let mut w = spawned_world(4_000);
    move_tank(&mut w, &MoveKeys { left: false, right: true, up: true, down: true });
    assert_eq!(w.tank.unwrap().direction, Direction::Right);
    let mut w = spawned_world(4_000);
    move_tank(&mut w, &MoveKeys { left: false, right: false, up: true, down: true });
    assert_eq!(w.tank.unwrap().direction, Direction::Up);
    let mut w = spawned_world(4_000);
    move_tank(&mut w, &MoveKeys { left: false, right: false, up: false, down: true });
    assert_eq!(w.tank.unwrap().direction, Direction::Down);
}

#[test]
fn pushing_into_wall_never_passes_bound() {
    // bound: wall - thickness/2 - half extent - padding = -300_000+10_000+40_000+10_000 = -240_000
    let mut w = spawned_world(50_000);
    let keys = MoveKeys { left: true, right: false, up: false, down: false };
    for _ in 0..30 {
        move_tank(&mut w, &keys);
        assert!(w.tank.unwrap().x >= -240_000);
    }
    assert_eq!(w.tank.unwrap().x, -240_000);
}

#[test]
fn clamp_hits_bound_exactly_from_inside() {
    let mut w = spawned_world(1_000_000);
    move_tank(&mut w, &MoveKeys { left: false, right: true, up: false, down: false });
    assert_eq!(w.tank.unwrap().x, 240_000);
    move_tank(&mut w, &MoveKeys { left: false, right: false, up: false, down: true });
    assert_eq!(w.tank.unwrap().y, -240_000);
}

#[test]
fn idle_frame_leaves_state_bit_identical() {
    let mut w = spawned_world(4_000);
    // move once so the state is not just the spawn state
    move_tank(&mut w, &MoveKeys { left: false, right: true, up: false, down: false });
    let before = w.tank.unwrap();
    move_tank(&mut w, &MoveKeys { left: false, right: false, up: false, down: false });
    let after = w.tank.unwrap();
    assert_eq!(before, after);
}

#[test]
fn turning_shows_the_facings_first_frame_only_on_change() {
    let mut w = spawned_world(4_000);
    // spawn faces Up with frame 0; turning right shows Right's first frame
    move_tank(&mut w, &MoveKeys { left: false, right: true, up: false, down: false });
    assert_eq!(w.tank.unwrap().sprite_index, 2);
    // same direction again: frame untouched
    let mut t = w.tank.unwrap();
    t.sprite_index = 3;
    w.tank = Some(t);
    move_tank(&mut w, &MoveKeys { left: false, right: true, up: false, down: false });
    assert_eq!(w.tank.unwrap().sprite_index, 3);
    // turning down shows Down's first frame
    move_tank(&mut w, &MoveKeys { left: false, right: false, up: false, down: true });
    assert_eq!(w.tank.unwrap().sprite_index, 4);
    // and turning left shows Left's first frame
    move_tank(&mut w, &MoveKeys { left: true, right: false, up: false, down: false });
    assert_eq!(w.tank.unwrap().sprite_index, 6);
}

#[test]
fn move_without_tank_changes_nothing() {
    let mut w = GameWorld::new(test_arena(4_000));
    move_tank(&mut w, &MoveKeys { left: true, right: false, up: false, down: false });
    assert!(w.tank.is_none());
    assert!(w.shield.is_none());
    assert!(w.bullets.is_empty());
}
