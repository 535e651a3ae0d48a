//! Per-frame systems of the player tank: spawn with its shield, movement
//! with bounds clamping, directional walk-cycle animation, cooldown-gated
//! attack, and the shield's animation and expiry.

use crate::common::{AnimationTimer, Direction, TankRefreshBulletTimer};
use crate::timer::{all_nonneg, sum_of, ticked_by, Timer, TimerMode, MAX_TICK_MS};
use crate::world::{
    clamp_coord, spec_clamped, Bullet, GameWorld, MoveKeys, Shield, ShieldRemoveTimer, Tank,
    ANIMATION_INTERVAL_MS, SHIELD_DURATION_MS, TANK_REFRESH_BULLET_INTERVAL_MS, TANK_SPAWN_OFFSET,
};
use vstd::arithmetic::div_mod::{
    lemma_fundamental_div_mod, lemma_mod_multiples_basic, lemma_mod_pos_bound,
};
use vstd::prelude::*;

verus! {

/// Where movement would carry the tank center on the x axis, before clamping.
pub open spec fn spec_moved_x(x: int, d: Direction, step: int) -> int {
    match d {
        Direction::Left => x - step,
        Direction::Right => x + step,
        Direction::Up => x,
        Direction::Down => x,
    }
}

/// Where movement would carry the tank center on the y axis, before clamping.
pub open spec fn spec_moved_y(y: int, d: Direction, step: int) -> int {
    match d {
        Direction::Left => y,
        Direction::Right => y,
        Direction::Up => y + step,
        Direction::Down => y - step,
    }
}

/// Spawn the player tank at the spawn point above the bottom wall, facing
/// up, with a fresh animation timer and bullet cooldown, and its spawn
/// shield as a child entity with a fresh animation and expiry timer.
pub fn setup_tank(world: &mut GameWorld)
    requires
        old(world).wf(),
        old(world).tank is None,
        old(world).shield is None,
        old(world).arena.x_min() <= 0 <= old(world).arena.x_max(),
        old(world).arena.y_min() <= old(world).arena.bottom_wall + TANK_SPAWN_OFFSET
            <= old(world).arena.y_max(),
    ensures
        final(world).wf(),
        final(world).arena == old(world).arena,
        final(world).bullets == old(world).bullets,
        final(world).tank == Some(
            Tank {
                x: 0,
                y: (old(world).arena.bottom_wall + TANK_SPAWN_OFFSET) as i64,
                direction: Direction::Up,
                sprite_index: 0,
                animation_timer: AnimationTimer(
                    Timer::spec_new(ANIMATION_INTERVAL_MS, TimerMode::Repeating),
                ),
                refresh_bullet_timer: TankRefreshBulletTimer(
                    Timer::spec_new(TANK_REFRESH_BULLET_INTERVAL_MS, TimerMode::Once),
                ),
            },
        ),
        final(world).shield == Some(
            Shield {
                sprite_index: 0,
                animation_timer: AnimationTimer(
                    Timer::spec_new(ANIMATION_INTERVAL_MS, TimerMode::Repeating),
                ),
                remove_timer: ShieldRemoveTimer(
                    Timer::spec_new(SHIELD_DURATION_MS, TimerMode::Once),
                ),
            },
        ),
{
    let spawn_y: i64 = world.arena.bottom_wall + TANK_SPAWN_OFFSET;
    world.shield = Some(
        Shield {
            sprite_index: 0,
            animation_timer: AnimationTimer(
                Timer::from_millis(ANIMATION_INTERVAL_MS, TimerMode::Repeating),
            ),
            remove_timer: ShieldRemoveTimer(Timer::from_millis(SHIELD_DURATION_MS, TimerMode::Once)),
        },
    );
    world.tank = Some(
        Tank {
            x: 0,
            y: spawn_y,
            direction: Direction::Up,
            sprite_index: 0,
            animation_timer: AnimationTimer(
                Timer::from_millis(ANIMATION_INTERVAL_MS, TimerMode::Repeating),
            ),
            refresh_bullet_timer: TankRefreshBulletTimer(
                Timer::from_millis(TANK_REFRESH_BULLET_INTERVAL_MS, TimerMode::Once),
            ),
        },
    );
}

/// Move the tank one frame: honor at most one pressed key in the priority
/// order Left, Right, Up, Down; step by the fixed per-frame distance; clamp
/// each axis into the arena bounds; turn the facing and show the new
/// facing's first frame only when the facing changed.  With no movement key
/// pressed, nothing changes.
pub fn move_tank(world: &mut GameWorld, keys: &MoveKeys)
    requires
        old(world).wf(),
    ensures
        final(world).wf(),
        final(world).arena == old(world).arena,
        final(world).shield == old(world).shield,
        final(world).bullets == old(world).bullets,
        old(world).tank is None ==> *final(world) == *old(world),
        !keys.any_pressed() ==> *final(world) == *old(world),
        old(world).tank matches Some(t) ==> keys.any_pressed() ==> ({
            let a = old(world).arena;
            let d = keys.chosen_direction();
            &&& final(world).tank matches Some(nt)
            &&& nt.x == spec_clamped(spec_moved_x(t.x as int, d, a.step as int), a.x_min(), a.x_max())
            &&& nt.y == spec_clamped(spec_moved_y(t.y as int, d, a.step as int), a.y_min(), a.y_max())
            &&& a.x_min() <= nt.x <= a.x_max()
            &&& a.y_min() <= nt.y <= a.y_max()
            &&& nt.direction == d
            &&& nt.sprite_index == if d == t.direction {
                t.sprite_index as int
            } else {
                d.spec_idle_frame()
            }
            &&& nt.animation_timer == t.animation_timer
            &&& nt.refresh_bullet_timer == t.refresh_bullet_timer
        }),
{
    let arena = world.arena;
    match world.tank {
        None => {},
        Some(t) => {
            if !(keys.left || keys.right || keys.up || keys.down) {
                return ;
            }
            let step: i64 = arena.step as i64;
            let mut x: i64 = t.x;
            let mut y: i64 = t.y;
            let direction: Direction;
            if keys.left {
                x = x - step;
                direction = Direction::Left;
            } else if keys.right {
                x = x + step;
                direction = Direction::Right;
            } else if keys.up {
                y = y + step;
                direction = Direction::Up;
            } else {
                y = y - step;
                direction = Direction::Down;
            }
            let sprite_index: usize = if direction == t.direction {
                t.sprite_index
            } else {
                direction.idle_frame()
            };
            let (x_lo, x_hi) = arena.x_bounds();
            let (y_lo, y_hi) = arena.y_bounds();
            world.tank = Some(
                Tank {
                    x: clamp_coord(x, x_lo, x_hi),
                    y: clamp_coord(y, y_lo, y_hi),
                    direction,
                    sprite_index,
                    animation_timer: t.animation_timer,
                    refresh_bullet_timer: t.refresh_bullet_timer,
                },
            );
        },
    }
}

/// Advance the tank's walk-cycle animation: the sheet is split into four
/// equal quadrants ordered Up, Right, Down, Left; on each timer completion
/// the frame advances by one within the current facing's quadrant.
pub fn animate_tank(world: &mut GameWorld, delta_ms: u64, atlas_len: usize)
    requires
        old(world).wf(),
        delta_ms <= MAX_TICK_MS,
        atlas_len >= 4,
        old(world).tank matches Some(t) ==> t.sprite_index < atlas_len,
    ensures
        final(world).wf(),
        final(world).arena == old(world).arena,
        final(world).shield == old(world).shield,
        final(world).bullets == old(world).bullets,
        old(world).tank is None ==> *final(world) == *old(world),
        old(world).tank matches Some(t) ==> ({
            let ticked = t.animation_timer.0.spec_tick(delta_ms as int);
            let q = atlas_len as int / 4;
            &&& final(world).tank matches Some(nt)
            &&& nt.animation_timer == AnimationTimer(ticked)
            &&& nt.sprite_index == if ticked.times_finished_this_tick > 0 {
                (t.sprite_index + 1) % q + q * t.direction.spec_quadrant_index()
            } else {
                t.sprite_index as int
            }
            &&& nt.sprite_index < atlas_len
            &&& nt.x == t.x
            &&& nt.y == t.y
            &&& nt.direction == t.direction
            &&& nt.refresh_bullet_timer == t.refresh_bullet_timer
        }),
{
    match world.tank {
        None => {},
        Some(t) => {
            let mut timer = t.animation_timer;
            timer.0.tick(delta_ms);
            let mut sprite_index: usize = t.sprite_index;
            if timer.0.just_finished() {
                let quadrant_size: usize = atlas_len / 4;
                proof {
                    lemma_fundamental_div_mod(atlas_len as int, 4);
                    lemma_mod_pos_bound(atlas_len as int, 4);
                    lemma_mod_pos_bound(sprite_index as int + 1, quadrant_size as int);
                }
                sprite_index = (sprite_index + 1) % quadrant_size + quadrant_size
                    * t.direction.quadrant_index();
            }
            world.tank = Some(Tank { animation_timer: timer, sprite_index, ..t });
        },
    }
}

/// Fire control: the cooldown ticks every frame unconditionally; only on a
/// fresh fire edge with the cooldown finished does one bullet spawn at the
/// tank's position with the facing's bullet frame, and the cooldown resets.
pub fn tank_attack(world: &mut GameWorld, delta_ms: u64, fire_just_pressed: bool)
    requires
        old(world).wf(),
        delta_ms <= MAX_TICK_MS,
    ensures
        final(world).wf(),
        final(world).arena == old(world).arena,
        final(world).shield == old(world).shield,
        old(world).tank is None ==> *final(world) == *old(world),
        old(world).tank matches Some(t) ==> ({
            let ticked = t.refresh_bullet_timer.0.spec_tick(delta_ms as int);
            let fires = fire_just_pressed && ticked.finished;
            &&& final(world).tank matches Some(nt)
            &&& nt.refresh_bullet_timer.0 == if fires {
                ticked.spec_reset()
            } else {
                ticked
            }
            &&& nt.x == t.x
            &&& nt.y == t.y
            &&& nt.direction == t.direction
            &&& nt.sprite_index == t.sprite_index
            &&& nt.animation_timer == t.animation_timer
            &&& final(world).bullets@ == if fires {
                old(world).bullets@.push(
                    Bullet {
                        x: t.x,
                        y: t.y,
                        direction: t.direction,
                        sprite_index: t.direction.spec_bullet_frame() as usize,
                    },
                )
            } else {
                old(world).bullets@
            }
        }),
{
    match world.tank {
        None => {},
        Some(t) => {
            let mut cooldown = t.refresh_bullet_timer;
            cooldown.0.tick(delta_ms);
            if fire_just_pressed {
                if cooldown.0.finished() {
                    world.bullets.push(
                        Bullet {
                            x: t.x,
                            y: t.y,
                            direction: t.direction,
                            sprite_index: t.direction.bullet_frame(),
                        },
                    );
                    cooldown.0.reset();
                }
            }
            world.tank = Some(Tank { refresh_bullet_timer: cooldown, ..t });
        },
    }
}

/// Advance the shield's animation: on each timer completion the frame steps
/// by one, modulo the shield sheet's length.
pub fn animate_shield(world: &mut GameWorld, delta_ms: u64, atlas_len: usize)
    requires
        old(world).wf(),
        delta_ms <= MAX_TICK_MS,
        atlas_len >= 1,
        old(world).shield matches Some(s) ==> s.sprite_index < atlas_len,
    ensures
        final(world).wf(),
        final(world).arena == old(world).arena,
        final(world).tank == old(world).tank,
        final(world).bullets == old(world).bullets,
        old(world).shield is None ==> *final(world) == *old(world),
        old(world).shield matches Some(s) ==> ({
            let ticked = s.animation_timer.0.spec_tick(delta_ms as int);
            &&& final(world).shield matches Some(ns)
            &&& ns.animation_timer == AnimationTimer(ticked)
            &&& ns.remove_timer == s.remove_timer
            &&& ns.sprite_index == if ticked.times_finished_this_tick > 0 {
                (s.sprite_index + 1) % (atlas_len as int)
            } else {
                s.sprite_index as int
            }
            &&& ns.sprite_index < atlas_len
        }),
{
    match world.shield {
        None => {},
        Some(s) => {
            let mut timer = s.animation_timer;
            timer.0.tick(delta_ms);
            let mut sprite_index: usize = s.sprite_index;
            if timer.0.just_finished() {
                proof {
                    lemma_mod_pos_bound(sprite_index as int + 1, atlas_len as int);
                }
                sprite_index = (sprite_index + 1) % atlas_len;
            }
            world.shield = Some(Shield { animation_timer: timer, sprite_index, ..s });
        },
    }
}

/// Advance the shield's expiry timer; the frame it finishes, despawn the
/// shield entity (despawning cascades to its children; it has none).  The
/// despawn is unconditional and irreversible.
pub fn remove_shield(world: &mut GameWorld, delta_ms: u64)
    requires
        old(world).wf(),
        delta_ms <= MAX_TICK_MS,
    ensures
        final(world).wf(),
        final(world).arena == old(world).arena,
        final(world).tank == old(world).tank,
        final(world).bullets == old(world).bullets,
        old(world).shield is None ==> *final(world) == *old(world),
        old(world).shield matches Some(s) ==> ({
            let ticked = s.remove_timer.0.spec_tick(delta_ms as int);
            if ticked.finished {
                final(world).shield is None
            } else {
                final(world).shield == Some(Shield { remove_timer: ShieldRemoveTimer(ticked), ..s })
            }
        }),
{
    match world.shield {
        None => {},
        Some(s) => {
            let mut timer = s.remove_timer;
            timer.0.tick(delta_ms);
            if timer.0.finished() {
                world.shield = None;
            } else {
                world.shield = Some(Shield { remove_timer: timer, ..s });
            }
        },
    }
}

/// Directional wrap law: when the current frame sits at the last index of
/// the facing's quadrant, the next advance lands back on the first index of
/// the same quadrant, never in the next one.
pub proof fn lemma_quadrant_wrap(q: int, d: Direction, i: int)
    requires
        q > 0,
        i == q * d.spec_quadrant_index() + (q - 1),
    ensures
        (i + 1) % q + q * d.spec_quadrant_index() == q * d.spec_quadrant_index(),
{
    let qi = d.spec_quadrant_index();
    assert(i + 1 == (qi + 1) * q) by (nonlinear_arith)
        requires
            i == q * qi + (q - 1),
    ;
    lemma_mod_multiples_basic(qi + 1, q);
}

/// Attack gating law.  A shot leaves the cooldown reset (`tank_attack`
/// ensures `spec_reset`: elapsed zero, not finished), and every later frame
/// without a shot ticks it once.  However that time is split into frame
/// deltas, the cooldown has finished again, and only then can a fresh fire
/// edge spawn the next bullet, exactly when the deltas sum to at least its
/// duration.  Two fire edges less than the full cooldown apart therefore
/// spawn exactly one bullet; a second edge exactly the cooldown later spawns
/// the second.
pub proof fn lemma_attack_cooldown_gating(cooldown: Timer, deltas: Seq<int>)
    requires
        cooldown.inv(),
        cooldown.mode is Once,
        cooldown.elapsed_ms == 0,
        !cooldown.finished,
        all_nonneg(deltas),
    ensures
        ticked_by(cooldown, deltas).finished <==> sum_of(deltas) >= cooldown.duration_ms,
{
    crate::timer::lemma_once_run(cooldown, deltas);
}

/// One frame of fire control, as `tank_attack` leaves the cooldown: ticked,
/// and reset when a bullet spawned.
pub open spec fn attack_cooldown_step(t: Timer, delta: int, fire: bool) -> Timer {
    let ticked = t.spec_tick(delta);
    if fire && ticked.finished {
        ticked.spec_reset()
    } else {
        ticked
    }
}

/// Whether one frame of fire control spawns a bullet: a fresh fire edge with
/// the ticked cooldown finished.
pub open spec fn attack_spawns(t: Timer, delta: int, fire: bool) -> bool {
    fire && t.spec_tick(delta).finished
}

/// The cooldown after a sequence of fire-control frames, each a tick delta
/// and a fire edge, in order.
pub open spec fn attack_cooldown_run(t: Timer, frames: Seq<(int, bool)>) -> Timer
    decreases frames.len(),
{
    if frames.len() == 0 {
        t
    } else {
        attack_cooldown_step(
            attack_cooldown_run(t, frames.drop_last()),
            frames.last().0,
            frames.last().1,
        )
    }
}

/// How many bullets a sequence of fire-control frames spawns.
pub open spec fn attack_spawn_count(t: Timer, frames: Seq<(int, bool)>) -> int
    decreases frames.len(),
{
    if frames.len() == 0 {
        0
    } else {
        attack_spawn_count(t, frames.drop_last()) + if attack_spawns(
            attack_cooldown_run(t, frames.drop_last()),
            frames.last().0,
            frames.last().1,
        ) {
            1int
        } else {
            0int
        }
    }
}

/// Total ticked time of a sequence of fire-control frames.
pub open spec fn frames_total_time(frames: Seq<(int, bool)>) -> int
    decreases frames.len(),
{
    if frames.len() == 0 {
        0
    } else {
        frames_total_time(frames.drop_last()) + frames.last().0
    }
}

/// Every frame's tick delta is nonnegative.
pub open spec fn frames_deltas_nonneg(frames: Seq<(int, bool)>) -> bool {
    forall|i: int| 0 <= i < frames.len() ==> #[trigger] frames[i].0 >= 0
}

/// Fire-rate law: every spawned bullet accounts for one full cooldown.
/// Across any sequence of fire-control frames, the bullets spawned times the
/// cooldown duration never exceed the cooldown's initial elapsed time plus
/// the total ticked time: however often the fire key is pressed, bullets
/// cannot come out faster than one per cooldown on average.
pub proof fn lemma_attack_rate_limit(t: Timer, frames: Seq<(int, bool)>)
    requires
        t.inv(),
        t.mode is Once,
        frames_deltas_nonneg(frames),
    ensures
        attack_cooldown_run(t, frames).inv(),
        attack_cooldown_run(t, frames).mode is Once,
        attack_cooldown_run(t, frames).duration_ms == t.duration_ms,
        0 <= attack_spawn_count(t, frames),
        attack_spawn_count(t, frames) * (t.duration_ms as int) + attack_cooldown_run(
            t,
            frames,
        ).elapsed_ms <= t.elapsed_ms + frames_total_time(frames),
    decreases frames.len(),
{
    if frames.len() > 0 {
        let prefix = frames.drop_last();
        assert forall|i: int| 0 <= i < prefix.len() implies #[trigger] prefix[i].0 >= 0 by {
            assert(frames[i].0 >= 0);
        }
        lemma_attack_rate_limit(t, prefix);
        assert(frames[frames.len() - 1].0 >= 0);
        let c = t.duration_ms as int;
        let cnt = attack_spawn_count(t, prefix);
        assert((cnt + 1) * c == cnt * c + c) by (nonlinear_arith);
    }
}

/// Two bullets need two full cooldowns: from a fresh cooldown, across frames
/// whose deltas total less than twice its duration, at most one bullet can
/// spawn, however the fire key is pressed.
pub proof fn lemma_two_shots_need_two_cooldowns(t: Timer, frames: Seq<(int, bool)>)
    requires
        t.inv(),
        t.mode is Once,
        t.elapsed_ms == 0,
        !t.finished,
        frames_deltas_nonneg(frames),
        frames_total_time(frames) < 2 * t.duration_ms,
    ensures
        attack_spawn_count(t, frames) <= 1,
{
    lemma_attack_rate_limit(t, frames);
    let c = t.duration_ms as int;
    let cnt = attack_spawn_count(t, frames);
    if cnt >= 2 {
        assert(cnt * c >= 2 * c) by (nonlinear_arith)
            requires
                cnt >= 2,
                c > 0,
        ;
        assert(false);
    }
}

/// Shield expiry law.  The shield spawns with a fresh one-shot expiry timer,
/// and `remove_shield` ticks it once per frame and despawns the shield the
/// frame it finishes.  Across any split of frame time into deltas the timer
/// finishes exactly when the deltas sum to at least its duration: the shield
/// is gone once that much time passed, and still exists on any smaller
/// total.
pub proof fn lemma_shield_expiry(expiry: Timer, deltas: Seq<int>)
    requires
        expiry.inv(),
        expiry.mode is Once,
        expiry.elapsed_ms == 0,
        !expiry.finished,
        all_nonneg(deltas),
    ensures
        ticked_by(expiry, deltas).finished <==> sum_of(deltas) >= expiry.duration_ms,
{
    crate::timer::lemma_once_run(expiry, deltas);
}

} // verus!
