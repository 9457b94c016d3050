//! Timer-driven adversary creation with randomized position, speed and
//! variant, and a spawn interval that shrinks as the score grows.

use vstd::prelude::*;

use crate::adversary::{
    spawn_ok, Adversary, ENEMY_SIZE, ENEMY_SPEED_MAX, ENEMY_SPEED_MIN, ENEMY_VARIANTS,
};
use crate::geometry::Bounds;

verus! {

/// Base inter-arrival interval between adversary spawns, in milliseconds.
pub const SPAWN_BASE_MS: i32 = 800;

/// The interval shrinks by one millisecond per point of score, by at most
/// this much, so it never falls below `SPAWN_BASE_MS - SPAWN_SHRINK_CAP_MS`.
pub const SPAWN_SHRINK_CAP_MS: u32 = 500;

/// Largest elapsed time a single step accepts, in milliseconds.
pub const MAX_FRAME_MS: u32 = 100_000;

/// The spawn interval for a given score: the base interval shrunk by one
/// millisecond per point of score, with the shrinkage capped.
pub open spec fn spawn_interval(score: u32) -> int {
    SPAWN_BASE_MS - (if score < SPAWN_SHRINK_CAP_MS {
        score as int
    } else {
        SPAWN_SHRINK_CAP_MS as int
    })
}

/// Executable spawn interval; always within
/// `[SPAWN_BASE_MS - SPAWN_SHRINK_CAP_MS, SPAWN_BASE_MS]`.
pub fn spawn_interval_ms(score: u32) -> (r: i32)
    ensures
        r == spawn_interval(score),
        SPAWN_BASE_MS - SPAWN_SHRINK_CAP_MS <= r <= SPAWN_BASE_MS,
{
    let shrink: u32 = if score < SPAWN_SHRINK_CAP_MS {
        score
    } else {
        SPAWN_SHRINK_CAP_MS
    };
    SPAWN_BASE_MS - (shrink as i32)
}

/// Relies on `macroquad::rand::gen_range::<i32>` (quad_rand's global pcg
/// generator): it returns `low + trunc((high - low) * u)` with `u` drawn
/// uniformly in `[0, 1)`; for `0 <= low < high` within the small ranges the
/// simulation uses, the result lies in `[low, high)`.
#[verifier::external_body]
fn rand_in_range(low: i32, high: i32) -> (r: i32)
    requires
        0 <= low < high <= 2_000_000,
    ensures
        low <= r < high,
{
    macroquad::rand::gen_range(low, high)
}

/// A freshly spawned adversary for arena `b`: variant, horizontal position
/// and speed are drawn from the global random source, so only their ranges
/// are promised (`spawn_ok`): the whole box inside the arena's horizontal
/// span, just above the top edge, speed within the fixed range, live.
pub fn new_adversary(b: Bounds) -> (a: Adversary)
    requires
        b.wf(),
        b.width >= ENEMY_SIZE,
    ensures
        spawn_ok(a, b),
{
    let tag: i32 = rand_in_range(0, ENEMY_VARIANTS as i32);
    let x: i32 = rand_in_range(0, b.width - ENEMY_SIZE + 1);
    let speed: i32 = rand_in_range(ENEMY_SPEED_MIN, ENEMY_SPEED_MAX + 1);
    Adversary { x, y: -ENEMY_SIZE, speed, size: ENEMY_SIZE, live: true, tag: tag as u32 }
}

/// One spawner tick: the countdown decreases by the elapsed time; when it
/// reaches zero a randomized adversary is produced and the countdown is
/// reset to the score-dependent interval. Returns `Some` exactly when the
/// countdown ran out this tick.
pub fn maybe_spawn(timer: &mut i32, dt: u32, score: u32, b: Bounds) -> (r: Option<Adversary>)
    requires
        b.wf(),
        b.width >= ENEMY_SIZE,
        0 <= *old(timer) <= SPAWN_BASE_MS,
        dt <= MAX_FRAME_MS,
    ensures
        (r is Some) == (*old(timer) - dt <= 0),
        r is Some ==> *final(timer) == spawn_interval(score) && spawn_ok(r->Some_0, b),
        r is None ==> *final(timer) == *old(timer) - dt,
        0 < *final(timer) <= SPAWN_BASE_MS,
{
    let t: i32 = *timer - (dt as i32);
    if t <= 0 {
        *timer = spawn_interval_ms(score);
        Some(new_adversary(b))
    } else {
        *timer = t;
        None
    }
}

} // verus!
