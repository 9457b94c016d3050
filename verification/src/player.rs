//! The player-controlled craft and the per-frame action signals.

use vstd::prelude::*;

use crate::geometry::{Bounds, Rect, COORD_LIMIT};
use crate::projectile::{Projectile, BULLET_SIZE, BULLET_SPEED};

verus! {

/// Displacement of the player per frame while a directional signal is active.
pub const PLAYER_SPEED: i32 = 5;

/// Side of the player's square bounding box.
pub const PLAYER_SIZE: i32 = 50;

/// Distance from the arena bottom to the player's initial top edge.
pub const PLAYER_BOTTOM_OFFSET: i32 = 80;

/// The abstracted per-frame input: which actions are currently active.
/// `fire` is already gated by the driver (edge-triggered or duty-cycled);
/// `restart` is honoured only in the game-over phase.
#[derive(Clone, Copy, Debug, PartialEq, Eq, Structural)]
pub struct Signals {
    pub left: bool,
    pub right: bool,
    pub up: bool,
    pub down: bool,
    pub fire: bool,
    pub restart: bool,
}

/// The player: top-left corner, fixed per-frame speed and fixed square size.
/// Movement is a fixed per-frame step, deliberately not scaled by elapsed
/// time, which preserves the frame-rate-coupled feel of the original design.
#[derive(Clone, Copy, Debug, PartialEq, Eq, Structural)]
pub struct Player {
    pub x: i32,
    pub y: i32,
    pub speed: i32,
    pub size: i32,
}

/// `v` clamped into `[lo, hi]`.
pub open spec fn clamped(v: int, lo: int, hi: int) -> int {
    if v < lo {
        lo
    } else if v > hi {
        hi
    } else {
        v
    }
}

/// Net horizontal displacement demanded by the signals.
pub open spec fn dx_of(p: Player, s: Signals) -> int {
    (if s.right {
        p.speed as int
    } else {
        0
    }) - (if s.left {
        p.speed as int
    } else {
        0
    })
}

/// Net vertical displacement demanded by the signals.
pub open spec fn dy_of(p: Player, s: Signals) -> int {
    (if s.down {
        p.speed as int
    } else {
        0
    }) - (if s.up {
        p.speed as int
    } else {
        0
    })
}

/// The player after one motion step: displaced by the active signals, then
/// clamped so its bounding box stays fully inside the arena.
pub open spec fn player_moved(p: Player, s: Signals, b: Bounds) -> Player {
    Player {
        x: clamped(p.x + dx_of(p, s), 0, b.width - p.size) as i32,
        y: clamped(p.y + dy_of(p, s), 0, b.height - p.size) as i32,
        ..p
    }
}

impl Player {
    /// Well-formedness relative to the arena: positive speed and size, and
    /// the bounding box fully inside the arena.
    pub open spec fn wf(self, b: Bounds) -> bool {
        &&& b.wf()
        &&& 0 < self.size <= b.width
        &&& self.size <= b.height
        &&& 0 < self.speed <= COORD_LIMIT
        &&& 0 <= self.x <= b.width - self.size
        &&& 0 <= self.y <= b.height - self.size
    }

    pub open spec fn rect(self) -> Rect {
        Rect { x: self.x, y: self.y, size: self.size }
    }

    /// The bounding box, for the executable overlap test.
    pub fn rect_exec(&self) -> (r: Rect)
        ensures
            r == self.rect(),
    {
        Rect { x: self.x, y: self.y, size: self.size }
    }

    /// A fresh player: horizontally at the arena middle, near the bottom.
    pub fn new(b: Bounds) -> (p: Player)
        requires
            b.wf(),
            b.width >= 2 * PLAYER_SIZE,
            b.height >= PLAYER_BOTTOM_OFFSET,
        ensures
            p.wf(b),
            p.x == b.width / 2,
            p.y == b.height - PLAYER_BOTTOM_OFFSET,
            p.speed == PLAYER_SPEED,
            p.size == PLAYER_SIZE,
    {
        Player {
            x: b.width / 2,
            y: b.height - PLAYER_BOTTOM_OFFSET,
            speed: PLAYER_SPEED,
            size: PLAYER_SIZE,
        }
    }

    /// One motion step: each active directional signal displaces the player
    /// by its speed along the corresponding axis (opposite signals cancel),
    /// and the position is then clamped so the bounding box stays within
    /// `[0, width - size] x [0, height - size]`.
    pub fn update(&mut self, s: &Signals, b: Bounds)
        requires
            old(self).wf(b),
        ensures
            *final(self) == player_moved(*old(self), *s, b),
            final(self).wf(b),
    {
        let lo_x: i32 = 0;
        let hi_x: i32 = b.width - self.size;
        let mut nx: i32 = self.x;
        if s.right {
            nx = nx + self.speed;
        }
        if s.left {
            nx = nx - self.speed;
        }
        if nx < lo_x {
            nx = lo_x;
        }
        if nx > hi_x {
            nx = hi_x;
        }
        let lo_y: i32 = 0;
        let hi_y: i32 = b.height - self.size;
        let mut ny: i32 = self.y;
        if s.down {
            ny = ny + self.speed;
        }
        if s.up {
            ny = ny - self.speed;
        }
        if ny < lo_y {
            ny = lo_y;
        }
        if ny > hi_y {
            ny = hi_y;
        }
        self.x = nx;
        self.y = ny;
    }

    /// A new projectile at the player's horizontal centre, top edge,
    /// travelling upward, initially live.
    pub fn shoot(&self) -> (p: Projectile)
        requires
            0 <= self.x <= COORD_LIMIT,
            0 < self.size <= COORD_LIMIT,
        ensures
            p == shot_from(*self),
            p.live,
    {
        Projectile {
            x: self.x + self.size / 2 - BULLET_SIZE / 2,
            y: self.y,
            speed: BULLET_SPEED,
            size: BULLET_SIZE,
            live: true,
        }
    }
}

/// The projectile produced by a fire action of player `p`.
pub open spec fn shot_from(p: Player) -> Projectile {
    Projectile {
        x: (p.x + p.size / 2 - BULLET_SIZE / 2) as i32,
        y: p.y,
        speed: BULLET_SPEED,
        size: BULLET_SIZE,
        live: true,
    }
}

} // verus!
