//! Projectiles: fired by the player, travelling straight up at a fixed
//! speed, cleared when they exit the top of the arena.

use vstd::prelude::*;

use crate::geometry::{Rect, COORD_LIMIT};

verus! {

/// Upward displacement of a projectile per advance step.
pub const BULLET_SPEED: i32 = 7;

/// Side of a projectile's square bounding box.
pub const BULLET_SIZE: i32 = 8;

#[derive(Clone, Copy, Debug, PartialEq, Eq, Structural)]
pub struct Projectile {
    pub x: i32,
    pub y: i32,
    pub speed: i32,
    pub size: i32,
    /// Liveness flag: false once the projectile has left the arena or has
    /// been resolved against an adversary, making it eligible for pruning.
    pub live: bool,
}

/// A projectile after one advance step: moved up by its speed; the liveness
/// flag is cleared when the new position is above the arena top (`y < 0`),
/// and a cleared flag is never set again.
pub open spec fn proj_step(p: Projectile) -> Projectile {
    Projectile { y: (p.y - p.speed) as i32, live: p.live && p.y - p.speed >= 0, ..p }
}

/// Whether a projectile that started live at height `y0` with speed
/// `speed` is still live after `k` advance steps.
pub open spec fn proj_live_after(y0: int, speed: int, k: nat) -> bool
    decreases k,
{
    if k == 0 {
        true
    } else {
        proj_live_after(y0, speed, (k - 1) as nat) && y0 - k * speed >= 0
    }
}

impl Projectile {
    /// Bounded coordinates, positive speed and size.
    pub open spec fn wf(self) -> bool {
        &&& 0 < self.size <= COORD_LIMIT
        &&& 0 < self.speed <= COORD_LIMIT
        &&& -COORD_LIMIT <= self.x <= COORD_LIMIT
        &&& -COORD_LIMIT <= self.y <= COORD_LIMIT
    }

    pub open spec fn rect(self) -> Rect {
        Rect { x: self.x, y: self.y, size: self.size }
    }

    /// The bounding box, for the executable overlap test.
    pub fn rect_exec(&self) -> (r: Rect)
        ensures
            r == self.rect(),
    {
        Rect { x: self.x, y: self.y, size: self.size }
    }

    /// One advance step: move up by `speed`; clear liveness on exiting the
    /// arena top. A projectile that is already cleared stays cleared.
    pub fn advance(&mut self)
        requires
            old(self).wf(),
        ensures
            *final(self) == proj_step(*old(self)),
    {
        self.y = self.y - self.speed;
        if self.y < 0 {
            self.live = false;
        }
    }

    /// Advance `n` times in a row. The final liveness is exactly the
    /// iterated-step model `proj_live_after`, so a projectile dies on the
    /// step that carries it across the top boundary and not before.
    pub fn advance_times(&mut self, n: u32)
        requires
            old(self).wf(),
            n * old(self).speed <= COORD_LIMIT,
        ensures
            final(self).y == old(self).y - n * old(self).speed,
            final(self).live == (old(self).live && proj_live_after(
                old(self).y as int,
                old(self).speed as int,
                n as nat,
            )),
            final(self).x == old(self).x,
            final(self).speed == old(self).speed,
            final(self).size == old(self).size,
    {
        let ghost y0 = old(self).y as int;
        let ghost sp = old(self).speed as int;
        let mut i: u32 = 0;
        while i < n
            invariant
                0 <= i <= n,
                y0 == old(self).y,
                sp == old(self).speed,
                0 < sp <= COORD_LIMIT,
                n * sp <= COORD_LIMIT,
                self.speed == sp,
                self.x == old(self).x,
                self.size == old(self).size,
                old(self).wf(),
                self.y == y0 - i * sp,
                self.live == (old(self).live && proj_live_after(y0, sp, i as nat)),
            decreases n - i,
    {
            proof {
                lemma_mul_le(i as int, n as int, sp);
                lemma_mul_le(i as int + 1, n as int, sp);
                assert(i * sp >= 0) by (nonlinear_arith)
                    requires
                        i >= 0,
                        sp >= 0,
                ;
                assert((i + 1) * sp == i * sp + sp) by (nonlinear_arith);
            }
            self.y = self.y - self.speed;
            if self.y < 0 {
                self.live = false;
            }
            proof {
                assert((i + 1) * sp == i * sp + sp) by (nonlinear_arith);
            }
            i = i + 1;
        }
    }
}

/// For `0 <= a <= b` and `0 <= c`, `a * c <= b * c`.
proof fn lemma_mul_le(a: int, b: int, c: int)
    requires
        0 <= a <= b,
        0 <= c,
    ensures
        a * c <= b * c,
{
    assert(a * c <= b * c) by (nonlinear_arith)
        requires
            0 <= a <= b,
            0 <= c,
    ;
}

/// Every projectile in the sequence is well-formed.
pub open spec fn all_projs_wf(s: Seq<Projectile>) -> bool {
    forall|k: int| 0 <= k < s.len() ==> (#[trigger] s[k]).wf()
}

/// The whole sequence advanced one step.
pub open spec fn advanced_projs(s: Seq<Projectile>) -> Seq<Projectile> {
    Seq::new(s.len(), |k: int| proj_step(s[k]))
}

/// The subsequence of live projectiles, in order.
pub open spec fn live_only_p(s: Seq<Projectile>) -> Seq<Projectile>
    decreases s.len(),
{
    if s.len() == 0 {
        Seq::empty()
    } else if s.last().live {
        live_only_p(s.drop_last()).push(s.last())
    } else {
        live_only_p(s.drop_last())
    }
}

/// Pruning only drops elements: the result is no longer than the input, and
/// every element of the result is a live element of the input.
pub proof fn lemma_live_only_p_props(s: Seq<Projectile>)
    ensures
        live_only_p(s).len() <= s.len(),
        forall|k: int|
            0 <= k < live_only_p(s).len() ==> s.contains(#[trigger] live_only_p(s)[k])
                && live_only_p(s)[k].live,
    decreases s.len(),
{
    if s.len() > 0 {
        lemma_live_only_p_props(s.drop_last());
        assert forall|k: int| 0 <= k < live_only_p(s).len() implies s.contains(
            #[trigger] live_only_p(s)[k],
        ) && live_only_p(s)[k].live by {
            let prev = live_only_p(s.drop_last());
            if k < prev.len() {
                let m = choose|m: int| 0 <= m < s.drop_last().len() && s.drop_last()[m] == prev[k];
                assert(s[m] == prev[k]);
            } else {
                assert(s[s.len() - 1] == s.last());
            }
        }
    }
}

/// Advance every projectile one step, in place.
pub fn advance_projectiles(v: &mut Vec<Projectile>)
    requires
        all_projs_wf(old(v)@),
    ensures
        final(v)@ == advanced_projs(old(v)@),
{
    let mut i: usize = 0;
    while i < v.len()
        invariant
            0 <= i <= v@.len(),
            v@.len() == old(v)@.len(),
            all_projs_wf(old(v)@),
            forall|k: int| 0 <= k < i ==> v@[k] == proj_step(old(v)@[k]),
            forall|k: int| i <= k < v@.len() ==> v@[k] == old(v)@[k],
        decreases v@.len() - i,
    {
        let mut p = v[i];
        p.advance();
        v[i] = p;
        i = i + 1;
    }
    proof {
        assert(v@ =~= advanced_projs(old(v)@));
    }
}

/// Remove every projectile whose liveness flag is cleared, keeping order.
pub fn prune_projectiles(v: &mut Vec<Projectile>)
    ensures
        final(v)@ == live_only_p(old(v)@),
{
    let mut out: Vec<Projectile> = Vec::new();
    let mut i: usize = 0;
    while i < v.len()
        invariant
            0 <= i <= v@.len(),
            v@ == old(v)@,
            out@ == live_only_p(v@.take(i as int)),
        decreases v@.len() - i,
    {
        let p = v[i];
        if p.live {
            out.push(p);
        }
        proof {
            assert(v@.take(i + 1 as int).drop_last() =~= v@.take(i as int));
            assert(v@.take(i + 1 as int).last() == v@[i as int]);
        }
        i = i + 1;
    }
    proof {
        assert(v@.take(v@.len() as int) =~= v@);
    }
    *v = out;
}

/// Liveness after `k` advance steps is exactly "the projectile has not yet
/// crossed the top boundary": for a projectile starting at `y0 >= 0` with
/// positive speed, `proj_live_after(y0, speed, k)` holds iff
/// `y0 - k * speed >= 0`. In particular it dies on the first step that takes
/// it above the top, and not before.
pub proof fn lemma_projectile_liveness(y0: int, speed: int, k: nat)
    requires
        y0 >= 0,
        speed >= 1,
    ensures
        proj_live_after(y0, speed, k) == (y0 - k * speed >= 0),
    decreases k,
{
    if k == 0 {
        assert(y0 - 0 * speed == y0) by (nonlinear_arith);
    } else {
        lemma_projectile_liveness(y0, speed, (k - 1) as nat);
        assert((k - 1) * speed + speed == k * speed) by (nonlinear_arith);
    }
}

} // verus!
