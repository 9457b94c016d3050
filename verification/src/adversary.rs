//! Adversaries: spawned above the arena, descending at a randomized speed,
//! cleared when they exit the bottom of the arena.

use vstd::prelude::*;

use crate::geometry::{Bounds, Rect, COORD_LIMIT};

verus! {

/// Side of an adversary's square bounding box.
pub const ENEMY_SIZE: i32 = 40;

/// Smallest downward displacement per advance step.
pub const ENEMY_SPEED_MIN: i32 = 1;

/// Largest downward displacement per advance step.
pub const ENEMY_SPEED_MAX: i32 = 3;

/// Number of cosmetic variants an adversary can be spawned as.
pub const ENEMY_VARIANTS: u32 = 3;

#[derive(Clone, Copy, Debug, PartialEq, Eq, Structural)]
pub struct Adversary {
    pub x: i32,
    pub y: i32,
    pub speed: i32,
    pub size: i32,
    /// Liveness flag: false once the adversary has left the arena or has
    /// been resolved against a projectile, making it eligible for pruning.
    pub live: bool,
    /// Cosmetic variant selector; never consulted by collision or scoring.
    pub tag: u32,
}

/// An adversary after one advance step inside arena `b`: moved down by its
/// speed; the liveness flag is cleared when the new position is below the
/// arena bottom (`y > height`), and a cleared flag is never set again.
pub open spec fn adv_step(a: Adversary, b: Bounds) -> Adversary {
    Adversary { y: (a.y + a.speed) as i32, live: a.live && a.y + a.speed <= b.height, ..a }
}

impl Adversary {
    /// Bounded coordinates, positive speed and size.
    pub open spec fn wf(self) -> bool {
        &&& 0 < self.size <= COORD_LIMIT
        &&& 0 < self.speed <= COORD_LIMIT
        &&& -COORD_LIMIT <= self.x <= COORD_LIMIT
        &&& -COORD_LIMIT <= self.y <= COORD_LIMIT
    }

    pub open spec fn rect(self) -> Rect {
        Rect { x: self.x, y: self.y, size: self.size }
    }

    /// The bounding box, for the executable overlap test.
    pub fn rect_exec(&self) -> (r: Rect)
        ensures
            r == self.rect(),
    {
        Rect { x: self.x, y: self.y, size: self.size }
    }

    /// One advance step: move down by `speed`; clear liveness on exiting
    /// the arena bottom. An adversary that is already cleared stays cleared.
    pub fn advance(&mut self, b: Bounds)
        requires
            old(self).wf(),
            b.wf(),
        ensures
            *final(self) == adv_step(*old(self), b),
    {
        self.y = self.y + self.speed;
        if self.y > b.height {
            self.live = false;
        }
    }
}

/// Every adversary in the sequence is well-formed.
pub open spec fn all_advs_wf(s: Seq<Adversary>) -> bool {
    forall|k: int| 0 <= k < s.len() ==> (#[trigger] s[k]).wf()
}

/// The whole sequence advanced one step inside arena `b`.
pub open spec fn advanced_advs(s: Seq<Adversary>, b: Bounds) -> Seq<Adversary> {
    Seq::new(s.len(), |k: int| adv_step(s[k], b))
}

/// The subsequence of live adversaries, in order.
pub open spec fn live_only_a(s: Seq<Adversary>) -> Seq<Adversary>
    decreases s.len(),
{
    if s.len() == 0 {
        Seq::empty()
    } else if s.last().live {
        live_only_a(s.drop_last()).push(s.last())
    } else {
        live_only_a(s.drop_last())
    }
}

/// Pruning only drops elements: the result is no longer than the input, and
/// every element of the result is a live element of the input.
pub proof fn lemma_live_only_a_props(s: Seq<Adversary>)
    ensures
        live_only_a(s).len() <= s.len(),
        forall|k: int|
            0 <= k < live_only_a(s).len() ==> s.contains(#[trigger] live_only_a(s)[k])
                && live_only_a(s)[k].live,
    decreases s.len(),
{
    if s.len() > 0 {
        lemma_live_only_a_props(s.drop_last());
        assert forall|k: int| 0 <= k < live_only_a(s).len() implies s.contains(
            #[trigger] live_only_a(s)[k],
        ) && live_only_a(s)[k].live by {
            let prev = live_only_a(s.drop_last());
            if k < prev.len() {
                let m = choose|m: int| 0 <= m < s.drop_last().len() && s.drop_last()[m] == prev[k];
                assert(s[m] == prev[k]);
            } else {
                assert(s[s.len() - 1] == s.last());
            }
        }
    }
}

/// Advance every adversary one step, in place.
pub fn advance_adversaries(v: &mut Vec<Adversary>, b: Bounds)
    requires
        all_advs_wf(old(v)@),
        b.wf(),
    ensures
        final(v)@ == advanced_advs(old(v)@, b),
{
    let mut i: usize = 0;
    while i < v.len()
        invariant
            0 <= i <= v@.len(),
            v@.len() == old(v)@.len(),
            all_advs_wf(old(v)@),
            b.wf(),
            forall|k: int| 0 <= k < i ==> v@[k] == adv_step(old(v)@[k], b),
            forall|k: int| i <= k < v@.len() ==> v@[k] == old(v)@[k],
        decreases v@.len() - i,
    {
        let mut a = v[i];
        a.advance(b);
        v[i] = a;
        i = i + 1;
    }
    proof {
        assert(v@ =~= advanced_advs(old(v)@, b));
    }
}

/// Remove every adversary whose liveness flag is cleared, keeping order.
pub fn prune_adversaries(v: &mut Vec<Adversary>)
    ensures
        final(v)@ == live_only_a(old(v)@),
{
    let mut out: Vec<Adversary> = Vec::new();
    let mut i: usize = 0;
    while i < v.len()
        invariant
            0 <= i <= v@.len(),
            v@ == old(v)@,
            out@ == live_only_a(v@.take(i as int)),
        decreases v@.len() - i,
    {
        let a = v[i];
        if a.live {
            out.push(a);
        }
        proof {
            assert(v@.take(i + 1 as int).drop_last() =~= v@.take(i as int));
            assert(v@.take(i + 1 as int).last() == v@[i as int]);
        }
        i = i + 1;
    }
    proof {
        assert(v@.take(v@.len() as int) =~= v@);
    }
    *v = out;
}

/// What holds of every freshly spawned adversary, whatever the random draws
/// were: it sits just above the arena with its whole box inside the arena's
/// horizontal span, descends at a speed within the fixed range, is live, and
/// carries one of the cosmetic variant tags.
pub open spec fn spawn_ok(a: Adversary, b: Bounds) -> bool {
    &&& a.size == ENEMY_SIZE
    &&& a.y == -ENEMY_SIZE
    &&& 0 <= a.x <= b.width - ENEMY_SIZE
    &&& ENEMY_SPEED_MIN <= a.speed <= ENEMY_SPEED_MAX
    &&& a.live
    &&& a.tag < ENEMY_VARIANTS
}

} // verus!
