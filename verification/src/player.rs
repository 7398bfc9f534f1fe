//! The player entity and its physics.
//!
//! Vertical speed only ever takes whole values: gravity adds 1 per step and
//! caps at 2, and a flap resets it to exactly -2, so it is held as an `i32`.
//! Positive speed points downward.
use vstd::prelude::*;

verus! {

#[derive(Clone, Copy, PartialEq, Eq, Structural, Debug)]
pub struct Player {
    /// World-space column; scrolls forward one column per physics step.
    pub world_x: i32,
    /// Vertical position, clamped to stay non-negative.
    pub y: i32,
    /// Vertical speed, positive downward; always in [-2, 2].
    pub velocity: i32,
}

impl Player {
    /// The player's invariant: the row never goes above the top of the
    /// screen, and the speed stays within the range that gravity and
    /// flapping can produce.
    pub open spec fn wf(self) -> bool {
        &&& self.y >= 0
        &&& -2 <= self.velocity
        &&& self.velocity <= 2
    }

    /// Speed after one step of gravity: +1, capped at 2.
    pub open spec fn stepped_velocity(self) -> int {
        if self.velocity < 2 {
            self.velocity + 1
        } else {
            self.velocity as int
        }
    }

    /// Vertical position after one physics step: move by the new speed,
    /// then clamp at 0.
    pub open spec fn stepped_y(self) -> int {
        if self.y + self.stepped_velocity() < 0 {
            0
        } else {
            self.y + self.stepped_velocity()
        }
    }

    /// `post` is `pre` advanced by exactly one physics step.
    pub open spec fn is_step(pre: Player, post: Player) -> bool {
        &&& post.velocity == pre.stepped_velocity()
        &&& post.y == pre.stepped_y()
        &&& post.world_x == pre.world_x + 1
    }

    pub fn new(x: i32, y: i32) -> (p: Player)
        ensures
            p.world_x == x,
            p.y == y,
            p.velocity == 0,
    {
        Player { world_x: x, y, velocity: 0 }
    }

    /// One physics step: gravity, then vertical motion, then forward
    /// scroll, then the floor clamp.
    pub fn update(&mut self)
        requires
            old(self).wf(),
            old(self).y <= i32::MAX - 2,
            old(self).world_x < i32::MAX,
        ensures
            Player::is_step(*old(self), *final(self)),
            final(self).wf(),
            final(self).velocity >= old(self).velocity,
            final(self).velocity <= 2,
            final(self).y >= 0,
    {
        if self.velocity < 2 {
            self.velocity = self.velocity + 1;
        }
        self.y = self.y + self.velocity;
        self.world_x = self.world_x + 1;
        if self.y < 0 {
            self.y = 0;
        }
    }

    /// Along a trace of consecutive physics steps, well-formedness carries
    /// from the start to every position.
    proof fn lemma_steps_wf(trace: Seq<Player>, k: int)
        requires
            0 <= k < trace.len(),
            trace[0].wf(),
            forall|i: int|
                0 <= i < trace.len() - 1 ==> #[trigger] Player::is_step(trace[i], trace[i + 1]),
        ensures
            trace[k].wf(),
        decreases k,
    {
        if k > 0 {
            Player::lemma_steps_wf(trace, k - 1);
            assert(Player::is_step(trace[k - 1], trace[k - 1 + 1]));
        }
    }

    /// Along such a trace, the speed at an earlier position never exceeds
    /// the speed at a later one.
    proof fn lemma_steps_monotone_pair(trace: Seq<Player>, i: int, j: int)
        requires
            0 <= i <= j < trace.len(),
            trace[0].wf(),
            forall|i: int|
                0 <= i < trace.len() - 1 ==> #[trigger] Player::is_step(trace[i], trace[i + 1]),
        ensures
            trace[i].velocity <= trace[j].velocity,
        decreases j - i,
    {
        if i < j {
            Player::lemma_steps_monotone_pair(trace, i, j - 1);
            Player::lemma_steps_wf(trace, j - 1);
            assert(Player::is_step(trace[j - 1], trace[j - 1 + 1]));
        }
    }

    /// Law: over any sequence of consecutive physics steps with no flap,
    /// starting from a well-formed player, the speed never decreases and is
    /// capped at 2, every state is well-formed, and in particular the row
    /// never goes negative.
    pub proof fn lemma_steps_velocity_monotone(trace: Seq<Player>)
        requires
            trace.len() >= 1,
            trace[0].wf(),
            forall|i: int|
                0 <= i < trace.len() - 1 ==> #[trigger] Player::is_step(trace[i], trace[i + 1]),
        ensures
            forall|i: int| 0 <= i < trace.len() ==> (#[trigger] trace[i]).wf(),
            forall|i: int| 0 <= i < trace.len() ==> (#[trigger] trace[i]).velocity <= 2,
            forall|i: int| 0 <= i < trace.len() ==> (#[trigger] trace[i]).y >= 0,
            forall|i: int, j: int|
                0 <= i <= j < trace.len() ==> trace[i].velocity <= trace[j].velocity,
    {
        assert forall|i: int| 0 <= i < trace.len() implies (#[trigger] trace[i]).wf() by {
            Player::lemma_steps_wf(trace, i);
        }
        assert forall|i: int, j: int|
            0 <= i <= j < trace.len() implies trace[i].velocity <= trace[j].velocity by {
            Player::lemma_steps_monotone_pair(trace, i, j);
        }
    }

    /// A flap sets the speed to exactly -2, whatever it was before.
    pub fn flap(&mut self)
        ensures
            final(self).velocity == -2,
            final(self).y == old(self).y,
            final(self).world_x == old(self).world_x,
    {
        self.velocity = -2;
    }
}

} // verus!
