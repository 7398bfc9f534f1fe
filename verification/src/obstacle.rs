//! Obstacles: vertical bars with a passable gap, placed ahead of the player.
use vstd::prelude::*;

use crate::SCREEN_HEIGHT;
use crate::player::Player;
use crate::rng::rng_range;
use bracket_lib::random::RandomNumberGenerator;

verus! {

#[derive(Clone, Copy, PartialEq, Eq, Structural, Debug)]
pub struct Obstacle {
    /// World-space column of the obstacle's vertical bar.
    pub world_x: i32,
    /// Center row of the passable gap.
    pub gap_center_y: i32,
    /// Total height of the passable gap; never below 2.
    pub gap_size: i32,
}

/// Gap height for an obstacle spawned at the given score: narrows as the
/// score rises, with a floor of 2 rows.
pub open spec fn spec_gap_size(score: int) -> int {
    if 20 - score >= 2 {
        20 - score
    } else {
        2
    }
}

/// The row lies strictly outside the obstacle's gap interval
/// `[gap_center_y - gap_size/2, gap_center_y + gap_size/2]`.
pub open spec fn outside_gap(ob: Obstacle, row: int) -> bool {
    row < ob.gap_center_y - ob.gap_size / 2 || row > ob.gap_center_y + ob.gap_size / 2
}

/// The player collides with this obstacle exactly when it stands in the
/// obstacle's column and its row lies strictly outside the gap.
pub open spec fn spec_hit(ob: Obstacle, p: Player) -> bool {
    &&& p.world_x == ob.world_x
    &&& outside_gap(ob, p.y as int)
}

/// Law: whatever the score at spawn time, the gap of a freshly spawned
/// obstacle is at least 2 rows high.
pub proof fn lemma_gap_size_floor(score: int)
    ensures
        spec_gap_size(score) >= 2,
{
}

impl Obstacle {
    /// The obstacle's invariant: the gap's center stays well inside the
    /// screen and the gap height lies in [2, 20].
    pub open spec fn wf(self) -> bool {
        &&& 10 <= self.gap_center_y
        &&& self.gap_center_y < SCREEN_HEIGHT - 10
        &&& 2 <= self.gap_size
        &&& self.gap_size <= 20
    }

    /// Makes an obstacle at column `x` for the given score: the gap height
    /// is exactly `max(2, 20 - score)`, and the gap's center is drawn
    /// uniformly from rows `[10, SCREEN_HEIGHT - 10)`.
    pub fn new(rng: &mut RandomNumberGenerator, x: i32, score: i32) -> (ob: Obstacle)
        requires
            score >= 0,
        ensures
            ob.world_x == x,
            ob.gap_size == spec_gap_size(score as int),
            ob.gap_size >= 2,
            ob.wf(),
    {
        let gap_size: i32 = if 20 - score >= 2 {
            20 - score
        } else {
            2
        };
        Obstacle { world_x: x, gap_center_y: rng_range(rng, 10, SCREEN_HEIGHT - 10), gap_size }
    }

    /// True exactly when the player is in this obstacle's column with its
    /// row strictly outside the gap.
    pub fn player_hit(&self, player: &Player) -> (r: bool)
        requires
            self.wf(),
        ensures
            r == spec_hit(*self, *player),
    {
        let half_size = self.gap_size / 2;
        player.world_x == self.world_x
            && (player.y < self.gap_center_y - half_size || player.y > self.gap_center_y + half_size)
    }
}

} // verus!
