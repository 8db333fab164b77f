//! The player's lane on the three-lane track and how steering input moves it.

use vstd::prelude::*;

verus! {

/// The number of lanes available to the player.
pub const NUM_LANES: usize = 3;

/// The largest lane index (lanes are numbered from zero, left to right).
pub const MAX_LANE_INDEX: usize = 2;

/// The lane one step to the left, staying on lane zero at the left edge.
pub open spec fn left_of(index: nat) -> nat {
    if index == 0 {
        0
    } else {
        (index - 1) as nat
    }
}

/// The lane one step to the right, staying on the last lane at the right edge.
pub open spec fn right_of(index: nat) -> nat {
    if index + 1 > MAX_LANE_INDEX {
        MAX_LANE_INDEX as nat
    } else {
        index + 1
    }
}

/// The player's current lane.
pub struct Lane {
    index: usize,
}

impl Lane {
    #[verifier::type_invariant]
    spec fn inv(self) -> bool {
        self.index < NUM_LANES
    }

    /// The lane index, from zero (leftmost) to `MAX_LANE_INDEX`.
    pub closed spec fn spec_index(self) -> nat {
        self.index as nat
    }

    /// The lane the player starts on: the middle one.
    pub fn new() -> (lane: Lane)
        ensures
            lane.spec_index() == NUM_LANES / 2,
    {
        Lane { index: NUM_LANES / 2 }
    }

    /// The lane index.
    pub fn index(&self) -> (i: usize)
        ensures
            i == self.spec_index(),
            i < NUM_LANES,
    {
        proof {
            use_type_invariant(self);
        }
        self.index
    }

    /// Moves one lane to the left; at the left edge the lane stays.
    pub fn move_left(&mut self)
        ensures
            final(self).spec_index() == left_of(old(self).spec_index()),
    {
        proof {
            use_type_invariant(&*self);
        }
        self.index = self.index.saturating_sub(1);
    }

    /// Moves one lane to the right; at the right edge the lane stays.
    pub fn move_right(&mut self)
        ensures
            final(self).spec_index() == right_of(old(self).spec_index()),
    {
        proof {
            use_type_invariant(&*self);
        }
        let next = self.index.saturating_add(1);
        self.index = if next < MAX_LANE_INDEX {
            next
        } else {
            MAX_LANE_INDEX
        };
    }

    /// Applies one frame of steering input. Steering is ignored while the
    /// input delay runs or when both steering keys are held; otherwise the
    /// left key wins over the right key. Returns whether the input delay must
    /// restart, which is whenever a steering key was obeyed (also at an edge).
    pub fn steer(&mut self, delay_expired: bool, left_pressed: bool, right_pressed: bool) -> (restart_delay: bool)
        ensures
            restart_delay == (delay_expired && (left_pressed != right_pressed)),
            final(self).spec_index() == (if restart_delay && left_pressed {
                left_of(old(self).spec_index())
            } else if restart_delay {
                right_of(old(self).spec_index())
            } else {
                old(self).spec_index()
            }),
    {
        if delay_expired && !(left_pressed && right_pressed) {
            if left_pressed {
                self.move_left();
                true
            } else if right_pressed {
                self.move_right();
                true
            } else {
                false
            }
        } else {
            false
        }
    }
}

impl Default for Lane {
    fn default() -> (lane: Lane)
        ensures
            lane.spec_index() == NUM_LANES / 2,
    {
        Lane::new()
    }
}

/// Stepping left and then right from any lane but the leftmost returns to
/// the lane one started from.
pub proof fn lemma_left_then_right(index: nat)
    requires
        0 < index < NUM_LANES,
    ensures
        right_of(left_of(index)) == index,
{
}

/// Stepping right and then left from any lane but the rightmost returns to
/// the lane one started from.
pub proof fn lemma_right_then_left(index: nat)
    requires
        index < MAX_LANE_INDEX,
    ensures
        left_of(right_of(index)) == index,
{
}

/// Steering never leaves the track: from any lane, a step either way lands on
/// a lane, and at most one lane away.
pub proof fn lemma_steps_stay_on_track(index: nat)
    requires
        index < NUM_LANES,
    ensures
        left_of(index) < NUM_LANES,
        right_of(index) < NUM_LANES,
        left_of(index) <= index <= left_of(index) + 1,
        index <= right_of(index) <= index + 1,
{
}

} // verus!
