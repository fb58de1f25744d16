//! The capability shared by everything that stands on the battlefield.

use vstd::prelude::*;
use crate::constants::{POS_TO_WORLD, POS_BOUND};

verus! {

/// An entity with a place on the battlefield's single horizontal axis.
///
/// Both combat units and bases implement this, so that range checks and
/// rendering can use one world-position formula for either.
pub trait Position {
    /// The entity's normalized position, in position units
    /// (`NORM_ONE` per map width).
    spec fn norm_pos(&self) -> int;

    /// The positions on which the world-position arithmetic is exact:
    /// within `[-POS_BOUND, POS_BOUND]`.
    spec fn pos_wf(&self) -> bool;

    /// A well-formed position is bounded.
    proof fn pos_wf_bound(&self)
        requires
            self.pos_wf(),
        ensures
            -POS_BOUND <= self.norm_pos() <= POS_BOUND,
    ;

    /// The entity's world position: its normalized position scaled by
    /// `MAP_SCALE`, in world fixed-point units (`WORLD_UNIT` per world unit).
    fn position(&self) -> (p: i64)
        requires
            self.pos_wf(),
        ensures
            p == self.norm_pos() * POS_TO_WORLD,
    ;
}

} // verus!
