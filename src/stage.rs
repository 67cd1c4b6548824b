use vstd::prelude::*;

verus! {

/// The phases of a frame. They always run in the order in which they are
/// declared here.
#[derive(Clone, Copy, Debug, PartialEq, Eq, Structural, Hash)]
pub enum Stage {
    Startup,
    Main,
    Producers,
    Consumers,
    Renders,
}

/// How many stages a frame has.
pub const STAGE_COUNT: usize = 5;

impl Stage {
    /// The position of the stage in the frame order.
    pub open spec fn rank(self) -> nat {
        match self {
            Stage::Startup => 0,
            Stage::Main => 1,
            Stage::Producers => 2,
            Stage::Consumers => 3,
            Stage::Renders => 4,
        }
    }

    /// The position of the stage in the frame order.
    pub fn index(&self) -> (r: usize)
        ensures
            r == self.rank(),
            r < STAGE_COUNT,
    {
        match self {
            Stage::Startup => 0,
            Stage::Main => 1,
            Stage::Producers => 2,
            Stage::Consumers => 3,
            Stage::Renders => 4,
        }
    }

    /// The stage that runs at position `i` of a frame.
    pub fn from_index(i: usize) -> (r: Stage)
        requires
            i < STAGE_COUNT,
        ensures
            r.rank() == i,
            r == stage_at(i as nat),
    {
        if i == 0 {
            Stage::Startup
        } else if i == 1 {
            Stage::Main
        } else if i == 2 {
            Stage::Producers
        } else if i == 3 {
            Stage::Consumers
        } else {
            Stage::Renders
        }
    }
}

/// The stage at position `i` of a frame (positions past the last give the last).
pub open spec fn stage_at(i: nat) -> Stage {
    if i == 0 {
        Stage::Startup
    } else if i == 1 {
        Stage::Main
    } else if i == 2 {
        Stage::Producers
    } else if i == 3 {
        Stage::Consumers
    } else {
        Stage::Renders
    }
}

/// Each stage stands at its own rank, so the ranks name the stages one for one.
pub proof fn lemma_stage_at_rank(s: Stage)
    ensures
        stage_at(s.rank()) == s,
        s.rank() < STAGE_COUNT,
{
}

/// All stages, in frame order.
pub fn stage_order() -> (r: Vec<Stage>)
    ensures
        r@.len() == STAGE_COUNT,
        forall|i: int| 0 <= i < STAGE_COUNT ==> #[trigger] r@[i] == stage_at(i as nat),
{
    vec![Stage::Startup, Stage::Main, Stage::Producers, Stage::Consumers, Stage::Renders]
}

} // verus!
