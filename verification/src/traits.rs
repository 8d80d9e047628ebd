//! Pipeline nodes and the life cycle of a pipeline.
use vstd::prelude::*;

verus! {

/// Base trait of all pipeline nodes.
pub trait Node: Send + Sync {
    /// Human-readable name for logging and metrics.
    fn name(&self) -> &str;
}

/// Life cycle of a pipeline.
#[derive(Clone, Copy, Debug, PartialEq, Eq, Structural)]
pub enum PipelineState {
    Initializing,
    Running,
    Draining,
    Terminated,
}

impl PipelineState {
    /// The number that stands for a state.
    pub open spec fn number(self) -> u8 {
        match self {
            PipelineState::Initializing => 0,
            PipelineState::Running => 1,
            PipelineState::Draining => 2,
            PipelineState::Terminated => 3,
        }
    }

    /// The number that stands for a state.
    pub fn as_u8(&self) -> (r: u8)
        ensures
            r == self.number(),
    {
        match self {
            PipelineState::Initializing => 0,
            PipelineState::Running => 1,
            PipelineState::Draining => 2,
            PipelineState::Terminated => 3,
        }
    }

    /// The state that a number stands for.
    pub fn from_u8(n: u8) -> (r: Option<PipelineState>)
        ensures
            match r {
                Some(s) => s.number() == n,
                None => n > 3,
            },
    {
        match n {
            0 => Some(PipelineState::Initializing),
            1 => Some(PipelineState::Running),
            2 => Some(PipelineState::Draining),
            3 => Some(PipelineState::Terminated),
            _ => None,
        }
    }
}

/// States have numbers of their own.
pub proof fn law_state_numbers_are_distinct(a: PipelineState, b: PipelineState)
    requires
        a.number() == b.number(),
    ensures
        a == b,
{
}

/// The numbers count the states in the order that a pipeline goes through them, from
/// zero; a number gives the state back that it stands for, and no other number a state.
pub proof fn law_state_numbers_count_the_life_cycle(
    s: PipelineState,
    n: u8,
    r: Option<PipelineState>,
)
    requires
        call_ensures(PipelineState::as_u8, (&s,), n),
        call_ensures(PipelineState::from_u8, (n,), r),
    ensures
        r == Some(s),
        n < 4,
        n == 0 <==> s == PipelineState::Initializing,
        n == 1 <==> s == PipelineState::Running,
        n == 2 <==> s == PipelineState::Draining,
        n == 3 <==> s == PipelineState::Terminated,
{
}

} // verus!
