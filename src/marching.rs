use vstd::prelude::*;

verus! {

/// Stage of one step of the third-order strong-stability-preserving
/// Runge-Kutta scheme.  Stage `k` computes
/// `Q_k = (a / d) * Q_0 + (b / d) * (Q_{k-1} + dt * RHS(Q_{k-1}))`
/// with `(a, b, d)` the stage's weights, starting from `Q_0`.
#[derive(Clone, Copy, Debug, PartialEq, Eq, Structural)]
pub enum RkStage {
    First,
    Second,
    Third,
}

impl RkStage {
    /// `(a, b, d)`: the weight of the state at the start of the step, the
    /// weight of the updated previous stage, and their common denominator.
    pub open spec fn weights_spec(self) -> (nat, nat, nat) {
        match self {
            RkStage::First => (0, 1, 1),
            RkStage::Second => (3, 1, 4),
            RkStage::Third => (1, 2, 3),
        }
    }

    /// The stage that follows, or none after the last.
    pub open spec fn next_spec(self) -> Option<RkStage> {
        match self {
            RkStage::First => Some(RkStage::Second),
            RkStage::Second => Some(RkStage::Third),
            RkStage::Third => None,
        }
    }

    /// The stage a step starts with.
    pub fn first() -> (r: RkStage)
        ensures
            r == RkStage::First,
    {
        RkStage::First
    }

    /// The stage that follows, or `None` once the step is complete.
    pub fn next(self) -> (r: Option<RkStage>)
        ensures
            r == self.next_spec(),
    {
        match self {
            RkStage::First => Some(RkStage::Second),
            RkStage::Second => Some(RkStage::Third),
            RkStage::Third => None,
        }
    }

    /// The stage's combination weights `(a, b, d)` (see `weights_spec`).
    pub fn weights(self) -> (r: (u64, u64, u64))
        ensures
            r.0 == self.weights_spec().0,
            r.1 == self.weights_spec().1,
            r.2 == self.weights_spec().2,
    {
        match self {
            RkStage::First => (0, 1, 1),
            RkStage::Second => (3, 1, 4),
            RkStage::Third => (1, 2, 3),
        }
    }
}

/// Every stage combines the start state and the updated previous stage with
/// non-negative weights that sum to one, and a step runs exactly three
/// stages before it is complete.
pub proof fn lemma_stages_convex_and_three(s: RkStage)
    ensures
        s.weights_spec().2 > 0,
        s.weights_spec().0 + s.weights_spec().1 == s.weights_spec().2,
        RkStage::First.next_spec() matches Some(s2) && s2.next_spec() matches Some(s3)
            && s3.next_spec() is None,
{
}

} // verus!
