//! The scoring engine: a pure function from (difficulty, streak-derived
//! multiplier tier, flat bonus) to a point value.

use vstd::prelude::*;

use crate::strategem::StrategemDifficulty;

verus! {

/// Streak multiplier tier: a streak of 0-5 earns the first tier, 6-20 the
/// second, 21 and above the third.
#[derive(Debug, Clone, Copy, PartialEq, Eq, Structural)]
pub enum Multiplier {
    First,
    Second,
    Third,
}

/// The tier that a given streak maps to.
pub open spec fn spec_multiplier(streak: nat) -> Multiplier {
    if streak <= 5 {
        Multiplier::First
    } else if streak <= 20 {
        Multiplier::Second
    } else {
        Multiplier::Third
    }
}

/// Numeric rank of a tier, for stating monotonicity.
pub open spec fn tier_rank(tier: Multiplier) -> int {
    match tier {
        Multiplier::First => 0,
        Multiplier::Second => 1,
        Multiplier::Third => 2,
    }
}

/// Numeric rank of a difficulty, for stating monotonicity.
pub open spec fn difficulty_rank(difficulty: StrategemDifficulty) -> int {
    match difficulty {
        StrategemDifficulty::Easy => 0,
        StrategemDifficulty::Medium => 1,
        StrategemDifficulty::Hard => 2,
    }
}

/// The fixed 3x3 base-value table, indexed by difficulty and tier.
pub open spec fn spec_base_value(difficulty: StrategemDifficulty, tier: Multiplier) -> int {
    match (difficulty, tier) {
        (StrategemDifficulty::Easy, Multiplier::First) => 50,
        (StrategemDifficulty::Medium, Multiplier::First) => 75,
        (StrategemDifficulty::Hard, Multiplier::First) => 100,
        (StrategemDifficulty::Easy, Multiplier::Second) => 100,
        (StrategemDifficulty::Medium, Multiplier::Second) => 150,
        (StrategemDifficulty::Hard, Multiplier::Second) => 200,
        (StrategemDifficulty::Easy, Multiplier::Third) => 125,
        (StrategemDifficulty::Medium, Multiplier::Third) => 190,
        (StrategemDifficulty::Hard, Multiplier::Third) => 250,
    }
}

impl Multiplier {
    /// The multiplier tier earned by a streak of consecutive completions.
    pub fn get(streak: usize) -> (tier: Multiplier)
        ensures
            tier == spec_multiplier(streak as nat),
    {
        if streak <= 5 {
            Multiplier::First
        } else if streak <= 20 {
            Multiplier::Second
        } else {
            Multiplier::Third
        }
    }
}

/// Point value awarded for completing a strategem of the given difficulty at
/// the given multiplier tier, plus a flat bonus.
pub fn get_score_value(difficulty: &StrategemDifficulty, tier: Multiplier, bonus: usize) -> (value:
    usize)
    requires
        spec_base_value(*difficulty, tier) + bonus <= usize::MAX,
    ensures
        value == spec_base_value(*difficulty, tier) + bonus,
{
    let base: usize = match (difficulty, tier) {
        (StrategemDifficulty::Easy, Multiplier::First) => 50,
        (StrategemDifficulty::Medium, Multiplier::First) => 75,
        (StrategemDifficulty::Hard, Multiplier::First) => 100,
        (StrategemDifficulty::Easy, Multiplier::Second) => 100,
        (StrategemDifficulty::Medium, Multiplier::Second) => 150,
        (StrategemDifficulty::Hard, Multiplier::Second) => 200,
        (StrategemDifficulty::Easy, Multiplier::Third) => 125,
        (StrategemDifficulty::Medium, Multiplier::Third) => 190,
        (StrategemDifficulty::Hard, Multiplier::Third) => 250,
    };

    base + bonus
}

/// The base-value table never decreases when either the difficulty or the
/// streak tier goes up, so the full score value (base plus a fixed bonus) is
/// monotonic non-decreasing in both arguments.
pub proof fn lemma_score_value_monotonic(
    d1: StrategemDifficulty,
    d2: StrategemDifficulty,
    t1: Multiplier,
    t2: Multiplier,
    bonus: nat,
)
    requires
        difficulty_rank(d1) <= difficulty_rank(d2),
        tier_rank(t1) <= tier_rank(t2),
    ensures
        spec_base_value(d1, t1) + bonus <= spec_base_value(d2, t2) + bonus,
{
}

/// A longer streak never maps to a lower multiplier tier.
pub proof fn lemma_multiplier_monotonic(streak1: nat, streak2: nat)
    requires
        streak1 <= streak2,
    ensures
        tier_rank(spec_multiplier(streak1)) <= tier_rank(spec_multiplier(streak2)),
{
}

} // verus!
