//! Lengths of cycles, periods, subperiods and eras.
//!
//! * cycle - time unit similar to a year; it consists of one or more periods,
//!   and inflation is recalculated at its beginning.
//! * period - a voting subperiod followed by a build&earn subperiod, measured
//!   in standard eras.
//! * era - the basic time unit of the protocol, measured in blocks; reward
//!   pools for stakers and dApps are calculated at the end of each era.

use vstd::prelude::*;

use crate::saturating::{clamp_u32, lemma_clamp_u32_mul, saturating_mul_u32};
use crate::{BlockNumber, EraNumber, PeriodNumber};

verus! {

/// Configuration for cycles, periods, subperiods and eras.
///
/// An implementation supplies the four base constants, both as values and as
/// spec functions that name them; every derived length is recomputed from them
/// on each call, with saturating arithmetic.
pub trait CycleConfiguration {
    /// The value returned by `periods_per_cycle`.
    spec fn spec_periods_per_cycle() -> PeriodNumber;

    /// The value returned by `eras_per_voting_subperiod`.
    spec fn spec_eras_per_voting_subperiod() -> EraNumber;

    /// The value returned by `eras_per_build_and_earn_subperiod`.
    spec fn spec_eras_per_build_and_earn_subperiod() -> EraNumber;

    /// The value returned by `blocks_per_era`.
    spec fn spec_blocks_per_era() -> BlockNumber;

    /// How many different periods are there in a cycle (a 'year').
    ///
    /// This value has to be at least 1.
    fn periods_per_cycle() -> (r: PeriodNumber)
        ensures
            r == Self::spec_periods_per_cycle(),
    ;

    /// For how many standard era lengths does the voting subperiod last.
    ///
    /// This value has to be at least 1.
    fn eras_per_voting_subperiod() -> (r: EraNumber)
        ensures
            r == Self::spec_eras_per_voting_subperiod(),
    ;

    /// How many standard eras are there in the build&earn subperiod.
    ///
    /// This value has to be at least 1.
    fn eras_per_build_and_earn_subperiod() -> (r: EraNumber)
        ensures
            r == Self::spec_eras_per_build_and_earn_subperiod(),
    ;

    /// How many blocks are there per standard era.
    ///
    /// This value has to be at least 1.
    fn blocks_per_era() -> (r: BlockNumber)
        ensures
            r == Self::spec_blocks_per_era(),
    ;

    /// For how many standard era lengths does the period last.
    fn period_in_era_lengths() -> (r: EraNumber)
        ensures
            r == period_in_era_lengths_of(
                Self::spec_eras_per_voting_subperiod(),
                Self::spec_eras_per_build_and_earn_subperiod(),
            ),
    {
        Self::eras_per_voting_subperiod().saturating_add(Self::eras_per_build_and_earn_subperiod())
    }

    /// For how many standard era lengths does the cycle (a 'year') last.
    fn cycle_in_era_lengths() -> (r: EraNumber)
        ensures
            r == cycle_in_era_lengths_of(
                Self::spec_eras_per_voting_subperiod(),
                Self::spec_eras_per_build_and_earn_subperiod(),
                Self::spec_periods_per_cycle(),
            ),
    {
        saturating_mul_u32(Self::period_in_era_lengths(), Self::periods_per_cycle())
    }

    /// How many blocks are there per cycle (a 'year').
    fn blocks_per_cycle() -> (r: BlockNumber)
        ensures
            r == blocks_per_cycle_of(
                Self::spec_eras_per_voting_subperiod(),
                Self::spec_eras_per_build_and_earn_subperiod(),
                Self::spec_periods_per_cycle(),
                Self::spec_blocks_per_era(),
            ),
    {
        saturating_mul_u32(Self::blocks_per_era(), Self::cycle_in_era_lengths())
    }

    /// For how many standard era lengths do all the build&earn subperiods in a
    /// cycle last.
    fn build_and_earn_eras_per_cycle() -> (r: EraNumber)
        ensures
            r == build_and_earn_eras_per_cycle_of(
                Self::spec_eras_per_build_and_earn_subperiod(),
                Self::spec_periods_per_cycle(),
            ),
    {
        saturating_mul_u32(Self::eras_per_build_and_earn_subperiod(), Self::periods_per_cycle())
    }

    /// How many distinct eras are there in a single period.
    fn eras_per_period() -> (r: EraNumber)
        ensures
            r == eras_per_period_of(Self::spec_eras_per_build_and_earn_subperiod()),
    {
        Self::eras_per_build_and_earn_subperiod().saturating_add(1)
    }

    /// How many distinct eras are there in a cycle.
    fn eras_per_cycle() -> (r: EraNumber)
        ensures
            r == eras_per_cycle_of(
                Self::spec_eras_per_build_and_earn_subperiod(),
                Self::spec_periods_per_cycle(),
            ),
    {
        saturating_mul_u32(Self::eras_per_period(), Self::periods_per_cycle())
    }
}

/// A cycle configuration given by its four base constants.
pub struct FixedCycleConfiguration<
    const PERIODS_PER_CYCLE: u32,
    const ERAS_PER_VOTING_SUBPERIOD: u32,
    const ERAS_PER_BUILD_AND_EARN_SUBPERIOD: u32,
    const BLOCKS_PER_ERA: u32,
>;

impl<
    const PERIODS_PER_CYCLE: u32,
    const ERAS_PER_VOTING_SUBPERIOD: u32,
    const ERAS_PER_BUILD_AND_EARN_SUBPERIOD: u32,
    const BLOCKS_PER_ERA: u32,
> CycleConfiguration for FixedCycleConfiguration<
    PERIODS_PER_CYCLE,
    ERAS_PER_VOTING_SUBPERIOD,
    ERAS_PER_BUILD_AND_EARN_SUBPERIOD,
    BLOCKS_PER_ERA,
> {
    open spec fn spec_periods_per_cycle() -> PeriodNumber {
        PERIODS_PER_CYCLE
    }

    open spec fn spec_eras_per_voting_subperiod() -> EraNumber {
        ERAS_PER_VOTING_SUBPERIOD
    }

    open spec fn spec_eras_per_build_and_earn_subperiod() -> EraNumber {
        ERAS_PER_BUILD_AND_EARN_SUBPERIOD
    }

    open spec fn spec_blocks_per_era() -> BlockNumber {
        BLOCKS_PER_ERA
    }

    fn periods_per_cycle() -> (r: PeriodNumber) {
        PERIODS_PER_CYCLE
    }

    fn eras_per_voting_subperiod() -> (r: EraNumber) {
        ERAS_PER_VOTING_SUBPERIOD
    }

    fn eras_per_build_and_earn_subperiod() -> (r: EraNumber) {
        ERAS_PER_BUILD_AND_EARN_SUBPERIOD
    }

    fn blocks_per_era() -> (r: BlockNumber) {
        BLOCKS_PER_ERA
    }
}

/// Voting plus build&earn eras, saturated.
pub open spec fn period_in_era_lengths_of(voting: EraNumber, build_and_earn: EraNumber) -> EraNumber {
    clamp_u32(voting as nat + build_and_earn as nat)
}

/// Period length in eras times periods per cycle, saturated.
pub open spec fn cycle_in_era_lengths_of(
    voting: EraNumber,
    build_and_earn: EraNumber,
    periods: PeriodNumber,
) -> EraNumber {
    clamp_u32(period_in_era_lengths_of(voting, build_and_earn) as nat * periods as nat)
}

/// Blocks per era times cycle length in eras, saturated.
pub open spec fn blocks_per_cycle_of(
    voting: EraNumber,
    build_and_earn: EraNumber,
    periods: PeriodNumber,
    blocks: BlockNumber,
) -> BlockNumber {
    clamp_u32(blocks as nat * cycle_in_era_lengths_of(voting, build_and_earn, periods) as nat)
}

/// Build&earn eras per subperiod times periods per cycle, saturated.
pub open spec fn build_and_earn_eras_per_cycle_of(
    build_and_earn: EraNumber,
    periods: PeriodNumber,
) -> EraNumber {
    clamp_u32(build_and_earn as nat * periods as nat)
}

/// Build&earn eras per subperiod plus one, saturated.
pub open spec fn eras_per_period_of(build_and_earn: EraNumber) -> EraNumber {
    clamp_u32(build_and_earn as nat + 1)
}

/// Eras per period times periods per cycle, saturated.
pub open spec fn eras_per_cycle_of(build_and_earn: EraNumber, periods: PeriodNumber) -> EraNumber {
    clamp_u32(eras_per_period_of(build_and_earn) as nat * periods as nat)
}

/// Each derived length is the exact mathematical value of its formula over
/// the base constants, clamped to `u32::MAX`: saturating at every step gives
/// the same result as computing exactly and saturating once.
pub proof fn lemma_derived_lengths_exact(
    voting: EraNumber,
    build_and_earn: EraNumber,
    periods: PeriodNumber,
    blocks: BlockNumber,
)
    ensures
        period_in_era_lengths_of(voting, build_and_earn) == clamp_u32(
            voting as nat + build_and_earn as nat,
        ),
        cycle_in_era_lengths_of(voting, build_and_earn, periods) == clamp_u32(
            (voting as nat + build_and_earn as nat) * periods as nat,
        ),
        blocks_per_cycle_of(voting, build_and_earn, periods, blocks) == clamp_u32(
            blocks as nat * ((voting as nat + build_and_earn as nat) * periods as nat),
        ),
        build_and_earn_eras_per_cycle_of(build_and_earn, periods) == clamp_u32(
            build_and_earn as nat * periods as nat,
        ),
        eras_per_period_of(build_and_earn) == clamp_u32(build_and_earn as nat + 1),
        eras_per_cycle_of(build_and_earn, periods) == clamp_u32(
            (build_and_earn as nat + 1) * periods as nat,
        ),
{
    let period: nat = voting as nat + build_and_earn as nat;
    let cycle: nat = period * periods as nat;
    lemma_clamp_u32_mul(period, periods as nat);
    lemma_clamp_u32_mul(cycle, blocks as nat);
    lemma_clamp_u32_mul(build_and_earn as nat + 1, periods as nat);
}

/// For a valid configuration, a period has one era more than its build&earn
/// subperiod, and a cycle has as many eras as a period times the number of
/// periods, whenever these values fit in an `EraNumber`.
pub proof fn lemma_eras_per_period_and_cycle(build_and_earn: EraNumber, periods: PeriodNumber)
    requires
        build_and_earn >= 1,
        periods >= 1,
    ensures
        build_and_earn < u32::MAX ==> eras_per_period_of(build_and_earn) == build_and_earn + 1,
        eras_per_period_of(build_and_earn) as nat * periods as nat <= u32::MAX ==> eras_per_cycle_of(
            build_and_earn,
            periods,
        ) == eras_per_period_of(build_and_earn) * periods,
{
}

/// For a valid configuration, a base constant at `u32::MAX` drives every
/// derived length that depends on it to `u32::MAX`, without wrapping.
pub proof fn lemma_derived_lengths_saturate(
    voting: EraNumber,
    build_and_earn: EraNumber,
    periods: PeriodNumber,
    blocks: BlockNumber,
)
    requires
        voting >= 1,
        build_and_earn >= 1,
        periods >= 1,
        blocks >= 1,
    ensures
        voting == u32::MAX || build_and_earn == u32::MAX ==> {
            &&& period_in_era_lengths_of(voting, build_and_earn) == u32::MAX
            &&& cycle_in_era_lengths_of(voting, build_and_earn, periods) == u32::MAX
            &&& blocks_per_cycle_of(voting, build_and_earn, periods, blocks) == u32::MAX
        },
        build_and_earn == u32::MAX ==> {
            &&& build_and_earn_eras_per_cycle_of(build_and_earn, periods) == u32::MAX
            &&& eras_per_period_of(build_and_earn) == u32::MAX
            &&& eras_per_cycle_of(build_and_earn, periods) == u32::MAX
        },
        periods == u32::MAX ==> {
            &&& cycle_in_era_lengths_of(voting, build_and_earn, periods) == u32::MAX
            &&& blocks_per_cycle_of(voting, build_and_earn, periods, blocks) == u32::MAX
            &&& build_and_earn_eras_per_cycle_of(build_and_earn, periods) == u32::MAX
            &&& eras_per_cycle_of(build_and_earn, periods) == u32::MAX
        },
        blocks == u32::MAX ==> blocks_per_cycle_of(voting, build_and_earn, periods, blocks)
            == u32::MAX,
{
    lemma_derived_lengths_exact(voting, build_and_earn, periods, blocks);
    let v = voting as nat;
    let b = build_and_earn as nat;
    let p = periods as nat;
    let e = blocks as nat;
    assert((v + b) * p >= v + b && (v + b) * p >= p) by (nonlinear_arith)
        requires
            v >= 1,
            b >= 1,
            p >= 1,
    ;
    assert(e * ((v + b) * p) >= (v + b) * p && e * ((v + b) * p) >= e) by (nonlinear_arith)
        requires
            e >= 1,
            (v + b) * p >= 1,
    ;
    assert(b * p >= b && b * p >= p) by (nonlinear_arith)
        requires
            b >= 1,
            p >= 1,
    ;
    assert((b + 1) * p >= b + 1 && (b + 1) * p >= p) by (nonlinear_arith)
        requires
            b >= 1,
            p >= 1,
    ;
}

} // verus!
