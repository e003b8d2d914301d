use dapp_staking_primitives::cycle::{CycleConfiguration, FixedCycleConfiguration};

const MAX: u32 = u32::MAX;
const HALF: u32 = u32::MAX / 2;

type SmallCycle = FixedCycleConfiguration<2, 3, 4, 100>;
type MaxBlocks = FixedCycleConfiguration<1, 1, 1, MAX>;
type MaxEverything = FixedCycleConfiguration<MAX, MAX, MAX, MAX>;
type MaxPeriods = FixedCycleConfiguration<MAX, 2, 5, 10>;
type NearOverflow = FixedCycleConfiguration<2, 1, HALF, 1>;

#[test]
fn derived_lengths_of_small_cycle() {
    assert_eq!(SmallCycle::period_in_era_lengths(), 7);
    assert_eq!(SmallCycle::cycle_in_era_lengths(), 14);
    assert_eq!(SmallCycle::blocks_per_cycle(), 1400);
    assert_eq!(SmallCycle::eras_per_period(), 5);
    assert_eq!(SmallCycle::eras_per_cycle(), 10);
    assert_eq!(SmallCycle::build_and_earn_eras_per_cycle(), 8);
}

#[test]
fn eras_per_period_is_build_and_earn_plus_one() {
    assert_eq!(
        SmallCycle::eras_per_period(),
        SmallCycle::eras_per_build_and_earn_subperiod() + 1
    );
    assert_eq!(
        SmallCycle::eras_per_cycle(),
        SmallCycle::eras_per_period() * SmallCycle::periods_per_cycle()
    );
    assert_eq!(MaxPeriods::eras_per_period(), 6);
}

#[test]
fn period_length_ignores_voting_in_era_count() {
    // A period spans voting plus build&earn eras, but counts build&earn plus one
    // distinct eras.
    assert_eq!(SmallCycle::period_in_era_lengths(), 3 + 4);
    assert_eq!(SmallCycle::eras_per_period(), 4 + 1);
}

#[test]
fn blocks_per_cycle_saturates_on_max_blocks_per_era() {
    assert_eq!(MaxBlocks::cycle_in_era_lengths(), 2);
    assert_eq!(MaxBlocks::blocks_per_cycle(), u32::MAX);
    assert_eq!(MaxBlocks::eras_per_cycle(), 2);
}

#[test]
fn every_derived_length_saturates_at_max() {
    assert_eq!(MaxEverything::period_in_era_lengths(), u32::MAX);
    assert_eq!(MaxEverything::cycle_in_era_lengths(), u32::MAX);
    assert_eq!(MaxEverything::blocks_per_cycle(), u32::MAX);
    assert_eq!(MaxEverything::build_and_earn_eras_per_cycle(), u32::MAX);
    assert_eq!(MaxEverything::eras_per_period(), u32::MAX);
    assert_eq!(MaxEverything::eras_per_cycle(), u32::MAX);
}

#[test]
fn max_periods_saturates_cycle_lengths() {
    assert_eq!(MaxPeriods::period_in_era_lengths(), 7);
    assert_eq!(MaxPeriods::cycle_in_era_lengths(), u32::MAX);
    assert_eq!(MaxPeriods::blocks_per_cycle(), u32::MAX);
    assert_eq!(MaxPeriods::build_and_earn_eras_per_cycle(), u32::MAX);
    assert_eq!(MaxPeriods::eras_per_cycle(), u32::MAX);
}

#[test]
fn products_just_below_and_above_the_maximum() {
    // (MAX / 2) * 2 = MAX - 1 still fits.
    assert_eq!(NearOverflow::build_and_earn_eras_per_cycle(), u32::MAX - 1);
    // (MAX / 2 + 1) * 2 = MAX + 1 does not.
    assert_eq!(NearOverflow::eras_per_period(), u32::MAX / 2 + 1);
    assert_eq!(NearOverflow::eras_per_cycle(), u32::MAX);
    assert_eq!(NearOverflow::period_in_era_lengths(), u32::MAX / 2 + 1);
    assert_eq!(NearOverflow::cycle_in_era_lengths(), u32::MAX);
    assert_eq!(NearOverflow::blocks_per_cycle(), u32::MAX);
}

#[test]
fn base_constants_are_returned_as_given() {
    assert_eq!(SmallCycle::periods_per_cycle(), 2);
    assert_eq!(SmallCycle::eras_per_voting_subperiod(), 3);
    assert_eq!(SmallCycle::eras_per_build_and_earn_subperiod(), 4);
    assert_eq!(SmallCycle::blocks_per_era(), 100);
}

#[test]
fn zero_constants_degenerate_to_zero_lengths() {
    type Empty = FixedCycleConfiguration<0, 0, 0, 0>;
    assert_eq!(Empty::period_in_era_lengths(), 0);
    assert_eq!(Empty::cycle_in_era_lengths(), 0);
    assert_eq!(Empty::blocks_per_cycle(), 0);
    assert_eq!(Empty::build_and_earn_eras_per_cycle(), 0);
    assert_eq!(Empty::eras_per_period(), 1);
    assert_eq!(Empty::eras_per_cycle(), 0);
}

#[test]
fn derived_lengths_are_recomputed_identically() {
    assert_eq!(SmallCycle::blocks_per_cycle(), SmallCycle::blocks_per_cycle());
    assert_eq!(SmallCycle::eras_per_cycle(), SmallCycle::eras_per_cycle());
}
