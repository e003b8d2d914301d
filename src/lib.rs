//! Time accounting and reward-pool interfaces of a dApp staking protocol.
//!
//! Time is organised in cycles, each made of periods; a period is a voting
//! subperiod followed by a build&earn subperiod, both measured in eras, and an
//! era is measured in blocks. The derived lengths of [`cycle::CycleConfiguration`]
//! are computed with saturating arithmetic and proved to equal the exact
//! mathematical value clamped at the maximum of the type.

use vstd::prelude::*;

pub mod saturating;
pub mod cycle;
pub mod weight;
pub mod observer;
pub mod reward;
pub mod account;
pub mod contract;

verus! {

/// Era number type.
pub type EraNumber = u32;

/// Period number type.
pub type PeriodNumber = u32;

/// Dapp Id type.
pub type DAppId = u16;

/// Tier Id type.
pub type TierId = u8;

/// Block number type of the chain.
pub type BlockNumber = u32;

/// Balance type of the chain.
pub type Balance = u128;

} // verus!
