//! The Gas Estimator: reads the ledger's maximum transaction budget out of
//! the protocol configuration, and derives the submission budget from a dry
//! run's cost summary as `overhead + max(net_gas_usage, computation_cost)`,
//! with `overhead = 1000 × reference_gas_price`.

use vstd::prelude::*;

use crate::errors::Error;

verus! {

/// A named attribute of the protocol configuration, as far as the logic
/// reads it: a numeric value of some width, or anything else.
#[derive(Debug)]
pub enum ConfigValue {
    U16(u16),
    U32(u32),
    U64(u64),
    Other,
}

/// Reads the maximum allowed transaction budget out of the configuration's
/// attribute lookup: the attribute must be present and carry a 64-bit value;
/// anything else is `ConfigUnavailable`. The outer option is the lookup, the
/// inner one the attribute's recorded value.
pub fn max_budget_from_config(attr: Option<Option<ConfigValue>>) -> (r: Result<u64, Error>)
    ensures
        match attr {
            Some(Some(ConfigValue::U64(max))) => r == Ok::<u64, Error>(max),
            _ => r == Err::<u64, Error>(Error::ConfigUnavailable),
        },
{
    match attr {
        Some(Some(ConfigValue::U64(max))) => Ok(max),
        _ => Err(Error::ConfigUnavailable),
    }
}

/// The cost summary of a dry run: the computation cost, and the net gas
/// usage, which is negative when the rebate exceeds the costs.
#[derive(Debug)]
pub struct GasSummary {
    pub computation_cost: u64,
    pub net_gas_usage: i64,
}

/// The submission budget derived from a dry run at a given reference gas
/// price: an overhead of a thousand times the price, plus the larger of the
/// computation cost and the net usage (a negative net usage counts as zero).
pub open spec fn spec_budget(gas_price: u64, summary: GasSummary) -> int {
    let net = if summary.net_gas_usage >= 0 {
        summary.net_gas_usage as int
    } else {
        0
    };
    let used = if net > summary.computation_cost as int {
        net
    } else {
        summary.computation_cost as int
    };
    1000 * gas_price + used
}

/// Computes the submission budget. The result always covers the overhead.
pub fn compute_budget(gas_price: u64, summary: &GasSummary) -> (r: u64)
    requires
        spec_budget(gas_price, *summary) <= u64::MAX,
    ensures
        r == spec_budget(gas_price, *summary),
        r >= 1000 * gas_price,
{
    let overhead: u64 = 1000 * gas_price;
    let net: u64 = if summary.net_gas_usage >= 0 {
        summary.net_gas_usage as u64
    } else {
        0
    };
    let used: u64 = if net > summary.computation_cost {
        net
    } else {
        summary.computation_cost
    };
    overhead + used
}

/// Turns a dry run's outcome into a budget: a dry run that produced no cost
/// summary is `EstimationFailed`; otherwise the budget formula applies.
pub fn estimate_budget(gas_price: u64, dry_run: &Option<GasSummary>) -> (r: Result<u64, Error>)
    requires
        (*dry_run) matches Some(summary) ==> spec_budget(gas_price, summary) <= u64::MAX,
    ensures
        match *dry_run {
            None => r == Err::<u64, Error>(Error::EstimationFailed),
            Some(summary) => r == Ok::<u64, Error>((spec_budget(gas_price, summary) as u64)),
        },
{
    match dry_run {
        None => Err(Error::EstimationFailed),
        Some(summary) => Ok(compute_budget(gas_price, summary)),
    }
}

} // verus!
