use tictactoe_client::budget::{
    compute_budget, estimate_budget, max_budget_from_config, ConfigValue, GasSummary,
};
use tictactoe_client::errors::Error;

#[test]
fn budget_is_overhead_plus_larger_cost() {
    let summary = GasSummary { computation_cost: 500000, net_gas_usage: 200000 };
    assert_eq!(compute_budget(1000, &summary), 1_500_000);
}

#[test]
fn budget_uses_net_usage_when_it_dominates() {
    let summary = GasSummary { computation_cost: 200000, net_gas_usage: 500000 };
    assert_eq!(compute_budget(1000, &summary), 1_500_000);
}

#[test]
fn negative_net_usage_counts_as_zero() {
    let summary = GasSummary { computation_cost: 300, net_gas_usage: -4000 };
    assert_eq!(compute_budget(2, &summary), 2000 + 300);
}

#[test]
fn budget_always_covers_the_overhead() {
    let summary = GasSummary { computation_cost: 0, net_gas_usage: -1 };
    assert_eq!(compute_budget(7, &summary), 7000);
}

#[test]
fn failed_dry_run_is_estimation_failed() {
    let e = estimate_budget(1000, &None).unwrap_err();
    assert!(matches!(e, Error::EstimationFailed));
}

#[test]
fn successful_dry_run_yields_the_formula() {
    let summary = GasSummary { computation_cost: 500000, net_gas_usage: 200000 };
    assert_eq!(estimate_budget(1000, &Some(summary)).unwrap(), 1_500_000);
}

#[test]
fn present_u64_attribute_is_the_maximum() {
    let r = max_budget_from_config(Some(Some(ConfigValue::U64(50_000_000_000))));
    assert_eq!(r.unwrap(), 50_000_000_000);
}

#[test]
fn absent_attribute_is_config_unavailable() {
    assert!(matches!(max_budget_from_config(None).unwrap_err(), Error::ConfigUnavailable));
    assert!(matches!(max_budget_from_config(Some(None)).unwrap_err(), Error::ConfigUnavailable));
}

#[test]
fn wrong_kind_attribute_is_config_unavailable() {
    let r = max_budget_from_config(Some(Some(ConfigValue::U32(7))));
    assert!(matches!(r.unwrap_err(), Error::ConfigUnavailable));
    let r = max_budget_from_config(Some(Some(ConfigValue::Other)));
    assert!(matches!(r.unwrap_err(), Error::ConfigUnavailable));
}
