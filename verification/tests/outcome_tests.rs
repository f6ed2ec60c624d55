use tictactoe_client::errors::Error;
use tictactoe_client::outcome::{extract_winner, winner_from_byte, CallResult, InspectResults, Winner};

#[test]
fn outcome_mapping_is_total_over_the_three_bytes() {
    assert_eq!(winner_from_byte(0).unwrap(), Winner::Nobody);
    assert_eq!(winner_from_byte(1).unwrap(), Winner::Draw);
    assert_eq!(winner_from_byte(2).unwrap(), Winner::Win);
}

#[test]
fn outcome_mapping_fails_for_any_other_byte() {
    assert!(matches!(winner_from_byte(3).unwrap_err(), Error::OutcomeUndetermined));
    assert!(matches!(winner_from_byte(4).unwrap_err(), Error::OutcomeUndetermined));
    assert!(matches!(winner_from_byte(255).unwrap_err(), Error::OutcomeUndetermined));
}

#[test]
fn first_return_byte_decides_the_winner() {
    let res = InspectResults {
        results: Some(vec![CallResult { return_values: vec![vec![2, 0]] }]),
    };
    assert_eq!(extract_winner(&res).unwrap(), Winner::Win);
}

#[test]
fn absent_results_are_undetermined() {
    let res = InspectResults { results: None };
    assert!(matches!(extract_winner(&res).unwrap_err(), Error::OutcomeUndetermined));
}

#[test]
fn empty_return_values_are_undetermined() {
    let res = InspectResults { results: Some(vec![CallResult { return_values: vec![] }]) };
    assert!(matches!(extract_winner(&res).unwrap_err(), Error::OutcomeUndetermined));
}

#[test]
fn empty_first_value_is_undetermined() {
    let res = InspectResults { results: Some(vec![CallResult { return_values: vec![vec![]] }]) };
    assert!(matches!(extract_winner(&res).unwrap_err(), Error::OutcomeUndetermined));
}

#[test]
fn out_of_range_byte_is_undetermined_not_ongoing() {
    let res = InspectResults {
        results: Some(vec![CallResult { return_values: vec![vec![3]] }]),
    };
    assert!(matches!(extract_winner(&res).unwrap_err(), Error::OutcomeUndetermined));
}
