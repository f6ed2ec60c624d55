//! The Outcome Resolver: interprets the single return value of a read-only
//! simulated call against the game's "ended" entry point as a game outcome.
//! Building the call and running the simulation are the transport's work;
//! this module maps what comes back.

use vstd::prelude::*;

use crate::errors::Error;

verus! {

/// The outcome of a game, decoded from a single byte: `0` means nobody has
/// won yet, `1` a draw, `2` a win.
#[derive(PartialEq, Eq, Structural, Clone, Copy, Debug)]
pub enum Winner {
    Nobody,
    Draw,
    Win,
}

/// The outcome mapping: total over `{0, 1, 2}`, a hard failure for every
/// other byte.
pub open spec fn winner_of_byte(b: u8) -> Result<Winner, Error> {
    if b == 0 {
        Ok(Winner::Nobody)
    } else if b == 1 {
        Ok(Winner::Draw)
    } else if b == 2 {
        Ok(Winner::Win)
    } else {
        Err(Error::OutcomeUndetermined)
    }
}

/// Maps the byte returned by the simulated call to a `Winner`.
pub fn winner_from_byte(b: u8) -> (r: Result<Winner, Error>)
    ensures
        r == winner_of_byte(b),
{
    match b {
        0 => Ok(Winner::Nobody),
        1 => Ok(Winner::Draw),
        2 => Ok(Winner::Win),
        _ => Err(Error::OutcomeUndetermined),
    }
}

/// The outcome mapping is total over `{0, 1, 2}` and fails with
/// `OutcomeUndetermined` for every other byte value.
pub proof fn lemma_outcome_mapping_total(b: u8)
    ensures
        b <= 2 ==> winner_of_byte(b) is Ok,
        winner_of_byte(0) == Ok::<Winner, Error>(Winner::Nobody),
        winner_of_byte(1) == Ok::<Winner, Error>(Winner::Draw),
        winner_of_byte(2) == Ok::<Winner, Error>(Winner::Win),
        b > 2 ==> winner_of_byte(b) == Err::<Winner, Error>(Error::OutcomeUndetermined),
{
}

/// The values one executed call of a simulated transaction returned, each as
/// its raw bytes.
#[derive(Debug)]
pub struct CallResult {
    pub return_values: Vec<Vec<u8>>,
}

/// What the simulation collaborator reports: per-call results, absent when
/// the simulation could not produce any.
#[derive(Debug)]
pub struct InspectResults {
    pub results: Option<Vec<CallResult>>,
}

/// The first byte of the first return value of the first call, if every
/// level is present and non-empty.
pub open spec fn first_return_byte(res: InspectResults) -> Option<u8> {
    match res.results {
        None => None,
        Some(calls) => if calls@.len() == 0 {
            None
        } else if calls@[0].return_values@.len() == 0 {
            None
        } else if calls@[0].return_values@[0]@.len() == 0 {
            None
        } else {
            Some(calls@[0].return_values@[0]@[0])
        },
    }
}

/// Reads the game's outcome out of the simulation results: the first byte of
/// the single call's single return value, mapped through the outcome byte
/// mapping. A missing return value is `OutcomeUndetermined` — a hard
/// failure, never silently read as "game ongoing".
pub fn extract_winner(res: &InspectResults) -> (r: Result<Winner, Error>)
    ensures
        match first_return_byte(*res) {
            None => r == Err::<Winner, Error>(Error::OutcomeUndetermined),
            Some(b) => r == winner_of_byte(b),
        },
{
    let Some(calls) = &res.results else {
        return Err(Error::OutcomeUndetermined);
    };
    if calls.len() == 0 {
        return Err(Error::OutcomeUndetermined);
    }
    let first_call = &calls[0];
    if first_call.return_values.len() == 0 {
        return Err(Error::OutcomeUndetermined);
    }
    let value = &first_call.return_values[0];
    if value.len() == 0 {
        return Err(Error::OutcomeUndetermined);
    }
    winner_from_byte(value[0])
}

} // verus!
