//! The Transaction Orchestrator: one operation advances through
//! `Built → Estimated → Funded → Signed → {Succeeded | Failed}`. Each step
//! depends on the previous one's result, so the driver performs one outside
//! interaction at a time — the dry run, the coin request, the signing, the
//! submission — and feeds what came back into `advance`, which makes every
//! decision here, verified.

use vstd::prelude::*;

use crate::budget::{estimate_budget, spec_budget, GasSummary};
use crate::errors::Error;
use crate::model::{Address, ObjectRef};
use crate::status::{interpret_execution, ExecutionStatus, TxResponse};
use crate::tx::{admit_gas_coin, coin_admissible, finalize_transaction, Skeleton, TransactionData};

verus! {

/// Where an operation stands. A skeleton is built once; estimation attaches
/// a budget; funding attaches payment and finalizes the transaction; signing
/// and submission are the wallet's, and their results are interpreted here.
#[derive(Debug)]
pub enum OrchestratorState {
    Built { skeleton: Skeleton, sender: Address, sponsor: Option<Address> },
    Estimated {
        skeleton: Skeleton,
        sender: Address,
        sponsor: Option<Address>,
        budget: u64,
        gas_price: u64,
    },
    Funded { tx: TransactionData },
    Signed { tx: TransactionData },
    Succeeded { response: TxResponse },
    Failed { error: Error },
}

/// What the driver hands back after performing the step the current state
/// asks for.
#[derive(Debug)]
pub enum Event {
    /// The reference gas price and the dry run's cost summary; the summary
    /// is absent when the dry run failed.
    Estimated { gas_price: u64, dry_run: Option<GasSummary> },
    /// The coin the wallet collaborator selected; absent when it could not
    /// cover the budget.
    Funded { coin: Option<ObjectRef> },
    /// The wallet signed the finalized transaction.
    Signed,
    /// The submission's outcome: the response, or the transport's error
    /// message.
    Executed { outcome: Result<TxResponse, String> },
}

/// Which events fit which state, and the one machine limit: the budget
/// formula's result must fit in 64 bits.
pub open spec fn advance_allowed(state: OrchestratorState, event: Event) -> bool {
    match (state, event) {
        (
            OrchestratorState::Built { skeleton, sender, sponsor },
            Event::Estimated { gas_price, dry_run },
        ) => match dry_run {
            Some(summary) => spec_budget(gas_price, summary) <= u64::MAX,
            None => true,
        },
        (OrchestratorState::Estimated { .. }, Event::Funded { .. }) => true,
        (OrchestratorState::Funded { .. }, Event::Signed) => true,
        (OrchestratorState::Signed { .. }, Event::Executed { .. }) => true,
        _ => false,
    }
}

/// Advances the operation by one step. Every failure is final and carries
/// the step's own error; nothing is retried.
pub fn advance(state: OrchestratorState, event: Event) -> (r: OrchestratorState)
    requires
        advance_allowed(state, event),
    ensures
        match (state, event) {
            (
                OrchestratorState::Built { skeleton, sender, sponsor },
                Event::Estimated { gas_price, dry_run },
            ) => match dry_run {
                None => r == (OrchestratorState::Failed { error: Error::EstimationFailed }),
                Some(summary) => (r matches OrchestratorState::Estimated {
                    skeleton: sk2,
                    sender: se2,
                    sponsor: sp2,
                    budget,
                    gas_price: gp2,
                } && sk2 == skeleton && se2 == sender && sp2 == sponsor && budget == spec_budget(
                    gas_price,
                    summary,
                ) && gp2 == gas_price),
            },
            (
                OrchestratorState::Estimated { skeleton, sender, sponsor, budget, gas_price },
                Event::Funded { coin },
            ) => match coin {
                None => r == (OrchestratorState::Failed { error: Error::InsufficientFunds }),
                Some(c) => if coin_admissible(skeleton.inputs@, c.id@) {
                    (r matches OrchestratorState::Funded { tx } && tx.skeleton == skeleton
                        && tx.sender == sender && tx.sponsor == sponsor && tx.budget == budget
                        && tx.gas_price == gas_price && tx.payment@.len() == 1 && tx.payment@[0].id@
                        == c.id@ && tx.payment@[0].version == c.version && tx.payment@[0].digest@
                        == c.digest@ && coin_admissible(tx.skeleton.inputs@, tx.payment@[0].id@))
                } else {
                    r == (OrchestratorState::Failed { error: Error::InsufficientFunds })
                },
            },
            (OrchestratorState::Funded { tx }, Event::Signed) => (r matches
                OrchestratorState::Signed { tx: tx2 } && tx2 == tx),
            (OrchestratorState::Signed { tx }, Event::Executed { outcome }) => match outcome {
                Err(msg) => r == (OrchestratorState::Failed { error: Error::Transport(msg) }),
                Ok(resp) => match resp.effects {
                    None => r == (OrchestratorState::Failed { error: Error::NoEffects }),
                    Some(eff) => match eff.status {
                        ExecutionStatus::Failure { error } => r == (OrchestratorState::Failed {
                            error: Error::ExecutionFailed(error),
                        }),
                        ExecutionStatus::Success => (r matches OrchestratorState::Succeeded {
                            response,
                        } && response == resp),
                    },
                },
            },
            _ => true,
        },
{
    match (state, event) {
        (
            OrchestratorState::Built { skeleton, sender, sponsor },
            Event::Estimated { gas_price, dry_run },
        ) => {
            match estimate_budget(gas_price, &dry_run) {
                Err(e) => OrchestratorState::Failed { error: e },
                Ok(budget) => OrchestratorState::Estimated {
                    skeleton,
                    sender,
                    sponsor,
                    budget,
                    gas_price,
                },
            }
        },
        (
            OrchestratorState::Estimated { skeleton, sender, sponsor, budget, gas_price },
            Event::Funded { coin },
        ) => {
            match coin {
                None => OrchestratorState::Failed { error: Error::InsufficientFunds },
                Some(c) => {
                    match admit_gas_coin(&skeleton, c) {
                        None => OrchestratorState::Failed { error: Error::InsufficientFunds },
                        Some(c2) => OrchestratorState::Funded {
                            tx: finalize_transaction(
                                skeleton,
                                sender,
                                c2,
                                budget,
                                gas_price,
                                sponsor,
                            ),
                        },
                    }
                },
            }
        },
        (OrchestratorState::Funded { tx }, Event::Signed) => OrchestratorState::Signed { tx },
        (OrchestratorState::Signed { tx }, Event::Executed { outcome }) => {
            match outcome {
                Err(msg) => OrchestratorState::Failed { error: Error::Transport(msg) },
                Ok(resp) => {
                    match interpret_execution(resp) {
                        Err(e) => OrchestratorState::Failed { error: e },
                        Ok(resp2) => OrchestratorState::Succeeded { response: resp2 },
                    }
                },
            }
        },
        _ => {
            proof {
                assert(false);
            }
            OrchestratorState::Failed { error: Error::NoEffects }
        },
    }
}

} // verus!
