//! A verified client core for a two-player game whose state lives on an
//! object-based ledger.
//!
//! The library holds the decision logic of the client: validating and
//! dispatching a fetched game object, interpreting the outcome of a
//! simulated call, scanning owned-object pages for a capability, deriving a
//! gas budget, selecting a payment coin that does not collide with the
//! transaction's own inputs, and interpreting execution results. All
//! network, wallet and serialisation work is performed by collaborators
//! outside this crate; they hand the library plain values and take plain
//! values back.

pub mod budget;
pub mod capability;
pub mod errors;
pub mod game;
pub mod model;
pub mod object;
pub mod orchestrator;
pub mod outcome;
pub mod status;
pub mod tx;
