//! The failure taxonomy of the client core. Every error is surfaced to the
//! caller; none is swallowed or retried here — retry policy, if any, belongs
//! to the transport collaborator.

use vstd::prelude::*;

verus! {

/// What can go wrong along the pipeline, from fetching and decoding a game
/// object to submitting a transaction.
#[derive(Debug)]
pub enum Error {
    /// The transport collaborator reported an error; its message is carried
    /// through untouched.
    Transport(String),
    /// The object fetch reported an error or returned no usable data.
    NotFound,
    /// The fetched object is a package, not a typed data object.
    WrongKind,
    /// The fetched object's type name is not the game's type name.
    WrongType,
    /// The fetched object is declared by a package other than the configured
    /// one.
    WrongPackage,
    /// The object's sub-module names neither of the known game kinds.
    UnrecognisedKind,
    /// The object's binary payload could not be deserialised.
    DecodeError,
    /// The simulated "ended" call returned no value, or a byte outside the
    /// outcome mapping.
    OutcomeUndetermined,
    /// A capability candidate matched the capability type but its payload
    /// could not be deserialised: data corruption, not heterogeneity.
    CorruptCapability,
    /// Every owned-object page was scanned and no capability for the target
    /// game was found: the account is not authorised to move now.
    NoTurn,
    /// The protocol configuration lacks the expected numeric attribute, or
    /// carries it with the wrong kind.
    ConfigUnavailable,
    /// The gas-estimation dry run itself failed.
    EstimationFailed,
    /// The wallet collaborator could not supply a coin covering the budget.
    InsufficientFunds,
    /// The execution response carried no effects record.
    NoEffects,
    /// The ledger reported the transaction as failed; the ledger's own
    /// reason is carried through verbatim.
    ExecutionFailed(String),
    /// A creation transaction succeeded but its object-change log holds no
    /// created object of the configured package and game type.
    GameIdNotFound,
    /// A mutating operation was requested on a game that is not shared.
    NotShared,
}

} // verus!
