//! Interpreting an execution response: a response without an effects record,
//! a reported failure with the ledger's own reason, and — for creation
//! operations — finding the created game in the object-change log.

use vstd::prelude::*;

use crate::errors::Error;
use crate::model::{bytes_equal, ObjectId, TypeTag};
use crate::object::game_type_name;

verus! {

/// The execution status the ledger reports for a submitted transaction.
#[derive(Debug)]
pub enum ExecutionStatus {
    Success,
    Failure { error: String },
}

/// The effects record of an executed transaction, as far as the logic reads
/// it.
#[derive(Debug)]
pub struct Effects {
    pub status: ExecutionStatus,
}

/// One entry of the response's object-change log: a created object with its
/// declared type, or any other change.
#[derive(Debug)]
pub enum ObjectChange {
    Created { type_tag: TypeTag, object_id: ObjectId },
    Other,
}

/// What a submission hands back, reduced to plain values.
#[derive(Debug)]
pub struct TxResponse {
    pub effects: Option<Effects>,
    pub object_changes: Option<Vec<ObjectChange>>,
}

/// Checks the outcome of an executed transaction: no effects record is
/// `NoEffects`; a reported failure is `ExecutionFailed` carrying the
/// ledger's reason verbatim; a success passes the response through
/// unchanged. Nothing is retried.
pub fn interpret_execution(resp: TxResponse) -> (r: Result<TxResponse, Error>)
    ensures
        match resp.effects {
            None => r == Err::<TxResponse, Error>(Error::NoEffects),
            Some(eff) => match eff.status {
                ExecutionStatus::Failure { error } => r == Err::<TxResponse, Error>(
                    Error::ExecutionFailed(error),
                ),
                ExecutionStatus::Success => r == Ok::<TxResponse, Error>(resp),
            },
        },
{
    match &resp.effects {
        None => {
            return Err(Error::NoEffects);
        },
        Some(eff) => {
            match &eff.status {
                ExecutionStatus::Failure { error } => {
                    return Err(Error::ExecutionFailed(error.clone()));
                },
                ExecutionStatus::Success => {},
            }
        },
    }
    Ok(resp)
}

/// Is this change the creation of a game object of the configured package?
pub open spec fn is_created_game(package: Seq<u8>, c: ObjectChange) -> bool {
    match c {
        ObjectChange::Created { type_tag, object_id } => {
            &&& type_tag.package@ == package
            &&& type_tag.name@ == game_type_name()
        },
        ObjectChange::Other => false,
    }
}

/// Shifts a found index by `i`.
pub open spec fn shift_index(r: Option<int>, i: int) -> Option<int> {
    match r {
        Some(k) => Some(k + i),
        None => None,
    }
}

/// The index of the first created game object in the change log, if any.
pub open spec fn first_created_game(package: Seq<u8>, changes: Seq<ObjectChange>) -> Option<int>
    decreases changes.len(),
{
    if changes.len() == 0 {
        None
    } else if is_created_game(package, changes[0]) {
        Some(0)
    } else {
        shift_index(first_created_game(package, changes.drop_first()), 1)
    }
}

/// A prefix without a created game does not change what is found, beyond
/// offsetting the index.
pub proof fn lemma_first_created_prefix(package: Seq<u8>, changes: Seq<ObjectChange>, i: int)
    requires
        0 <= i <= changes.len(),
        forall|j: int| 0 <= j < i ==> !is_created_game(package, #[trigger] changes[j]),
    ensures
        first_created_game(package, changes) == shift_index(
            first_created_game(package, changes.skip(i)),
            i,
        ),
    decreases i,
{
    if i == 0 {
        assert(changes.skip(0) =~= changes);
        match first_created_game(package, changes) {
            Some(k) => {},
            None => {},
        }
    } else {
        lemma_first_created_prefix(package, changes.drop_first(), i - 1);
        assert(changes.drop_first().skip(i - 1) =~= changes.skip(i));
    }
}

/// Scans the object-change log of a successful creation transaction for the
/// created game of the configured package: the first match's identifier, or
/// `GameIdNotFound` when there is none — a success whose log shows no new
/// game is surfaced distinctly from an execution failure.
pub fn find_created_game(package: &ObjectId, changes: &Vec<ObjectChange>) -> (r: Result<
    ObjectId,
    Error,
>)
    ensures
        match first_created_game(package@, changes@) {
            None => r == Err::<ObjectId, Error>(Error::GameIdNotFound),
            Some(k) => {
                &&& 0 <= k < changes@.len()
                &&& changes@[k] matches ObjectChange::Created { type_tag, object_id }
                &&& (r matches Ok(id) && changes@[k] matches ObjectChange::Created {
                    type_tag,
                    object_id,
                } && id@ == object_id@)
            },
        },
{
    let ghost full = first_created_game(package@, changes@);
    let mut i: usize = 0;
    while i < changes.len()
        invariant
            i <= changes@.len(),
            full == first_created_game(package@, changes@),
            forall|j: int| 0 <= j < i ==> !is_created_game(package@, #[trigger] changes@[j]),
        decreases changes@.len() - i,
    {
        proof {
            lemma_first_created_prefix(package@, changes@, i as int);
            assert(changes@.skip(i as int).len() == changes@.len() - i);
            assert(changes@.skip(i as int)[0] == changes@[i as int]);
            assert(changes@.skip(i as int).drop_first() =~= changes@.skip(i as int + 1));
        }
        if let ObjectChange::Created { type_tag, object_id } = &changes[i] {
            let name_ok = type_tag.name == "Game".to_owned();
            if bytes_equal(&type_tag.package.bytes, &package.bytes) && name_ok {
                assert(is_created_game(package@, changes@[i as int]));
                return Ok(object_id.duplicate());
            }
        }
        assert(!is_created_game(package@, changes@[i as int]));
        i = i + 1;
    }
    proof {
        lemma_first_created_prefix(package@, changes@, changes@.len() as int);
        assert(changes@.skip(changes@.len() as int).len() == 0);
    }
    Err(Error::GameIdNotFound)
}

/// Extracts the created game's identifier from a creation transaction's
/// response: a response without an object-change log, or one whose log holds
/// no created game of the configured package, is `GameIdNotFound`.
pub fn game_id_from_response(package: &ObjectId, resp: &TxResponse) -> (r: Result<ObjectId, Error>)
    ensures
        match resp.object_changes {
            None => r == Err::<ObjectId, Error>(Error::GameIdNotFound),
            Some(changes) => match first_created_game(package@, changes@) {
                None => r == Err::<ObjectId, Error>(Error::GameIdNotFound),
                Some(k) => {
                    &&& 0 <= k < changes@.len()
                    &&& changes@[k] matches ObjectChange::Created { type_tag, object_id }
                    &&& (r matches Ok(id) && changes@[k] matches ObjectChange::Created {
                        type_tag,
                        object_id,
                    } && id@ == object_id@)
                },
            },
        },
{
    match &resp.object_changes {
        None => Err(Error::GameIdNotFound),
        Some(changes) => find_created_game(package, changes),
    }
}

} // verus!
