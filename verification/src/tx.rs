//! Transaction skeletons: the ordered inputs and calls of a ledger
//! transaction, built once per operation and immutable thereafter, plus the
//! exclusion and coin-admission rules of the Coin Selector and the final
//! assembly into submittable transaction data.

use vstd::prelude::*;

use crate::errors::Error;
use crate::game::SharedGame;
use crate::model::{bytes_equal, copy_bytes, Address, ObjectId, ObjectRef, Ownership};
use crate::object::{owned_module_name, shared_module_name, GameTag, ValidatedGame};

verus! {

/// One input of a transaction: a pure value (already encoded as bytes), an
/// exclusively referenced object at an exact version, or a shared object
/// referenced by id and initial shared version with a mutability flag.
#[derive(Debug)]
pub enum InputArg {
    Pure(Vec<u8>),
    ImmOrOwnedObject(ObjectRef),
    SharedObject { id: ObjectId, initial_shared_version: u64, mutable: bool },
}

/// One call into the game's package: the target entry point and the indices
/// of the inputs passed to it.
#[derive(Debug)]
pub struct MoveCall {
    pub package: ObjectId,
    pub module: String,
    pub function: String,
    pub args: Vec<usize>,
}

/// An ordered sequence of inputs and calls, finalized once built.
#[derive(Debug)]
pub struct Skeleton {
    pub inputs: Vec<InputArg>,
    pub calls: Vec<MoveCall>,
}

/// Well-formedness: every call argument indexes an existing input.
pub open spec fn skeleton_wf(s: Skeleton) -> bool {
    forall|c: int, a: int|
        0 <= c < s.calls@.len() && 0 <= a < s.calls@[c].args@.len() ==> (#[trigger] s.calls@[c].args@[a])
            < s.inputs@.len()
}

/// The identifiers of the skeleton's exclusively referenced (owned) inputs.
/// A coin-selection request must exclude exactly these, so that no object is
/// used both as payment and as a logical input.
pub open spec fn owned_input_ids(inputs: Seq<InputArg>) -> Set<Seq<u8>> {
    Set::new(
        |id: Seq<u8>|
            exists|k: int|
                0 <= k < inputs.len() && (#[trigger] inputs[k]) is ImmOrOwnedObject
                    && inputs[k]->ImmOrOwnedObject_0.id@ == id,
    )
}

/// A coin may pay for the transaction only if its id is not among the
/// skeleton's owned inputs.
pub open spec fn coin_admissible(inputs: Seq<InputArg>, id: Seq<u8>) -> bool {
    !owned_input_ids(inputs).contains(id)
}

/// Collects the identifiers a coin-selection request must exclude: exactly
/// the ids of the skeleton's exclusively referenced inputs. Shared inputs
/// are not excluded — they cannot double as payment.
pub fn exclusions(s: &Skeleton) -> (r: Vec<ObjectId>)
    ensures
        forall|j: int| 0 <= j < r@.len() ==> owned_input_ids(s.inputs@).contains(#[trigger] r@[j]@),
        forall|id: Seq<u8>|
            owned_input_ids(s.inputs@).contains(id) ==> exists|j: int|
                0 <= j < r@.len() && (#[trigger] r@[j]@) == id,
{
    let mut r: Vec<ObjectId> = Vec::new();
    let mut i: usize = 0;
    while i < s.inputs.len()
        invariant
            i <= s.inputs@.len(),
            forall|j: int|
                0 <= j < r@.len() ==> owned_input_ids(s.inputs@).contains(#[trigger] r@[j]@),
            forall|k: int|
                0 <= k < i && (#[trigger] s.inputs@[k]) is ImmOrOwnedObject ==> exists|j: int|
                    0 <= j < r@.len() && (#[trigger] r@[j]@)
                        == s.inputs@[k]->ImmOrOwnedObject_0.id@,
        decreases s.inputs@.len() - i,
    {
        let ghost old_r = r@;
        if let InputArg::ImmOrOwnedObject(oref) = &s.inputs[i] {
            let id = oref.id.duplicate();
            r.push(id);
            assert(owned_input_ids(s.inputs@).contains(r@[r@.len() - 1]@)) by {
                assert(s.inputs@[i as int] is ImmOrOwnedObject
                    && s.inputs@[i as int]->ImmOrOwnedObject_0.id@ == r@[r@.len() - 1]@);
            }
        }
        proof {
            assert forall|k: int|
                0 <= k < i + 1 && (#[trigger] s.inputs@[k]) is ImmOrOwnedObject implies exists|
                j: int,
            |
                0 <= j < r@.len() && (#[trigger] r@[j]@)
                    == s.inputs@[k]->ImmOrOwnedObject_0.id@ by {
                if k < i {
                    let j = choose|j: int|
                        0 <= j < old_r.len() && (#[trigger] old_r[j]@)
                            == s.inputs@[k]->ImmOrOwnedObject_0.id@;
                    assert(r@[j]@ == s.inputs@[k]->ImmOrOwnedObject_0.id@);
                } else {
                    assert(r@[r@.len() - 1]@ == s.inputs@[k]->ImmOrOwnedObject_0.id@);
                }
            }
        }
        i = i + 1;
    }
    assert forall|id: Seq<u8>| owned_input_ids(s.inputs@).contains(id) implies exists|j: int|
        0 <= j < r@.len() && (#[trigger] r@[j]@) == id by {
        let k = choose|k: int|
            0 <= k < s.inputs@.len() && (#[trigger] s.inputs@[k]) is ImmOrOwnedObject
                && s.inputs@[k]->ImmOrOwnedObject_0.id@ == id;
        assert(0 <= k < s.inputs@.len());
    }
    r
}

/// Decides whether a coin handed back by the wallet collaborator may pay for
/// the skeleton: it is passed through exactly when its id is not among the
/// skeleton's owned inputs, and withheld otherwise.
pub fn admit_gas_coin(s: &Skeleton, coin: ObjectRef) -> (r: Option<ObjectRef>)
    ensures
        coin_admissible(s.inputs@, coin.id@) ==> (r matches Some(c) && c.id@ == coin.id@
            && c.version == coin.version && c.digest@ == coin.digest@),
        !coin_admissible(s.inputs@, coin.id@) ==> r is None,
{
    let mut i: usize = 0;
    while i < s.inputs.len()
        invariant
            i <= s.inputs@.len(),
            forall|k: int|
                0 <= k < i && (#[trigger] s.inputs@[k]) is ImmOrOwnedObject ==> s.inputs@[k]
                    ->ImmOrOwnedObject_0.id@ != coin.id@,
        decreases s.inputs@.len() - i,
    {
        if let InputArg::ImmOrOwnedObject(oref) = &s.inputs[i] {
            if bytes_equal(&oref.id.bytes, &coin.id.bytes) {
                assert(owned_input_ids(s.inputs@).contains(coin.id@)) by {
                    assert(s.inputs@[i as int] is ImmOrOwnedObject && s.inputs@[i as int]
                        ->ImmOrOwnedObject_0.id@ == coin.id@);
                }
                return None;
            }
        }
        i = i + 1;
    }
    assert(coin_admissible(s.inputs@, coin.id@)) by {
        if owned_input_ids(s.inputs@).contains(coin.id@) {
            let k = choose|k: int|
                0 <= k < s.inputs@.len() && (#[trigger] s.inputs@[k]) is ImmOrOwnedObject
                    && s.inputs@[k]->ImmOrOwnedObject_0.id@ == coin.id@;
            assert(false);
        }
    }
    Some(coin)
}

/// An admissible coin collides with no owned input of the skeleton: for
/// every skeleton, a coin the Coin Selector lets through differs in id from
/// each exclusively referenced input.
pub proof fn lemma_admissible_coin_avoids_inputs(inputs: Seq<InputArg>, id: Seq<u8>)
    requires
        coin_admissible(inputs, id),
    ensures
        forall|k: int|
            0 <= k < inputs.len() && (#[trigger] inputs[k]) is ImmOrOwnedObject ==> inputs[k]
                ->ImmOrOwnedObject_0.id@ != id,
{
    assert forall|k: int|
        0 <= k < inputs.len() && (#[trigger] inputs[k]) is ImmOrOwnedObject implies inputs[k]
        ->ImmOrOwnedObject_0.id@ != id by {
        if inputs[k]->ImmOrOwnedObject_0.id@ == id {
            assert(owned_input_ids(inputs).contains(id));
        }
    }
}

/// A finalized, submittable transaction: the skeleton, the sender, the
/// attached payment, the derived budget, the reference gas price, and the
/// sponsor when one pays instead of the sender.
#[derive(Debug)]
pub struct TransactionData {
    pub skeleton: Skeleton,
    pub sender: Address,
    pub payment: Vec<ObjectRef>,
    pub budget: u64,
    pub gas_price: u64,
    pub sponsor: Option<Address>,
}

/// Attaches payment, budget and gas price to a built skeleton, finalizing it.
pub fn finalize_transaction(
    skeleton: Skeleton,
    sender: Address,
    payment: ObjectRef,
    budget: u64,
    gas_price: u64,
    sponsor: Option<Address>,
) -> (t: TransactionData)
    ensures
        t.skeleton == skeleton,
        t.sender == sender,
        t.payment@.len() == 1 && t.payment@[0] == payment,
        t.budget == budget,
        t.gas_price == gas_price,
        t.sponsor == sponsor,
{
    let mut pay: Vec<ObjectRef> = Vec::new();
    pay.push(payment);
    TransactionData { skeleton, sender, payment: pay, budget, gas_price, sponsor }
}

/// The client core: holds the configured package id and builds each
/// operation's skeleton. Wallet, transport and serialisation stay outside.
#[derive(Debug)]
pub struct Client {
    pub package: ObjectId,
}

impl Client {
    pub fn new(package: ObjectId) -> (c: Client)
        ensures
            c.package@ == package@,
    {
        Client { package }
    }

    /// The skeleton of a creation transaction: the two players as pure
    /// arguments to the shared module's "new" entry point.
    pub fn new_shared_game(&self, player: &Address, opponent: &Address) -> (r: Skeleton)
        ensures
            r.inputs@.len() == 2,
            (r.inputs@[0] matches InputArg::Pure(b) && b@ == player@),
            (r.inputs@[1] matches InputArg::Pure(b) && b@ == opponent@),
            r.calls@.len() == 1,
            r.calls@[0].package@ == self.package@,
            r.calls@[0].module@ == shared_module_name(),
            r.calls@[0].function@ == "new"@,
            r.calls@[0].args@ == seq![0usize, 1usize],
            skeleton_wf(r),
    {
        let mut inputs: Vec<InputArg> = Vec::new();
        inputs.push(InputArg::Pure(copy_bytes(&player.bytes)));
        inputs.push(InputArg::Pure(copy_bytes(&opponent.bytes)));
        let mut args: Vec<usize> = Vec::new();
        args.push(0);
        args.push(1);
        assert(args@ =~= seq![0usize, 1usize]);
        let mut calls: Vec<MoveCall> = Vec::new();
        calls.push(
            MoveCall {
                package: self.package.duplicate(),
                module: "shared".to_owned(),
                function: "new".to_owned(),
                args,
            },
        );
        Skeleton { inputs, calls }
    }

    /// The skeleton of a deletion transaction: the game as a mutable shared
    /// reference to the shared module's "burn" entry point. Fails with
    /// `NotShared` when the game is not a shared object.
    pub fn delete_shared_game(&self, game: &SharedGame, owner: &Ownership) -> (r: Result<
        Skeleton,
        Error,
    >)
        ensures
            match *owner {
                Ownership::Shared { initial_shared_version } => {
                    &&& r matches Ok(s)
                    &&& (r matches Ok(s) ==> {
                        &&& s.inputs@.len() == 1
                        &&& (s.inputs@[0] matches InputArg::SharedObject {
                            id,
                            initial_shared_version: v,
                            mutable,
                        } && id@ == game.board.id@ && v == initial_shared_version && mutable)
                        &&& s.calls@.len() == 1
                        &&& s.calls@[0].package@ == self.package@
                        &&& s.calls@[0].module@ == shared_module_name()
                        &&& s.calls@[0].function@ == "burn"@
                        &&& s.calls@[0].args@ == seq![0usize]
                        &&& skeleton_wf(s)
                    })
                },
                _ => r == Err::<Skeleton, Error>(Error::NotShared),
            },
    {
        let Ownership::Shared { initial_shared_version } = owner else {
            return Err(Error::NotShared);
        };
        let mut inputs: Vec<InputArg> = Vec::new();
        inputs.push(
            InputArg::SharedObject {
                id: game.board.id.duplicate(),
                initial_shared_version: *initial_shared_version,
                mutable: true,
            },
        );
        let mut args: Vec<usize> = Vec::new();
        args.push(0);
        assert(args@ =~= seq![0usize]);
        let mut calls: Vec<MoveCall> = Vec::new();
        calls.push(
            MoveCall {
                package: self.package.duplicate(),
                module: "shared".to_owned(),
                function: "burn".to_owned(),
                args,
            },
        );
        Ok(Skeleton { inputs, calls })
    }

    /// The skeleton of a move transaction: the game as a mutable shared
    /// reference plus the row and column as pure byte arguments to the
    /// shared module's "place_mark" entry point. Fails with `NotShared` when
    /// the game is not a shared object.
    pub fn make_shared_move(
        &self,
        game: &SharedGame,
        owner: &Ownership,
        row: u8,
        col: u8,
    ) -> (r: Result<Skeleton, Error>)
        ensures
            match *owner {
                Ownership::Shared { initial_shared_version } => {
                    &&& r matches Ok(s)
                    &&& (r matches Ok(s) ==> {
                        &&& s.inputs@.len() == 3
                        &&& (s.inputs@[0] matches InputArg::SharedObject {
                            id,
                            initial_shared_version: v,
                            mutable,
                        } && id@ == game.board.id@ && v == initial_shared_version && mutable)
                        &&& (s.inputs@[1] matches InputArg::Pure(b) && b@ == seq![row])
                        &&& (s.inputs@[2] matches InputArg::Pure(b) && b@ == seq![col])
                        &&& s.calls@.len() == 1
                        &&& s.calls@[0].package@ == self.package@
                        &&& s.calls@[0].module@ == shared_module_name()
                        &&& s.calls@[0].function@ == "place_mark"@
                        &&& s.calls@[0].args@ == seq![0usize, 1usize, 2usize]
                        &&& skeleton_wf(s)
                    })
                },
                _ => r == Err::<Skeleton, Error>(Error::NotShared),
            },
    {
        let Ownership::Shared { initial_shared_version } = owner else {
            return Err(Error::NotShared);
        };
        let mut inputs: Vec<InputArg> = Vec::new();
        inputs.push(
            InputArg::SharedObject {
                id: game.board.id.duplicate(),
                initial_shared_version: *initial_shared_version,
                mutable: true,
            },
        );
        let mut row_bytes: Vec<u8> = Vec::new();
        row_bytes.push(row);
        assert(row_bytes@ =~= seq![row]);
        inputs.push(InputArg::Pure(row_bytes));
        let mut col_bytes: Vec<u8> = Vec::new();
        col_bytes.push(col);
        assert(col_bytes@ =~= seq![col]);
        inputs.push(InputArg::Pure(col_bytes));
        let mut args: Vec<usize> = Vec::new();
        args.push(0);
        args.push(1);
        args.push(2);
        assert(args@ =~= seq![0usize, 1usize, 2usize]);
        let mut calls: Vec<MoveCall> = Vec::new();
        calls.push(
            MoveCall {
                package: self.package.duplicate(),
                module: "shared".to_owned(),
                function: "place_mark".to_owned(),
                args,
            },
        );
        Ok(Skeleton { inputs, calls })
    }

    /// The read-only skeleton of the outcome check: the validated game as an
    /// input to its own module's "ended" entry point, passed as a
    /// non-mutable shared reference when the object is shared and by exact
    /// reference otherwise.
    pub fn ended_call(&self, game: &ValidatedGame) -> (r: Skeleton)
        ensures
            r.inputs@.len() == 1,
            match game.owner {
                Ownership::Shared { initial_shared_version } => (r.inputs@[0] matches
                    InputArg::SharedObject { id, initial_shared_version: v, mutable } && id@
                    == game.id@ && v == initial_shared_version && !mutable),
                _ => (r.inputs@[0] matches InputArg::ImmOrOwnedObject(oref) && oref.id@ == game.id@
                    && oref.version == game.version && oref.digest@ == game.digest@),
            },
            r.calls@.len() == 1,
            r.calls@[0].package@ == self.package@,
            r.calls@[0].module@ == (match game.tag {
                GameTag::Shared => shared_module_name(),
                GameTag::Owned => owned_module_name(),
            }),
            r.calls@[0].function@ == "ended"@,
            r.calls@[0].args@ == seq![0usize],
            skeleton_wf(r),
    {
        let mut inputs: Vec<InputArg> = Vec::new();
        match &game.owner {
            Ownership::Shared { initial_shared_version } => {
                inputs.push(
                    InputArg::SharedObject {
                        id: game.id.duplicate(),
                        initial_shared_version: *initial_shared_version,
                        mutable: false,
                    },
                );
            },
            _ => {
                inputs.push(
                    InputArg::ImmOrOwnedObject(
                        ObjectRef {
                            id: game.id.duplicate(),
                            version: game.version,
                            digest: game.digest.duplicate(),
                        },
                    ),
                );
            },
        }
        let module = match game.tag {
            GameTag::Shared => "shared".to_owned(),
            GameTag::Owned => "owned".to_owned(),
        };
        let mut args: Vec<usize> = Vec::new();
        args.push(0);
        assert(args@ =~= seq![0usize]);
        let mut calls: Vec<MoveCall> = Vec::new();
        calls.push(
            MoveCall { package: self.package.duplicate(), module, function: "ended".to_owned(), args },
        );
        Skeleton { inputs, calls }
    }
}

} // verus!
