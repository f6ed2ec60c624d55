use tictactoe_client::errors::Error;
use tictactoe_client::game::{Board, SharedGame};
use tictactoe_client::model::{Address, Digest, ObjectId, ObjectRef, Ownership};
use tictactoe_client::object::{GameTag, ValidatedGame};
use tictactoe_client::tx::{admit_gas_coin, exclusions, finalize_transaction, Client, InputArg};

fn id(b: u8) -> ObjectId {
    ObjectId::new(vec![b; 32])
}

fn addr(b: u8) -> Address {
    Address::new(vec![b; 32])
}

fn digest(b: u8) -> Digest {
    Digest::new(vec![b; 32])
}

fn shared_game(board_id: u8) -> SharedGame {
    SharedGame {
        board: Board { id: id(board_id), marks: vec![0; 9], turn: 0, x: addr(1), o: addr(2) },
    }
}

#[test]
fn creation_skeleton_has_two_pure_players_and_one_call() {
    let client = Client::new(id(1));
    let s = client.new_shared_game(&addr(3), &addr(4));
    assert_eq!(s.inputs.len(), 2);
    assert!(matches!(&s.inputs[0], InputArg::Pure(b) if *b == vec![3; 32]));
    assert!(matches!(&s.inputs[1], InputArg::Pure(b) if *b == vec![4; 32]));
    assert_eq!(s.calls.len(), 1);
    assert_eq!(s.calls[0].module, "shared");
    assert_eq!(s.calls[0].function, "new");
    assert_eq!(s.calls[0].args, vec![0, 1]);
}

#[test]
fn deletion_skeleton_takes_the_game_as_mutable_shared() {
    let client = Client::new(id(1));
    let s = client
        .delete_shared_game(&shared_game(9), &Ownership::Shared { initial_shared_version: 6 })
        .unwrap();
    assert_eq!(s.inputs.len(), 1);
    assert!(matches!(
        &s.inputs[0],
        InputArg::SharedObject { id, initial_shared_version: 6, mutable: true } if id.bytes == vec![9; 32]
    ));
    assert_eq!(s.calls[0].function, "burn");
}

#[test]
fn deleting_a_non_shared_game_is_refused() {
    let client = Client::new(id(1));
    let e = client.delete_shared_game(&shared_game(9), &Ownership::Immutable).unwrap_err();
    assert!(matches!(e, Error::NotShared));
}

#[test]
fn move_skeleton_carries_row_and_column_bytes() {
    let client = Client::new(id(1));
    let s = client
        .make_shared_move(&shared_game(9), &Ownership::Shared { initial_shared_version: 6 }, 2, 1)
        .unwrap();
    assert_eq!(s.inputs.len(), 3);
    assert!(matches!(&s.inputs[1], InputArg::Pure(b) if *b == vec![2]));
    assert!(matches!(&s.inputs[2], InputArg::Pure(b) if *b == vec![1]));
    assert_eq!(s.calls[0].function, "place_mark");
    assert_eq!(s.calls[0].args, vec![0, 1, 2]);
}

#[test]
fn moving_on_a_non_shared_game_is_refused() {
    let client = Client::new(id(1));
    let owner = Ownership::Owned { owner: addr(3) };
    let e = client.make_shared_move(&shared_game(9), &owner, 0, 0).unwrap_err();
    assert!(matches!(e, Error::NotShared));
}

fn validated(owner: Ownership, tag: GameTag) -> ValidatedGame {
    ValidatedGame { id: id(8), version: 12, digest: digest(2), owner, tag, payload: vec![] }
}

#[test]
fn outcome_check_passes_a_shared_game_as_immutable_shared_input() {
    let client = Client::new(id(1));
    let s = client.ended_call(&validated(
        Ownership::Shared { initial_shared_version: 4 },
        GameTag::Shared,
    ));
    assert!(matches!(
        &s.inputs[0],
        InputArg::SharedObject { id, initial_shared_version: 4, mutable: false } if id.bytes == vec![8; 32]
    ));
    assert_eq!(s.calls[0].module, "shared");
    assert_eq!(s.calls[0].function, "ended");
}

#[test]
fn outcome_check_passes_an_owned_game_by_exact_reference() {
    let client = Client::new(id(1));
    let s = client.ended_call(&validated(Ownership::Owned { owner: addr(3) }, GameTag::Owned));
    assert!(matches!(
        &s.inputs[0],
        InputArg::ImmOrOwnedObject(oref) if oref.id.bytes == vec![8; 32] && oref.version == 12
    ));
    assert_eq!(s.calls[0].module, "owned");
}

#[test]
fn exclusions_list_exactly_the_owned_inputs() {
    let client = Client::new(id(1));
    let mut s = client.new_shared_game(&addr(3), &addr(4));
    s.inputs.push(InputArg::ImmOrOwnedObject(ObjectRef {
        id: id(5),
        version: 1,
        digest: digest(5),
    }));
    s.inputs.push(InputArg::SharedObject { id: id(6), initial_shared_version: 1, mutable: true });
    let excl = exclusions(&s);
    assert_eq!(excl.len(), 1);
    assert_eq!(excl[0].bytes, vec![5; 32]);
}

#[test]
fn a_coin_that_is_an_input_is_never_proposed() {
    let client = Client::new(id(1));
    let mut s = client.new_shared_game(&addr(3), &addr(4));
    s.inputs.push(InputArg::ImmOrOwnedObject(ObjectRef {
        id: id(5),
        version: 1,
        digest: digest(5),
    }));
    let colliding = ObjectRef { id: id(5), version: 2, digest: digest(7) };
    assert!(admit_gas_coin(&s, colliding).is_none());
    let fresh = ObjectRef { id: id(6), version: 2, digest: digest(7) };
    let admitted = admit_gas_coin(&s, fresh).unwrap();
    assert_eq!(admitted.id.bytes, vec![6; 32]);
}

#[test]
fn finalizing_attaches_payment_budget_and_price() {
    let client = Client::new(id(1));
    let s = client.new_shared_game(&addr(3), &addr(4));
    let coin = ObjectRef { id: id(6), version: 2, digest: digest(7) };
    let tx = finalize_transaction(s, addr(3), coin, 1_500_000, 1000, None);
    assert_eq!(tx.payment.len(), 1);
    assert_eq!(tx.payment[0].id.bytes, vec![6; 32]);
    assert_eq!(tx.budget, 1_500_000);
    assert_eq!(tx.gas_price, 1000);
    assert!(tx.sponsor.is_none());
}
