use tictactoe_client::budget::GasSummary;
use tictactoe_client::errors::Error;
use tictactoe_client::model::{Address, Digest, ObjectId, ObjectRef, TypeTag};
use tictactoe_client::orchestrator::{advance, Event, OrchestratorState};
use tictactoe_client::status::{
    find_created_game, game_id_from_response, interpret_execution, Effects, ExecutionStatus,
    ObjectChange, TxResponse,
};
use tictactoe_client::tx::Client;

fn id(b: u8) -> ObjectId {
    ObjectId::new(vec![b; 32])
}

fn addr(b: u8) -> Address {
    Address::new(vec![b; 32])
}

fn digest(b: u8) -> Digest {
    Digest::new(vec![b; 32])
}

fn created(package: u8, name: &str, object: u8) -> ObjectChange {
    ObjectChange::Created {
        type_tag: TypeTag {
            package: id(package),
            module: String::from("shared"),
            name: String::from(name),
        },
        object_id: id(object),
    }
}

#[test]
fn success_passes_the_response_through() {
    let resp = TxResponse {
        effects: Some(Effects { status: ExecutionStatus::Success }),
        object_changes: None,
    };
    assert!(interpret_execution(resp).is_ok());
}

#[test]
fn missing_effects_is_no_effects() {
    let resp = TxResponse { effects: None, object_changes: None };
    assert!(matches!(interpret_execution(resp).unwrap_err(), Error::NoEffects));
}

#[test]
fn reported_failure_carries_the_ledger_reason_verbatim() {
    let resp = TxResponse {
        effects: Some(Effects {
            status: ExecutionStatus::Failure { error: String::from("cell already occupied") },
        }),
        object_changes: None,
    };
    let e = interpret_execution(resp).unwrap_err();
    assert!(matches!(e, Error::ExecutionFailed(msg) if msg == "cell already occupied"));
}

#[test]
fn creation_yields_the_single_matching_created_change() {
    let changes = vec![
        ObjectChange::Other,
        created(2, "Game", 4),
        created(1, "Cap", 5),
        created(1, "Game", 6),
        created(1, "Game", 7),
    ];
    let found = find_created_game(&id(1), &changes).unwrap();
    assert_eq!(found.bytes, vec![6; 32]);
}

#[test]
fn absence_of_a_created_game_is_game_id_not_found() {
    let changes = vec![ObjectChange::Other, created(2, "Game", 4)];
    assert!(matches!(find_created_game(&id(1), &changes).unwrap_err(), Error::GameIdNotFound));
    let resp = TxResponse {
        effects: Some(Effects { status: ExecutionStatus::Success }),
        object_changes: None,
    };
    assert!(matches!(game_id_from_response(&id(1), &resp).unwrap_err(), Error::GameIdNotFound));
}

#[test]
fn creating_a_shared_game_ends_in_its_id() {
    let client = Client::new(id(1));
    let skeleton = client.new_shared_game(&addr(3), &addr(4));
    let state = OrchestratorState::Built { skeleton, sender: addr(3), sponsor: None };

    let summary = GasSummary { computation_cost: 500000, net_gas_usage: 200000 };
    let state = advance(state, Event::Estimated { gas_price: 1000, dry_run: Some(summary) });
    assert!(matches!(&state, OrchestratorState::Estimated { budget: 1_500_000, .. }));

    let coin = ObjectRef { id: id(6), version: 2, digest: digest(7) };
    let state = advance(state, Event::Funded { coin: Some(coin) });
    assert!(matches!(&state, OrchestratorState::Funded { .. }));

    let state = advance(state, Event::Signed);
    assert!(matches!(&state, OrchestratorState::Signed { .. }));

    let resp = TxResponse {
        effects: Some(Effects { status: ExecutionStatus::Success }),
        object_changes: Some(vec![ObjectChange::Other, created(1, "Game", 9)]),
    };
    let state = advance(state, Event::Executed { outcome: Ok(resp) });
    let OrchestratorState::Succeeded { response } = state else {
        panic!("expected success");
    };
    let game_id = game_id_from_response(&id(1), &response).unwrap();
    assert_eq!(game_id.bytes, vec![9; 32]);
}

#[test]
fn a_move_to_an_occupied_cell_fails_with_the_reported_reason() {
    let client = Client::new(id(1));
    let board = tictactoe_client::game::Board {
        id: id(9),
        marks: vec![1, 0, 0, 0, 0, 0, 0, 0, 0],
        turn: 1,
        x: addr(3),
        o: addr(4),
    };
    let game = tictactoe_client::game::SharedGame { board };
    let owner = tictactoe_client::model::Ownership::Shared { initial_shared_version: 6 };
    let skeleton = client.make_shared_move(&game, &owner, 0, 0).unwrap();
    let state = OrchestratorState::Built { skeleton, sender: addr(4), sponsor: None };

    let summary = GasSummary { computation_cost: 100, net_gas_usage: 100 };
    let state = advance(state, Event::Estimated { gas_price: 1, dry_run: Some(summary) });
    let coin = ObjectRef { id: id(6), version: 2, digest: digest(7) };
    let state = advance(state, Event::Funded { coin: Some(coin) });
    let state = advance(state, Event::Signed);

    let resp = TxResponse {
        effects: Some(Effects {
            status: ExecutionStatus::Failure { error: String::from("Mark already placed") },
        }),
        object_changes: None,
    };
    let state = advance(state, Event::Executed { outcome: Ok(resp) });
    let OrchestratorState::Failed { error } = state else {
        panic!("expected failure");
    };
    assert!(matches!(error, Error::ExecutionFailed(msg) if msg == "Mark already placed"));
}

#[test]
fn failed_estimation_ends_the_operation() {
    let client = Client::new(id(1));
    let skeleton = client.new_shared_game(&addr(3), &addr(4));
    let state = OrchestratorState::Built { skeleton, sender: addr(3), sponsor: None };
    let state = advance(state, Event::Estimated { gas_price: 1000, dry_run: None });
    assert!(matches!(state, OrchestratorState::Failed { error: Error::EstimationFailed }));
}

#[test]
fn missing_coin_is_insufficient_funds() {
    let client = Client::new(id(1));
    let skeleton = client.new_shared_game(&addr(3), &addr(4));
    let state = OrchestratorState::Built { skeleton, sender: addr(3), sponsor: None };
    let summary = GasSummary { computation_cost: 100, net_gas_usage: 100 };
    let state = advance(state, Event::Estimated { gas_price: 1, dry_run: Some(summary) });
    let state = advance(state, Event::Funded { coin: None });
    assert!(matches!(state, OrchestratorState::Failed { error: Error::InsufficientFunds }));
}

#[test]
fn transport_failure_at_submission_is_surfaced() {
    let client = Client::new(id(1));
    let skeleton = client.new_shared_game(&addr(3), &addr(4));
    let state = OrchestratorState::Built { skeleton, sender: addr(3), sponsor: None };
    let summary = GasSummary { computation_cost: 100, net_gas_usage: 100 };
    let state = advance(state, Event::Estimated { gas_price: 1, dry_run: Some(summary) });
    let coin = ObjectRef { id: id(6), version: 2, digest: digest(7) };
    let state = advance(state, Event::Funded { coin: Some(coin) });
    let state = advance(state, Event::Signed);
    let state = advance(state, Event::Executed { outcome: Err(String::from("timed out")) });
    let OrchestratorState::Failed { error } = state else {
        panic!("expected failure");
    };
    assert!(matches!(error, Error::Transport(msg) if msg == "timed out"));
}
