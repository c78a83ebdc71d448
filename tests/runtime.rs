use state_machine::balances::Call as BalancesCall;
use state_machine::proof_of_existence::Call as ClaimCall;
use state_machine::runtime::{Block, Extrinsic, Header, Runtime, RuntimeCall};
use state_machine::support::{BlockError, DispatchError};

fn transfer(caller: &str, to: &str, amount: u128) -> Extrinsic {
    Extrinsic {
        caller: caller.to_string(),
        call: RuntimeCall::Balances(BalancesCall::Transfer { to: to.to_string(), amount }),
    }
}

fn create_claim(caller: &str, claim: &str) -> Extrinsic {
    Extrinsic {
        caller: caller.to_string(),
        call: RuntimeCall::ProofOfExistence(ClaimCall::CreateClaim { claim: claim.to_string() }),
    }
}

fn revoke_claim(caller: &str, claim: &str) -> Extrinsic {
    Extrinsic {
        caller: caller.to_string(),
        call: RuntimeCall::ProofOfExistence(ClaimCall::RevokeClaim { claim: claim.to_string() }),
    }
}

fn block(number: u64, extrinsics: Vec<Extrinsic>) -> Block {
    Block { header: Header { block_number: number }, extrinsics }
}

#[test]
fn block_of_two_transfers() {
    let mut runtime = Runtime::new();
    runtime.balances.set_balance(&"alice".to_string(), 100);
    let outcomes = runtime
        .execute_block(block(1, vec![transfer("alice", "bob", 30), transfer("alice", "charlie", 20)]))
        .unwrap();
    assert_eq!(outcomes, vec![Ok(()), Ok(())]);
    assert_eq!(runtime.system.block_number(), 1);
    assert_eq!(runtime.balances.balance(&"alice".to_string()), 50);
    assert_eq!(runtime.balances.balance(&"bob".to_string()), 30);
    assert_eq!(runtime.balances.balance(&"charlie".to_string()), 20);
    assert_eq!(runtime.system.nonce(&"alice".to_string()), Some(2));
    assert_eq!(runtime.system.nonce(&"bob".to_string()), None);
}

#[test]
fn header_mismatch_runs_nothing() {
    let mut runtime = Runtime::new();
    runtime.balances.set_balance(&"alice".to_string(), 100);
    let r = runtime.execute_block(block(2, vec![transfer("alice", "bob", 30)]));
    assert_eq!(r, Err(BlockError::BlockNumberMismatch));
    assert_eq!(BlockError::BlockNumberMismatch.message(), "Block number mismatch");
    assert_eq!(runtime.system.block_number(), 1);
    assert_eq!(runtime.balances.balance(&"alice".to_string()), 100);
    assert_eq!(runtime.balances.balance(&"bob".to_string()), 0);
    assert_eq!(runtime.system.nonce(&"alice".to_string()), None);

    let r = runtime.execute_block(block(2, vec![transfer("alice", "bob", 30)]));
    assert_eq!(r, Ok(vec![Ok(())]));
    assert_eq!(runtime.system.block_number(), 2);
    assert_eq!(runtime.balances.balance(&"bob".to_string()), 30);
}

#[test]
fn failed_extrinsics_still_count_and_do_not_stop_the_block() {
    let mut runtime = Runtime::new();
    runtime.balances.set_balance(&"alice".to_string(), 100);
    let first = runtime.execute_block(block(
        1,
        vec![
            transfer("alice", "bob", 30),
            transfer("alice", "charlie", 20),
            create_claim("alice", "Hello Blockchain!"),
        ],
    ));
    assert_eq!(first, Ok(vec![Ok(()), Ok(()), Ok(())]));
    let second = runtime.execute_block(block(
        2,
        vec![
            create_claim("alice", "Document Car Chevrolet"),
            create_claim("bob", "Document Car Chevrolet"),
            create_claim("alice", "Hello Blockchain!"),
            transfer("bob", "alice", 31),
            revoke_claim("bob", "Hello Blockchain!"),
        ],
    ));
    assert_eq!(
        second,
        Ok(vec![
            Ok(()),
            Err(DispatchError::ClaimAlreadyExists),
            Err(DispatchError::ClaimAlreadyExists),
            Err(DispatchError::InsufficientBalance),
            Err(DispatchError::NotClaimOwner),
        ])
    );
    assert_eq!(runtime.system.nonce(&"alice".to_string()), Some(5));
    assert_eq!(runtime.system.nonce(&"bob".to_string()), Some(3));
    assert_eq!(runtime.system.nonce(&"charlie".to_string()), None);
    assert_eq!(
        runtime.proof_of_existence.get_claim(&"Document Car Chevrolet".to_string()),
        Some(&"alice".to_string())
    );
    assert_eq!(runtime.balances.balance(&"bob".to_string()), 30);
}

#[test]
fn dispatch_routes_to_the_pallet() {
    let mut runtime = Runtime::new();
    runtime.balances.set_balance(&"alice".to_string(), 5);
    assert_eq!(
        runtime.dispatch(
            "alice".to_string(),
            RuntimeCall::Balances(BalancesCall::Transfer { to: "bob".to_string(), amount: 5 })
        ),
        Ok(())
    );
    assert_eq!(runtime.balances.balance(&"bob".to_string()), 5);
    assert_eq!(
        runtime.dispatch(
            "bob".to_string(),
            RuntimeCall::ProofOfExistence(ClaimCall::RevokeClaim { claim: "Z".to_string() })
        ),
        Err(DispatchError::ClaimNotFound)
    );
    assert_eq!(runtime.system.nonce(&"alice".to_string()), None);
}

#[test]
fn empty_block_only_moves_the_number() {
    let mut runtime = Runtime::new();
    assert_eq!(runtime.execute_block(block(1, Vec::new())), Ok(Vec::new()));
    assert_eq!(runtime.system.block_number(), 1);
}
