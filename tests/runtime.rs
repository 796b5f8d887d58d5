use substrate_runtime::balances;
use substrate_runtime::proof_of_existence;
use substrate_runtime::runtime::ExtrinsicFailure;
use substrate_runtime::support::{Dispatch, DispatchError};
use substrate_runtime::types::{Block, Extrinsic, Header};
use substrate_runtime::{Runtime, RuntimeCall};

fn transfer(caller: &str, to: &str, amount: u128) -> Extrinsic {
    Extrinsic {
        caller: caller.to_string(),
        call: RuntimeCall::Balances(balances::Call::Transfer { to: to.to_string(), amount }),
    }
}

fn create_claim(caller: &str, claim: &str) -> Extrinsic {
    Extrinsic {
        caller: caller.to_string(),
        call: RuntimeCall::Poe(proof_of_existence::Call::CreateClaim { claim: claim.to_string() }),
    }
}

fn revoke_claim(caller: &str, claim: &str) -> Extrinsic {
    Extrinsic {
        caller: caller.to_string(),
        call: RuntimeCall::Poe(proof_of_existence::Call::RevokeClaim { claim: claim.to_string() }),
    }
}

fn block(number: u32, extrinsics: Vec<Extrinsic>) -> Block {
    Block { header: Header { block_number: number }, extrinsics }
}

#[test]
fn new_runtime_is_empty() {
    let runtime = Runtime::new();
    assert_eq!(runtime.system().block_number(), 0);
    assert_eq!(runtime.balances().balance("alice".to_string()), 0);
    assert_eq!(runtime.poe().get_claim(&"doc".to_string()), None);
    assert_eq!(runtime.system().nonce(&"alice".to_string()), 0);
}

#[test]
fn example_block_of_transfers() {
    let mut runtime = Runtime::new();
    runtime.set_balance("alice".to_string(), 100);
    let b = block(1, vec![transfer("alice", "bob", 20), transfer("alice", "charlie", 10)]);
    assert_eq!(runtime.execute_block(b), Ok(vec![]));
    assert_eq!(runtime.balances().balance("alice".to_string()), 70);
    assert_eq!(runtime.balances().balance("bob".to_string()), 20);
    assert_eq!(runtime.balances().balance("charlie".to_string()), 10);
    assert_eq!(runtime.system().nonce(&"alice".to_string()), 2);
    assert_eq!(runtime.system().block_number(), 1);
}

#[test]
fn three_blocks_in_order() {
    let mut runtime = Runtime::new();
    runtime.set_balance("alice".to_string(), 100);
    let b1 = block(1, vec![transfer("alice", "bob", 20), transfer("alice", "Charlie", 10)]);
    let b2 = block(2, vec![create_claim("bob", "Blue is london")]);
    let b3 = block(3, vec![revoke_claim("charlie", "Blue is london")]);
    assert_eq!(runtime.execute_block(b1), Ok(vec![]));
    assert_eq!(runtime.execute_block(b2), Ok(vec![]));
    assert_eq!(
        runtime.execute_block(b3),
        Ok(vec![ExtrinsicFailure { block_number: 3, index: 0, error: DispatchError::Unauthorized }])
    );
    assert_eq!(
        runtime.poe().get_claim(&"Blue is london".to_string()),
        Some(&"bob".to_string())
    );
    assert_eq!(runtime.system().nonce(&"charlie".to_string()), 1);
    assert_eq!(runtime.system().block_number(), 3);
}

#[test]
fn misordered_block_rejected() {
    let mut runtime = Runtime::new();
    runtime.set_balance("alice".to_string(), 100);
    let b = block(2, vec![transfer("alice", "bob", 20), create_claim("alice", "doc")]);
    assert_eq!(runtime.execute_block(b), Err(DispatchError::BlockNumberMismatch));
    assert_eq!(runtime.system().block_number(), 0);
    assert_eq!(runtime.system().nonce(&"alice".to_string()), 0);
    assert_eq!(runtime.balances().balance("alice".to_string()), 100);
    assert_eq!(runtime.balances().balance("bob".to_string()), 0);
    assert_eq!(runtime.poe().get_claim(&"doc".to_string()), None);
    let b = block(0, vec![]);
    assert_eq!(runtime.execute_block(b), Err(DispatchError::BlockNumberMismatch));
    let b = block(1, vec![]);
    assert_eq!(runtime.execute_block(b), Ok(vec![]));
    let b = block(1, vec![]);
    assert_eq!(runtime.execute_block(b), Err(DispatchError::BlockNumberMismatch));
    assert_eq!(runtime.system().block_number(), 1);
}

#[test]
fn failed_extrinsic_is_isolated() {
    let mut runtime = Runtime::new();
    runtime.set_balance("alice".to_string(), 5);
    let b = block(1, vec![transfer("alice", "bob", 50), create_claim("alice", "doc")]);
    assert_eq!(
        runtime.execute_block(b),
        Ok(vec![ExtrinsicFailure {
            block_number: 1,
            index: 0,
            error: DispatchError::InsufficientBalance
        }])
    );
    assert_eq!(runtime.balances().balance("alice".to_string()), 5);
    assert_eq!(runtime.balances().balance("bob".to_string()), 0);
    assert_eq!(runtime.poe().get_claim(&"doc".to_string()), Some(&"alice".to_string()));
    assert_eq!(runtime.system().nonce(&"alice".to_string()), 2);
}

#[test]
fn nonce_counts_failed_and_successful_extrinsics() {
    let mut runtime = Runtime::new();
    runtime.set_balance("alice".to_string(), 10);
    let b = block(
        1,
        vec![
            transfer("alice", "bob", 4),
            revoke_claim("alice", "missing"),
            transfer("bob", "alice", 100),
            create_claim("alice", "doc"),
            create_claim("bob", "doc"),
        ],
    );
    assert_eq!(
        runtime.execute_block(b),
        Ok(vec![
            ExtrinsicFailure { block_number: 1, index: 1, error: DispatchError::ClaimNotFound },
            ExtrinsicFailure { block_number: 1, index: 2, error: DispatchError::InsufficientBalance },
            ExtrinsicFailure { block_number: 1, index: 4, error: DispatchError::ClaimAlreadyExists },
        ])
    );
    assert_eq!(runtime.system().nonce(&"alice".to_string()), 3);
    assert_eq!(runtime.system().nonce(&"bob".to_string()), 2);
    assert_eq!(runtime.balances().balance("alice".to_string()), 6);
    assert_eq!(runtime.balances().balance("bob".to_string()), 4);
}

#[test]
fn runtime_dispatch_routes_to_pallets() {
    let mut runtime = Runtime::new();
    runtime.set_balance("alice".to_string(), 30);
    let call = RuntimeCall::Balances(balances::Call::Transfer { to: "bob".to_string(), amount: 12 });
    assert_eq!(runtime.dispatch("alice".to_string(), call), Ok(()));
    assert_eq!(runtime.balances().balance("alice".to_string()), 18);
    assert_eq!(runtime.balances().balance("bob".to_string()), 12);
    let call = RuntimeCall::Poe(proof_of_existence::Call::CreateClaim { claim: "doc".to_string() });
    assert_eq!(runtime.dispatch("bob".to_string(), call), Ok(()));
    let call = RuntimeCall::Poe(proof_of_existence::Call::CreateClaim { claim: "doc".to_string() });
    assert_eq!(
        runtime.dispatch("alice".to_string(), call),
        Err(DispatchError::ClaimAlreadyExists)
    );
    assert_eq!(runtime.system().nonce(&"alice".to_string()), 0);
}

#[test]
fn empty_block_advances_number() {
    let mut runtime = Runtime::new();
    assert_eq!(runtime.execute_block(block(1, vec![])), Ok(vec![]));
    assert_eq!(runtime.execute_block(block(2, vec![])), Ok(vec![]));
    assert_eq!(runtime.system().block_number(), 2);
}
