use ledger_runtime::balances;
use ledger_runtime::proof_of_existence;
use ledger_runtime::runtime::{Runtime, RuntimeCall, RuntimeError};
use ledger_runtime::support::{Block, Extrinsic, Header};
use ledger_runtime::types;

fn transfer_call(to: &str, amount: u128) -> RuntimeCall {
    RuntimeCall::Balances(balances::Call::Transfer { to: to.to_string(), amount })
}

fn create_claim_call(claim: &str) -> RuntimeCall {
    RuntimeCall::ProofOfExistence(proof_of_existence::Call::CreateClaim {
        claim: claim.to_string(),
    })
}

fn revoke_claim_call(claim: &str) -> RuntimeCall {
    RuntimeCall::ProofOfExistence(proof_of_existence::Call::RevokeClaim {
        claim: claim.to_string(),
    })
}

fn block_of(number: u32, extrinsic: Vec<types::Extrinsic>) -> types::Block {
    Block { header: Header { block_number: number }, extrinsic }
}

#[test]
fn genesis_and_first_block() {
    let mut runtime = Runtime::new();
    let miriam = "miriam".to_string();
    let lucio = "lucio".to_string();

    runtime.balances.set_balance(&miriam, 10000);

    let block_1 = block_of(
        1,
        vec![Extrinsic { caller: miriam.clone(), call: transfer_call("lucio", 100) }],
    );
    assert_eq!(runtime.execute_block(block_1), Ok(()));

    assert_eq!(runtime.balances.get_balance(&miriam), 9900);
    assert_eq!(runtime.balances.get_balance(&lucio), 100);
    assert_eq!(runtime.system.get_nonce(&miriam), 1);
    assert_eq!(runtime.system.get_nonce(&lucio), 0);
    assert_eq!(runtime.system.get_block_number(), 1);
}

#[test]
fn claims_across_blocks() {
    let mut runtime = Runtime::new();
    let miriam = "miriam".to_string();
    let lucio = "lucio".to_string();

    runtime.balances.set_balance(&miriam, 10000);

    let block_1 = block_of(
        1,
        vec![Extrinsic { caller: miriam.clone(), call: transfer_call("lucio", 100) }],
    );
    assert_eq!(runtime.execute_block(block_1), Ok(()));

    // Block 2: lucio claims "MY_DOC".
    let block_2 = block_of(
        2,
        vec![Extrinsic { caller: lucio.clone(), call: create_claim_call("MY_DOC") }],
    );
    assert_eq!(runtime.execute_block(block_2), Ok(()));
    assert_eq!(runtime.proof_of_existence.get_claim(&"MY_DOC".to_string()), Some(&lucio));

    // Block 3: lucio revokes his own claim; it succeeds.
    let block_3 = block_of(
        3,
        vec![Extrinsic { caller: lucio.clone(), call: revoke_claim_call("MY_DOC") }],
    );
    assert_eq!(runtime.execute_block(block_3), Ok(()));
    assert_eq!(runtime.proof_of_existence.get_claim(&"MY_DOC".to_string()), None);

    // Block 4: once revoked, the content is claimable again, by anyone.
    let block_4 = block_of(
        4,
        vec![Extrinsic { caller: miriam.clone(), call: create_claim_call("MY_DOC") }],
    );
    assert_eq!(runtime.execute_block(block_4), Ok(()));
    assert_eq!(runtime.proof_of_existence.get_claim(&"MY_DOC".to_string()), Some(&miriam));

    assert_eq!(runtime.system.get_block_number(), 4);
}

#[test]
fn failed_extrinsic_is_isolated_and_consumes_a_nonce() {
    let mut runtime = Runtime::new();
    let miriam = "miriam".to_string();
    let lucio = "lucio".to_string();

    runtime.balances.set_balance(&miriam, 100);

    // The transfer exceeds the balance: the call fails, the block does not.
    let block_1 = block_of(
        1,
        vec![Extrinsic { caller: miriam.clone(), call: transfer_call("lucio", 500) }],
    );
    assert_eq!(runtime.execute_block(block_1), Ok(()));

    assert_eq!(runtime.balances.get_balance(&miriam), 100);
    assert_eq!(runtime.balances.get_balance(&lucio), 0);
    assert_eq!(runtime.system.get_nonce(&miriam), 1);
    assert_eq!(runtime.system.get_block_number(), 1);
}

#[test]
fn block_number_mismatch_rejects_the_whole_block() {
    let mut runtime = Runtime::new();
    let miriam = "miriam".to_string();

    runtime.balances.set_balance(&miriam, 10000);

    // The runtime is at block 0, so only a header numbered 1 is accepted.
    let block_5 = block_of(
        5,
        vec![Extrinsic { caller: miriam.clone(), call: transfer_call("lucio", 100) }],
    );
    assert_eq!(runtime.execute_block(block_5), Err(RuntimeError::BlockNumberMismatch));

    // No extrinsic ran: balances and nonces are untouched.  The runtime's
    // own block counter, advanced before validation, stays advanced.
    assert_eq!(runtime.balances.get_balance(&miriam), 10000);
    assert_eq!(runtime.balances.get_balance(&"lucio".to_string()), 0);
    assert_eq!(runtime.system.get_nonce(&miriam), 0);
    assert_eq!(runtime.system.get_block_number(), 1);
}

#[test]
fn empty_block_only_advances_the_counter() {
    let mut runtime = Runtime::new();
    assert_eq!(runtime.execute_block(block_of(1, vec![])), Ok(()));
    assert_eq!(runtime.system.get_block_number(), 1);
}

#[test]
fn nonce_rises_once_per_extrinsic_success_or_failure() {
    let mut runtime = Runtime::new();
    let miriam = "miriam".to_string();

    runtime.balances.set_balance(&miriam, 100);

    let block_1 = block_of(
        1,
        vec![
            Extrinsic { caller: miriam.clone(), call: transfer_call("lucio", 60) },
            Extrinsic { caller: miriam.clone(), call: transfer_call("lucio", 60) },
            Extrinsic { caller: miriam.clone(), call: transfer_call("lucio", 30) },
        ],
    );
    assert_eq!(runtime.execute_block(block_1), Ok(()));

    // First and third transfers succeed, the second fails; all three count.
    assert_eq!(runtime.system.get_nonce(&miriam), 3);
    assert_eq!(runtime.balances.get_balance(&miriam), 10);
    assert_eq!(runtime.balances.get_balance(&"lucio".to_string()), 90);
}

#[test]
fn dispatch_reports_the_module_error_unchanged() {
    let mut runtime = Runtime::new();
    let miriam = "miriam".to_string();

    let r = runtime.dispatch(miriam.clone(), transfer_call("lucio", 1));
    assert_eq!(r, Err(RuntimeError::Balances(balances::Error::InsufficientBalance)));

    let r = runtime.dispatch(miriam.clone(), revoke_claim_call("MY_DOC"));
    assert_eq!(
        r,
        Err(RuntimeError::ProofOfExistence(proof_of_existence::Error::ClaimNotFound))
    );
}
