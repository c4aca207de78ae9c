use selling_lock::aggregate::{delivered_payment, required_payment};
use selling_lock::codec::encode;
use selling_lock::engine::verify_unlock;
use selling_lock::types::{Cell, Error, LockDescriptor, TransactionView};

// Two script codes stand in for the deployed binaries: one for the policy
// itself, one for the owner's own (signature-checking) lock.
const POLICY_CODE: u8 = 0xBB;
const PLAIN_CODE: u8 = 0xAA;

fn lock(code: u8, args: Vec<u8>) -> LockDescriptor {
    LockDescriptor { code_hash: vec![code; 32], hash_type: 1, args }
}

fn clone_lock(l: &LockDescriptor) -> LockDescriptor {
    LockDescriptor { code_hash: l.code_hash.clone(), hash_type: l.hash_type, args: l.args.clone() }
}

/// A sale cell: locked by the policy code with `owner` and `price` encoded in
/// its argument field.
fn sale_cell(capacity: u64, owner: &LockDescriptor, price: u64) -> Cell {
    Cell { capacity, lock: lock(POLICY_CODE, encode(owner, price)), type_: None }
}

fn plain_cell(capacity: u64, l: &LockDescriptor) -> Cell {
    Cell { capacity, lock: clone_lock(l), type_: None }
}

#[test]
fn test_unlock_by_purchase() {
    let payer = lock(PLAIN_CODE, vec![]);
    let owner = lock(PLAIN_CODE, vec![8]);
    let selling = sale_cell(1000, &owner, 500);
    let current = clone_lock(&selling.lock);
    let tx = TransactionView {
        inputs: vec![selling, plain_cell(2000, &payer)],
        outputs: vec![plain_cell(400, &payer), plain_cell(1500, &owner)],
    };
    assert!(verify_unlock(&current, &tx).is_ok());
}

#[test]
fn test_unlock_by_owner() {
    let payer = lock(PLAIN_CODE, vec![]);
    let owner = lock(PLAIN_CODE, vec![8]);
    let selling = sale_cell(1000, &owner, 500);
    let current = clone_lock(&selling.lock);
    let tx = TransactionView {
        inputs: vec![selling, plain_cell(2000, &payer)],
        outputs: vec![plain_cell(400, &payer), plain_cell(1500, &owner)],
    };
    assert!(verify_unlock(&current, &tx).is_ok());
}

#[test]
fn verify_purchase_multiple_should_fail() {
    // Two sale cells of the same owner, prices 500 and 600, are consumed
    // together; the buyer pays the owner 3000. The summed asking price is
    // 1100, so both invocations accept: covering the consumed cells' own
    // capacities on top of their prices is not required.
    let payer = lock(PLAIN_CODE, vec![]);
    let owner = lock(PLAIN_CODE, vec![8]);
    let selling_a = sale_cell(1000, &owner, 500);
    let selling_b = sale_cell(1000, &owner, 600);
    let current_a = clone_lock(&selling_a.lock);
    let current_b = clone_lock(&selling_b.lock);
    let tx = TransactionView {
        inputs: vec![selling_a, selling_b, plain_cell(5000, &payer)],
        outputs: vec![plain_cell(200, &payer), plain_cell(3000, &owner)],
    };
    assert!(verify_unlock(&current_a, &tx).is_ok());
    assert!(verify_unlock(&current_b, &tx).is_ok());
}

#[test]
fn test_diffrent_seller_in_single_tx() {
    let owner_a = lock(PLAIN_CODE, vec![8]);
    let owner_b = lock(PLAIN_CODE, vec![9]);
    let selling_a = sale_cell(1000, &owner_a, 500);
    let selling_b = sale_cell(1000, &owner_b, 600);
    let current_a = clone_lock(&selling_a.lock);
    let current_b = clone_lock(&selling_b.lock);
    let tx = TransactionView {
        inputs: vec![plain_cell(3000, &owner_a), selling_a, selling_b],
        outputs: vec![plain_cell(600, &owner_b)],
    };
    // Owner A is consumed in person, so A's invocation takes the owner path;
    // B's invocation is paid exactly its own price, undisturbed by A's cell.
    assert!(verify_unlock(&current_a, &tx).is_ok());
    assert!(verify_unlock(&current_b, &tx).is_ok());
}

#[test]
fn owner_short_circuit_ignores_outputs() {
    let owner = lock(PLAIN_CODE, vec![8]);
    let selling = sale_cell(1000, &owner, 500);
    let current = clone_lock(&selling.lock);

    // Zero outputs.
    let tx = TransactionView {
        inputs: vec![selling, plain_cell(1, &owner)],
        outputs: vec![],
    };
    assert!(verify_unlock(&current, &tx).is_ok());

    // Even a same-owner reissue with a type descriptor attached is allowed
    // once the owner is present among the inputs.
    let mut reissue = sale_cell(700, &owner, 500);
    reissue.type_ = Some(lock(0xCC, vec![]));
    let selling2 = sale_cell(1000, &owner, 500);
    let current2 = clone_lock(&selling2.lock);
    let tx2 = TransactionView {
        inputs: vec![selling2, plain_cell(1, &owner)],
        outputs: vec![reissue],
    };
    assert!(verify_unlock(&current2, &tx2).is_ok());
}

#[test]
fn exact_payment_accepts_and_one_below_rejects() {
    let payer = lock(PLAIN_CODE, vec![]);
    let owner = lock(PLAIN_CODE, vec![8]);
    let price: u64 = 500;

    let selling = sale_cell(1000, &owner, price);
    let current = clone_lock(&selling.lock);
    let tx = TransactionView {
        inputs: vec![selling, plain_cell(2000, &payer)],
        outputs: vec![plain_cell(price, &owner)],
    };
    assert!(verify_unlock(&current, &tx).is_ok());

    let selling = sale_cell(1000, &owner, price);
    let current = clone_lock(&selling.lock);
    let tx = TransactionView {
        inputs: vec![selling, plain_cell(2000, &payer)],
        outputs: vec![plain_cell(price - 1, &owner)],
    };
    assert!(matches!(verify_unlock(&current, &tx), Err(Error::InvalidUnlock)));
}

#[test]
fn batched_purchase_needs_summed_price() {
    let payer = lock(PLAIN_CODE, vec![]);
    let owner = lock(PLAIN_CODE, vec![8]);

    for (paid, ok) in [(1100u64, true), (1200, true), (1099, false)] {
        let selling_a = sale_cell(1000, &owner, 500);
        let selling_b = sale_cell(1000, &owner, 600);
        let current_a = clone_lock(&selling_a.lock);
        let current_b = clone_lock(&selling_b.lock);
        let tx = TransactionView {
            inputs: vec![selling_a, selling_b, plain_cell(5000, &payer)],
            outputs: vec![plain_cell(paid, &owner)],
        };
        assert_eq!(verify_unlock(&current_a, &tx).is_ok(), ok);
        assert_eq!(verify_unlock(&current_b, &tx).is_ok(), ok);
        if !ok {
            assert!(matches!(verify_unlock(&current_a, &tx), Err(Error::InvalidUnlock)));
        }
    }
}

#[test]
fn forbidden_reissue_rejects_despite_payment() {
    let payer = lock(PLAIN_CODE, vec![]);
    let owner = lock(PLAIN_CODE, vec![8]);
    let selling = sale_cell(1000, &owner, 500);
    let current = clone_lock(&selling.lock);
    let mut reissue = sale_cell(700, &owner, 500);
    reissue.type_ = Some(lock(0xCC, vec![]));
    let tx = TransactionView {
        inputs: vec![selling, plain_cell(2000, &payer)],
        outputs: vec![plain_cell(9999, &owner), reissue],
    };
    assert!(matches!(verify_unlock(&current, &tx), Err(Error::InvalidUnlock)));
}

#[test]
fn reissue_without_type_descriptor_is_allowed() {
    let payer = lock(PLAIN_CODE, vec![]);
    let owner = lock(PLAIN_CODE, vec![8]);
    let selling = sale_cell(1000, &owner, 500);
    let current = clone_lock(&selling.lock);
    let reissue = sale_cell(700, &owner, 500);
    let tx = TransactionView {
        inputs: vec![selling, plain_cell(2000, &payer)],
        outputs: vec![plain_cell(500, &owner), reissue],
    };
    assert!(verify_unlock(&current, &tx).is_ok());
}

#[test]
fn batched_prices_beyond_u64_cannot_be_covered() {
    // Two sale cells whose prices sum past u64::MAX: the aggregate does not
    // wrap around, so no payment a cell can carry covers it.
    let payer = lock(PLAIN_CODE, vec![]);
    let owner = lock(PLAIN_CODE, vec![8]);
    let selling_a = sale_cell(1000, &owner, u64::MAX);
    let selling_b = sale_cell(1000, &owner, u64::MAX);
    let current_a = clone_lock(&selling_a.lock);
    let tx = TransactionView {
        inputs: vec![selling_a, selling_b, plain_cell(5000, &payer)],
        outputs: vec![plain_cell(u64::MAX, &owner), plain_cell(u64::MAX, &payer)],
    };
    assert!(matches!(verify_unlock(&current_a, &tx), Err(Error::InvalidUnlock)));
}

#[test]
fn invalid_args_when_own_field_is_short() {
    let current = lock(POLICY_CODE, vec![0u8; 40]);
    let tx = TransactionView { inputs: vec![], outputs: vec![] };
    assert!(matches!(verify_unlock(&current, &tx), Err(Error::InvalidArgs)));
}

#[test]
fn aggregates_ignore_foreign_owner_sale_cells() {
    let owner_a = lock(PLAIN_CODE, vec![8]);
    let owner_b = lock(PLAIN_CODE, vec![9]);
    let selling_a = sale_cell(1000, &owner_a, 500);
    let current_a = clone_lock(&selling_a.lock);
    let info_a = selling_lock::codec::decode(&current_a.args).expect("decode");

    // B's sale cell among the inputs adds nothing to A's required payment.
    let inputs = vec![selling_a, sale_cell(1000, &owner_b, 600)];
    assert_eq!(required_payment(&info_a, &current_a, &inputs), 500);

    // B's sale cell among the outputs pays A's owner nothing.
    let outputs = vec![plain_cell(700, &owner_a), sale_cell(1000, &owner_b, 600)];
    assert_eq!(delivered_payment(&info_a, &outputs), 700);
}
