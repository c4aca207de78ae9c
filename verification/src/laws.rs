//! Laws of the policy: properties that relate several functions, stated over
//! the mathematical models and proved once and for all.
use vstd::prelude::*;
use crate::aggregate::{
    delivered_payment_model, has_forbidden_reissue_model, owner_present_model,
    required_payment_model,
};
use crate::classify::{is_owner_model, is_same_policy_model, is_same_policy_same_owner_model};
use crate::codec::{decoded_info, encode_args, le_bytes, le_value, MIN_ARGS_LEN};
use crate::engine::decision;
use crate::types::{CellModel, Error, LockDescriptorModel, SellingInfoModel, TransactionModel};

verus! {

/// Reading back the little-endian encoding of a 64-bit value yields the
/// value.
proof fn lemma_le_value_of_le_bytes(p: u64)
    ensures
        le_value(le_bytes(p)) == p,
{
    let x = p as int;
    vstd::arithmetic::div_mod::lemma_fundamental_div_mod(x, 0x100);
    vstd::arithmetic::div_mod::lemma_div_denominator(x, 0x100, 0x100);
    vstd::arithmetic::div_mod::lemma_fundamental_div_mod(x / 0x100, 0x100);
    vstd::arithmetic::div_mod::lemma_div_denominator(x, 0x1_0000, 0x100);
    vstd::arithmetic::div_mod::lemma_fundamental_div_mod(x / 0x1_0000, 0x100);
    vstd::arithmetic::div_mod::lemma_div_denominator(x, 0x100_0000, 0x100);
    vstd::arithmetic::div_mod::lemma_fundamental_div_mod(x / 0x100_0000, 0x100);
    vstd::arithmetic::div_mod::lemma_div_denominator(x, 0x1_0000_0000, 0x100);
    vstd::arithmetic::div_mod::lemma_fundamental_div_mod(x / 0x1_0000_0000, 0x100);
    vstd::arithmetic::div_mod::lemma_div_denominator(x, 0x100_0000_0000, 0x100);
    vstd::arithmetic::div_mod::lemma_fundamental_div_mod(x / 0x100_0000_0000, 0x100);
    vstd::arithmetic::div_mod::lemma_div_denominator(x, 0x1_0000_0000_0000, 0x100);
    vstd::arithmetic::div_mod::lemma_fundamental_div_mod(x / 0x1_0000_0000_0000, 0x100);
    vstd::arithmetic::div_mod::lemma_div_denominator(x, 0x100_0000_0000_0000, 0x100);
    vstd::arithmetic::div_mod::lemma_basic_div(x, 0x1_0000_0000_0000_0000);
}

/// Decode round-trip: decoding an encoded argument field recovers exactly the
/// owner descriptor and price that were encoded, for every owner descriptor
/// with a 32-byte code hash and every price.
pub proof fn lemma_decode_encode(owner: LockDescriptorModel, price: u64)
    requires
        owner.code_hash.len() == 32,
    ensures
        encode_args(owner, price).len() >= MIN_ARGS_LEN,
        decoded_info(encode_args(owner, price)) == (SellingInfoModel {
            owner_lock: owner,
            price,
        }),
{
    let e = encode_args(owner, price);
    let n = e.len() as int;
    assert(n == 41 + owner.args.len());
    assert(e.subrange(0, 32) =~= owner.code_hash);
    assert(e[32] == owner.hash_type);
    assert(e.subrange(33, n - 8) =~= owner.args);
    assert(e.subrange(n - 8, n) =~= le_bytes(price));
    lemma_le_value_of_le_bytes(price);
    assert(decoded_info(e) =~= SellingInfoModel { owner_lock: owner, price });
}

/// Owner short-circuit: when any consumed cell's lock is exactly the owner
/// descriptor, the invocation accepts, whatever the outputs hold.
pub proof fn lemma_owner_short_circuit(
    current: LockDescriptorModel,
    tx: TransactionModel,
    i: int,
)
    requires
        current.args.len() >= MIN_ARGS_LEN,
        0 <= i < tx.inputs.len(),
        tx.inputs[i].lock == decoded_info(current.args).owner_lock,
    ensures
        decision(current, tx) == Ok::<(), Error>(()),
{
    let info = decoded_info(current.args);
    assert(is_owner_model(tx.inputs[i].lock, info));
    assert(owner_present_model(info, tx.inputs));
}

/// Exact payment: with a single sale cell consumed and a single payment
/// output to the owner and no reissue, paying the advertised price (or more)
/// accepts, and paying any less rejects as an invalid unlock.
pub proof fn lemma_exact_payment(current: LockDescriptorModel, sale: CellModel, pay: CellModel)
    requires
        current.args.len() >= MIN_ARGS_LEN,
        sale.lock == current,
        decoded_info(current.args).owner_lock != current,
        pay.lock == decoded_info(current.args).owner_lock,
        !(is_same_policy_same_owner_model(pay.lock, current, decoded_info(current.args))
            && pay.type_ is Some),
    ensures
        pay.capacity >= decoded_info(current.args).price ==> decision(
            current,
            TransactionModel { inputs: seq![sale], outputs: seq![pay] },
        ) == Ok::<(), Error>(()),
        pay.capacity < decoded_info(current.args).price ==> decision(
            current,
            TransactionModel { inputs: seq![sale], outputs: seq![pay] },
        ) == Err::<(), Error>(Error::InvalidUnlock),
{
    let info = decoded_info(current.args);
    let inputs = seq![sale];
    let outputs = seq![pay];
    assert(!owner_present_model(info, inputs)) by {
        assert(forall|j: int| 0 <= j < inputs.len() ==> inputs[j] == sale);
    }
    assert(inputs.drop_last() =~= Seq::<CellModel>::empty());
    assert(outputs.drop_last() =~= Seq::<CellModel>::empty());
    assert(required_payment_model(info, current, Seq::<CellModel>::empty()) == 0);
    assert(delivered_payment_model(info, Seq::<CellModel>::empty()) == 0);
    assert(is_same_policy_same_owner_model(sale.lock, current, info));
    assert(inputs.last() == sale);
    assert(outputs.last() == pay);
    assert(required_payment_model(info, current, inputs) == info.price);
    assert(delivered_payment_model(info, outputs) == pay.capacity);
    assert(!has_forbidden_reissue_model(info, current, outputs)) by {
        assert(forall|j: int| 0 <= j < outputs.len() ==> outputs[j] == pay);
    }
}

/// Forbidden reissue: when the owner is absent and some produced cell is a
/// same-owner sale cell with a type descriptor attached, the invocation
/// rejects as an invalid unlock, however much is paid.
pub proof fn lemma_forbidden_reissue(current: LockDescriptorModel, tx: TransactionModel, j: int)
    requires
        current.args.len() >= MIN_ARGS_LEN,
        !owner_present_model(decoded_info(current.args), tx.inputs),
        0 <= j < tx.outputs.len(),
        is_same_policy_same_owner_model(tx.outputs[j].lock, current, decoded_info(current.args)),
        tx.outputs[j].type_ is Some,
    ensures
        decision(current, tx) == Err::<(), Error>(Error::InvalidUnlock),
{
    let info = decoded_info(current.args);
    assert(has_forbidden_reissue_model(info, current, tx.outputs));
}

/// A cell that is not a same-owner sale cell contributes nothing to the
/// required payment, wherever it stands among the consumed cells.
proof fn lemma_required_payment_insert_irrelevant(
    info: SellingInfoModel,
    current: LockDescriptorModel,
    cells: Seq<CellModel>,
    c: CellModel,
    k: int,
)
    requires
        !is_same_policy_same_owner_model(c.lock, current, info),
        0 <= k <= cells.len(),
    ensures
        required_payment_model(info, current, cells.insert(k, c)) == required_payment_model(
            info,
            current,
            cells,
        ),
    decreases cells.len(),
{
    let t = cells.insert(k, c);
    if k == cells.len() {
        assert(t.drop_last() =~= cells);
        assert(t.last() == c);
    } else {
        assert(t.last() == cells.last());
        assert(t.drop_last() =~= cells.drop_last().insert(k, c));
        lemma_required_payment_insert_irrelevant(info, current, cells.drop_last(), c, k);
    }
}

/// A cell whose lock is not the owner descriptor contributes nothing to the
/// delivered payment, wherever it stands among the produced cells.
proof fn lemma_delivered_payment_insert_irrelevant(
    info: SellingInfoModel,
    cells: Seq<CellModel>,
    c: CellModel,
    k: int,
)
    requires
        !is_owner_model(c.lock, info),
        0 <= k <= cells.len(),
    ensures
        delivered_payment_model(info, cells.insert(k, c)) == delivered_payment_model(info, cells),
    decreases cells.len(),
{
    let t = cells.insert(k, c);
    if k == cells.len() {
        assert(t.drop_last() =~= cells);
        assert(t.last() == c);
    } else {
        assert(t.last() == cells.last());
        assert(t.drop_last() =~= cells.drop_last().insert(k, c));
        lemma_delivered_payment_insert_irrelevant(info, cells.drop_last(), c, k);
    }
}

/// Owner cross-talk isolation: a sale cell of the same policy code but a
/// different owner, inserted anywhere among the consumed or the produced
/// cells, changes neither the required payment nor the delivered payment of
/// this invocation.
pub proof fn lemma_cross_owner_isolation(
    info: SellingInfoModel,
    current: LockDescriptorModel,
    inputs: Seq<CellModel>,
    outputs: Seq<CellModel>,
    c: CellModel,
    k: int,
    j: int,
)
    requires
        is_same_policy_model(c.lock, current),
        c.lock.args.len() >= MIN_ARGS_LEN,
        decoded_info(c.lock.args).owner_lock != info.owner_lock,
        c.lock != info.owner_lock,
        0 <= k <= inputs.len(),
        0 <= j <= outputs.len(),
    ensures
        required_payment_model(info, current, inputs.insert(k, c)) == required_payment_model(
            info,
            current,
            inputs,
        ),
        delivered_payment_model(info, outputs.insert(j, c)) == delivered_payment_model(
            info,
            outputs,
        ),
{
    lemma_required_payment_insert_irrelevant(info, current, inputs, c, k);
    lemma_delivered_payment_insert_irrelevant(info, outputs, c, j);
}

} // verus!
