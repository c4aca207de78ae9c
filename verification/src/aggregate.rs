//! Transaction aggregator: read-only folds over the transaction's cell lists.
//!
//! Each fold classifies every cell with the lock classifier and contributes
//! zero for the cells that do not match; a non-matching cell never raises an
//! error. Sums are carried in 128 bits, so that any transaction the host can
//! represent is aggregated without overflow.
use vstd::prelude::*;
use crate::classify::{
    is_owner, is_owner_model, is_same_policy_same_owner, is_same_policy_same_owner_model,
};
use crate::codec::decoded_info;
use crate::types::{cells_model, Cell, CellModel, LockDescriptor, LockDescriptorModel, SellingInfo,
    SellingInfoModel};

verus! {

/// Sum, over the consumed cells that are same-policy same-owner sale cells,
/// of the price each advertises: the least total payment a purchase must
/// deliver.
pub open spec fn required_payment_model(
    info: SellingInfoModel,
    current: LockDescriptorModel,
    inputs: Seq<CellModel>,
) -> int
    decreases inputs.len(),
{
    if inputs.len() == 0 {
        0
    } else {
        required_payment_model(info, current, inputs.drop_last()) + if is_same_policy_same_owner_model(
            inputs.last().lock,
            current,
            info,
        ) {
            decoded_info(inputs.last().lock.args).price as int
        } else {
            0
        }
    }
}

/// Sum, over the produced cells whose lock is exactly the owner descriptor,
/// of their capacities: what the transaction actually pays the owner.
pub open spec fn delivered_payment_model(info: SellingInfoModel, outputs: Seq<CellModel>) -> int
    decreases outputs.len(),
{
    if outputs.len() == 0 {
        0
    } else {
        delivered_payment_model(info, outputs.drop_last()) + if is_owner_model(
            outputs.last().lock,
            info,
        ) {
            outputs.last().capacity as int
        } else {
            0
        }
    }
}

/// Some consumed cell's lock is exactly the owner descriptor.
pub open spec fn owner_present_model(info: SellingInfoModel, inputs: Seq<CellModel>) -> bool {
    exists|i: int| 0 <= i < inputs.len() && is_owner_model(inputs[i].lock, info)
}

/// Some produced cell re-creates a same-owner sale cell with a type
/// descriptor attached.
pub open spec fn has_forbidden_reissue_model(
    info: SellingInfoModel,
    current: LockDescriptorModel,
    outputs: Seq<CellModel>,
) -> bool {
    exists|i: int|
        0 <= i < outputs.len() && is_same_policy_same_owner_model(outputs[i].lock, current, info)
            && outputs[i].type_ is Some
}

/// Every matched price is a `u64`, so the sum is bounded by the list length
/// times the largest `u64`.
proof fn lemma_required_payment_bound(
    info: SellingInfoModel,
    current: LockDescriptorModel,
    inputs: Seq<CellModel>,
)
    ensures
        0 <= required_payment_model(info, current, inputs) <= inputs.len()
            * 0xffff_ffff_ffff_ffff,
    decreases inputs.len(),
{
    if inputs.len() > 0 {
        lemma_required_payment_bound(info, current, inputs.drop_last());
    }
}

/// Every matched capacity is a `u64`, so the sum is bounded by the list
/// length times the largest `u64`.
proof fn lemma_delivered_payment_bound(info: SellingInfoModel, outputs: Seq<CellModel>)
    ensures
        0 <= delivered_payment_model(info, outputs) <= outputs.len() * 0xffff_ffff_ffff_ffff,
    decreases outputs.len(),
{
    if outputs.len() > 0 {
        lemma_delivered_payment_bound(info, outputs.drop_last());
    }
}

/// Total price of all same-owner sale cells consumed by the transaction.
pub fn required_payment(
    info: &SellingInfo,
    current: &LockDescriptor,
    inputs: &Vec<Cell>,
) -> (total: u128)
    ensures
        total == required_payment_model(info@, current@, cells_model(inputs@)),
{
    let ghost all = cells_model(inputs@);
    let mut total: u128 = 0;
    let mut i: usize = 0;
    while i < inputs.len()
        invariant
            i <= inputs@.len(),
            all == cells_model(inputs@),
            total == required_payment_model(info@, current@, all.take(i as int)),
        decreases inputs@.len() - i,
    {
        proof {
            lemma_required_payment_bound(info@, current@, all.take(i as int));
            assert(all.take(i as int + 1).drop_last() =~= all.take(i as int));
            assert(all.take(i as int + 1).last() == inputs@[i as int]@);
        }
        let cell = &inputs[i];
        if is_same_policy_same_owner(&cell.lock, current, info) {
            match crate::codec::decode(&cell.lock.args) {
                Ok(cell_info) => {
                    total = total + cell_info.price as u128;
                },
                Err(_) => {
                    proof {
                        assert(false);
                    }
                },
            }
        }
        i = i + 1;
    }
    proof {
        assert(all.take(inputs@.len() as int) =~= all);
    }
    total
}

/// Total capacity the transaction delivers to the owner descriptor.
pub fn delivered_payment(info: &SellingInfo, outputs: &Vec<Cell>) -> (total: u128)
    ensures
        total == delivered_payment_model(info@, cells_model(outputs@)),
{
    let ghost all = cells_model(outputs@);
    let mut total: u128 = 0;
    let mut i: usize = 0;
    while i < outputs.len()
        invariant
            i <= outputs@.len(),
            all == cells_model(outputs@),
            total == delivered_payment_model(info@, all.take(i as int)),
        decreases outputs@.len() - i,
    {
        proof {
            lemma_delivered_payment_bound(info@, all.take(i as int));
            assert(all.take(i as int + 1).drop_last() =~= all.take(i as int));
            assert(all.take(i as int + 1).last() == outputs@[i as int]@);
        }
        let cell = &outputs[i];
        if is_owner(&cell.lock, info) {
            total = total + cell.capacity as u128;
        }
        i = i + 1;
    }
    proof {
        assert(all.take(outputs@.len() as int) =~= all);
    }
    total
}

/// Whether the owner descriptor appears as the lock of any consumed cell.
pub fn owner_present(info: &SellingInfo, inputs: &Vec<Cell>) -> (r: bool)
    ensures
        r == owner_present_model(info@, cells_model(inputs@)),
{
    let ghost all = cells_model(inputs@);
    let mut i: usize = 0;
    while i < inputs.len()
        invariant
            i <= inputs@.len(),
            all == cells_model(inputs@),
            forall|j: int| 0 <= j < i ==> !is_owner_model(all[j].lock, info@),
        decreases inputs@.len() - i,
    {
        if is_owner(&inputs[i].lock, info) {
            assert(is_owner_model(all[i as int].lock, info@));
            return true;
        }
        i = i + 1;
    }
    false
}

/// Whether any produced cell re-creates a same-owner sale cell with a type
/// descriptor attached.
pub fn has_forbidden_reissue(
    info: &SellingInfo,
    current: &LockDescriptor,
    outputs: &Vec<Cell>,
) -> (r: bool)
    ensures
        r == has_forbidden_reissue_model(info@, current@, cells_model(outputs@)),
{
    let ghost all = cells_model(outputs@);
    let mut i: usize = 0;
    while i < outputs.len()
        invariant
            i <= outputs@.len(),
            all == cells_model(outputs@),
            forall|j: int|
                0 <= j < i ==> !(is_same_policy_same_owner_model(all[j].lock, current@, info@)
                    && all[j].type_ is Some),
        decreases outputs@.len() - i,
    {
        let cell = &outputs[i];
        if is_same_policy_same_owner(&cell.lock, current, info) && cell.type_.is_some() {
            assert(is_same_policy_same_owner_model(all[i as int].lock, current@, info@)
                && all[i as int].type_ is Some);
            return true;
        }
        i = i + 1;
    }
    false
}

} // verus!
