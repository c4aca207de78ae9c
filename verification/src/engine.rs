//! Decision engine: the owner/purchase state machine.
//!
//! An invocation decodes its own argument field into the selling parameters,
//! then accepts immediately if the owner descriptor appears among the
//! consumed cells' locks. Otherwise the purchase path applies: the
//! transaction must not re-create a same-owner sale cell with a type
//! descriptor attached, and must deliver to the owner at least the summed
//! price of every same-owner sale cell it consumes. Overpayment is always
//! permitted; exact payment suffices.
use vstd::prelude::*;
use crate::aggregate::{
    delivered_payment, delivered_payment_model, has_forbidden_reissue,
    has_forbidden_reissue_model, owner_present, owner_present_model, required_payment,
    required_payment_model,
};
use crate::codec::{decode, decoded_info, MIN_ARGS_LEN};
use crate::types::{Error, LockDescriptor, LockDescriptorModel, SellingInfo, SellingInfoModel,
    TransactionModel, TransactionView};

verus! {

/// Verdict of the purchase path for decoded parameters `info`, as a function
/// of the whole transaction.
pub open spec fn purchase_decision(
    info: SellingInfoModel,
    current: LockDescriptorModel,
    tx: TransactionModel,
) -> Result<(), Error> {
    if has_forbidden_reissue_model(info, current, tx.outputs) {
        Err(Error::InvalidUnlock)
    } else if delivered_payment_model(info, tx.outputs) >= required_payment_model(
        info,
        current,
        tx.inputs,
    ) {
        Ok(())
    } else {
        Err(Error::InvalidUnlock)
    }
}

/// Verdict of one invocation of the policy: the lock descriptor under which
/// it runs, against the transaction being verified.
pub open spec fn decision(current: LockDescriptorModel, tx: TransactionModel) -> Result<
    (),
    Error,
> {
    if current.args.len() < MIN_ARGS_LEN {
        Err(Error::InvalidArgs)
    } else {
        let info = decoded_info(current.args);
        if owner_present_model(info, tx.inputs) {
            Ok(())
        } else {
            purchase_decision(info, current, tx)
        }
    }
}

/// Purchase path: no forbidden reissue, and the delivered payment covers the
/// required payment.
pub fn unlock_by_purchase(
    info: &SellingInfo,
    current: &LockDescriptor,
    tx: &TransactionView,
) -> (r: Result<(), Error>)
    ensures
        r == purchase_decision(info@, current@, tx@),
{
    if has_forbidden_reissue(info, current, &tx.outputs) {
        return Err(Error::InvalidUnlock);
    }
    let required = required_payment(info, current, &tx.inputs);
    let delivered = delivered_payment(info, &tx.outputs);
    if delivered >= required {
        Ok(())
    } else {
        Err(Error::InvalidUnlock)
    }
}

/// Owner path: the owner descriptor appears among the consumed cells' locks,
/// which authorizes the transaction unconditionally.
pub fn unlock_by_owner(info: &SellingInfo, tx: &TransactionView) -> (r: bool)
    ensures
        r == owner_present_model(info@, tx@.inputs),
{
    owner_present(info, &tx.inputs)
}

/// Whole decision for one invocation: decode the invoking lock's argument
/// field, try the owner path, then the purchase path.
pub fn verify_unlock(current: &LockDescriptor, tx: &TransactionView) -> (r: Result<(), Error>)
    ensures
        r == decision(current@, tx@),
{
    let info = match decode(&current.args) {
        Ok(info) => info,
        Err(e) => {
            return Err(e);
        },
    };
    if unlock_by_owner(&info, tx) {
        return Ok(());
    }
    unlock_by_purchase(&info, current, tx)
}

} // verus!
