//! Lock classifier: structural predicates over lock descriptors.
//!
//! A cell is related to the running invocation in one of three ways: its lock
//! is exactly the owner's descriptor (a payment target or the owner acting in
//! person), its lock runs the same policy code (a sale cell of anyone's), or
//! its lock runs the same policy code on behalf of the same owner (a sale
//! cell of this invocation's seller).
use vstd::prelude::*;
use crate::codec::{decode, decoded_info, MIN_ARGS_LEN};
use crate::types::{LockDescriptor, LockDescriptorModel, SellingInfo, SellingInfoModel};

verus! {

/// The candidate lock is exactly the owner's descriptor: all three fields
/// byte-identical.
pub open spec fn is_owner_model(candidate: LockDescriptorModel, info: SellingInfoModel) -> bool {
    candidate == info.owner_lock
}

/// The candidate lock runs the same policy code as the current invocation,
/// whatever its own parameters say.
pub open spec fn is_same_policy_model(
    candidate: LockDescriptorModel,
    current: LockDescriptorModel,
) -> bool {
    candidate.code_hash == current.code_hash && candidate.hash_type == current.hash_type
}

/// The candidate lock is a sale cell of the same owner: same policy code, and
/// its own argument field decodes to the same owner descriptor. A candidate
/// whose argument field is too short to decode cannot be established as
/// same-owner and is excluded.
pub open spec fn is_same_policy_same_owner_model(
    candidate: LockDescriptorModel,
    current: LockDescriptorModel,
    info: SellingInfoModel,
) -> bool {
    &&& is_same_policy_model(candidate, current)
    &&& candidate.args.len() >= MIN_ARGS_LEN
    &&& decoded_info(candidate.args).owner_lock == info.owner_lock
}

/// Byte-for-byte equality of two descriptors.
pub fn lock_eq(a: &LockDescriptor, b: &LockDescriptor) -> (r: bool)
    ensures
        r == (a@ == b@),
{
    let r = a.code_hash == b.code_hash && a.hash_type == b.hash_type && a.args == b.args;
    proof {
        if r {
            assert(a@.code_hash =~= b@.code_hash);
            assert(a@.args =~= b@.args);
            assert(a@ =~= b@);
        } else {
            if a@ == b@ {
                assert(a.code_hash@ == b.code_hash@);
                assert(a.args@ == b.args@);
                assert(false);
            }
        }
    }
    r
}

/// Exact match against the owner descriptor.
pub fn is_owner(candidate: &LockDescriptor, info: &SellingInfo) -> (r: bool)
    ensures
        r == is_owner_model(candidate@, info@),
{
    lock_eq(candidate, &info.owner_lock)
}

/// Same policy code as the current invocation.
pub fn is_same_policy(candidate: &LockDescriptor, current: &LockDescriptor) -> (r: bool)
    ensures
        r == is_same_policy_model(candidate@, current@),
{
    let r = candidate.code_hash == current.code_hash && candidate.hash_type == current.hash_type;
    proof {
        if r {
            assert(candidate@.code_hash =~= current@.code_hash);
        } else {
            if is_same_policy_model(candidate@, current@) {
                assert(candidate.code_hash@ == current.code_hash@);
                assert(false);
            }
        }
    }
    r
}

/// Same policy code and same decoded owner.
pub fn is_same_policy_same_owner(
    candidate: &LockDescriptor,
    current: &LockDescriptor,
    info: &SellingInfo,
) -> (r: bool)
    ensures
        r == is_same_policy_same_owner_model(candidate@, current@, info@),
{
    if !is_same_policy(candidate, current) {
        return false;
    }
    match decode(&candidate.args) {
        Ok(candidate_info) => lock_eq(&candidate_info.owner_lock, &info.owner_lock),
        Err(_) => false,
    }
}

} // verus!
