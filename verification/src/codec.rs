//! Descriptor codec: the byte layout of the policy's own argument field.
//!
//! Layout: `code_hash (32 bytes) || hash_type (1 byte) || owner_args
//! (0..N bytes) || price (8 bytes, little-endian unsigned)`. The total length
//! is therefore at least 41 bytes, and the owner's argument bytes are
//! everything between the fixed prefix and the price suffix.
use vstd::prelude::*;
use crate::types::{Error, LockDescriptor, LockDescriptorModel, SellingInfo, SellingInfoModel};

verus! {

/// Shortest well-formed argument field: 32-byte code hash, 1-byte hash type,
/// empty owner args, 8-byte price.
pub const MIN_ARGS_LEN: usize = 41;

/// Number of bytes the little-endian price occupies at the end of the field.
pub const PRICE_LEN: usize = 8;

/// Value of an 8-byte little-endian unsigned integer.
pub open spec fn le_value(b: Seq<u8>) -> int
    recommends
        b.len() == 8,
{
    b[0] + b[1] * 0x100 + b[2] * 0x1_0000 + b[3] * 0x100_0000 + b[4] * 0x1_0000_0000 + b[5]
        * 0x100_0000_0000 + b[6] * 0x1_0000_0000_0000 + b[7] * 0x100_0000_0000_0000
}

/// The 8-byte little-endian encoding of a 64-bit unsigned integer.
pub open spec fn le_bytes(p: u64) -> Seq<u8> {
    seq![
        (p as int % 0x100) as u8,
        (p as int / 0x100 % 0x100) as u8,
        (p as int / 0x1_0000 % 0x100) as u8,
        (p as int / 0x100_0000 % 0x100) as u8,
        (p as int / 0x1_0000_0000 % 0x100) as u8,
        (p as int / 0x100_0000_0000 % 0x100) as u8,
        (p as int / 0x1_0000_0000_0000 % 0x100) as u8,
        (p as int / 0x100_0000_0000_0000 % 0x100) as u8,
    ]
}

/// The owner descriptor stored inside a well-formed argument field.
pub open spec fn owner_lock_of_args(args: Seq<u8>) -> LockDescriptorModel
    recommends
        args.len() >= MIN_ARGS_LEN,
{
    LockDescriptorModel {
        code_hash: args.subrange(0, 32),
        hash_type: args[32],
        args: args.subrange(33, args.len() - 8),
    }
}

/// The selling parameters stored inside a well-formed argument field.
pub open spec fn decoded_info(args: Seq<u8>) -> SellingInfoModel
    recommends
        args.len() >= MIN_ARGS_LEN,
{
    SellingInfoModel {
        owner_lock: owner_lock_of_args(args),
        price: le_value(args.subrange(args.len() - 8, args.len() as int)) as u64,
    }
}

/// The argument field that advertises `owner` as the payee and `price` as the
/// asking amount.
pub open spec fn encode_args(owner: LockDescriptorModel, price: u64) -> Seq<u8> {
    owner.code_hash + seq![owner.hash_type] + owner.args + le_bytes(price)
}

/// Reads the 8 bytes starting at `start` as a little-endian unsigned integer.
fn u64_from_le(bytes: &Vec<u8>, start: usize) -> (p: u64)
    requires
        start + 8 <= bytes@.len(),
    ensures
        p == le_value(bytes@.subrange(start as int, start + 8)),
{
    let n = bytes.len();
    assert(start + 8 <= n);
    let b0 = bytes[start] as u64;
    let b1 = bytes[start + 1] as u64;
    let b2 = bytes[start + 2] as u64;
    let b3 = bytes[start + 3] as u64;
    let b4 = bytes[start + 4] as u64;
    let b5 = bytes[start + 5] as u64;
    let b6 = bytes[start + 6] as u64;
    let b7 = bytes[start + 7] as u64;
    b0 + b1 * 0x100 + b2 * 0x1_0000 + b3 * 0x100_0000 + b4 * 0x1_0000_0000 + b5 * 0x100_0000_0000
        + b6 * 0x1_0000_0000_0000 + b7 * 0x100_0000_0000_0000
}

/// Reconstructs the owner descriptor from a well-formed argument field.
pub fn owner_lock_from_args(args: &Vec<u8>) -> (lock: LockDescriptor)
    requires
        args@.len() >= MIN_ARGS_LEN,
    ensures
        lock@ == owner_lock_of_args(args@),
{
    let n = args.len();
    let code_hash = vstd::slice::slice_to_vec(vstd::slice::slice_subrange(args.as_slice(), 0, 32));
    let hash_type = args[32];
    let owner_args = vstd::slice::slice_to_vec(
        vstd::slice::slice_subrange(args.as_slice(), 33, n - PRICE_LEN),
    );
    let lock = LockDescriptor { code_hash, hash_type, args: owner_args };
    assert(lock@ =~= owner_lock_of_args(args@));
    lock
}

/// Decodes an argument field into the selling parameters. Succeeds exactly on
/// fields long enough to hold the fixed layout; anything shorter is rejected
/// as `InvalidArgs`.
pub fn decode(args: &Vec<u8>) -> (r: Result<SellingInfo, Error>)
    ensures
        args@.len() >= MIN_ARGS_LEN ==> r is Ok && r->Ok_0@ == decoded_info(args@),
        args@.len() < MIN_ARGS_LEN ==> r == Err::<SellingInfo, Error>(Error::InvalidArgs),
{
    if args.len() < MIN_ARGS_LEN {
        return Err(Error::InvalidArgs);
    }
    let owner_lock = owner_lock_from_args(args);
    let price = u64_from_le(args, args.len() - PRICE_LEN);
    let info = SellingInfo { owner_lock, price };
    proof {
        let v = le_value(args@.subrange(args@.len() - 8, args@.len() as int));
        assert(0 <= v < 0x1_0000_0000_0000_0000);
        assert(info@ =~= decoded_info(args@));
    }
    Ok(info)
}

/// Appends every byte of `src` to `out`, in order.
fn append_bytes(out: &mut Vec<u8>, src: &Vec<u8>)
    ensures
        final(out)@ == old(out)@ + src@,
{
    let mut i: usize = 0;
    while i < src.len()
        invariant
            i <= src@.len(),
            out@ == old(out)@ + src@.take(i as int),
        decreases src@.len() - i,
    {
        out.push(src[i]);
        assert(old(out)@ + src@.take(i as int + 1) =~= (old(out)@ + src@.take(i as int)).push(
            src@[i as int],
        ));
        i = i + 1;
    }
    assert(old(out)@ + src@.take(src@.len() as int) =~= old(out)@ + src@);
}

/// Builds the argument field advertising `owner` as the payee at `price`.
/// This is the layout that sale-cell construction tooling must produce.
pub fn encode(owner: &LockDescriptor, price: u64) -> (r: Vec<u8>)
    ensures
        r@ == encode_args(owner@, price),
{
    let mut out: Vec<u8> = Vec::new();
    append_bytes(&mut out, &owner.code_hash);
    out.push(owner.hash_type);
    append_bytes(&mut out, &owner.args);
    out.push((price % 0x100) as u8);
    out.push((price / 0x100 % 0x100) as u8);
    out.push((price / 0x1_0000 % 0x100) as u8);
    out.push((price / 0x100_0000 % 0x100) as u8);
    out.push((price / 0x1_0000_0000 % 0x100) as u8);
    out.push((price / 0x100_0000_0000 % 0x100) as u8);
    out.push((price / 0x1_0000_0000_0000 % 0x100) as u8);
    out.push((price / 0x100_0000_0000_0000 % 0x100) as u8);
    assert(out@ =~= encode_args(owner@, price));
    out
}

} // verus!
