//! The Alloy value types that the environments carry, and the few operations
//! on them that the projections need. Nothing here is proved: each item states
//! what the Alloy crates do.

use alloy_eip2930::{AccessList, AccessListItem};
use alloy_eip7702::SignedAuthorization;
use alloy_primitives::{Address, Bytes, FixedBytes, TxKind, Uint, U256};
use vstd::prelude::*;

verus! {

/// `alloy_primitives::Address`, a 20-byte account address.
#[verifier::external_type_specification]
#[verifier::external_body]
pub struct ExAddress(Address);

/// `alloy_primitives::FixedBytes`, a byte array of fixed length. `B256` is
/// its 32-byte instance.
#[verifier::external_type_specification]
#[verifier::external_body]
pub struct ExFixedBytes<const N: usize>(FixedBytes<N>);

/// `ruint::Uint`, an unsigned integer of fixed width. `U256` is its 256-bit
/// instance.
#[verifier::external_type_specification]
#[verifier::external_body]
pub struct ExUint<const BITS: usize, const LIMBS: usize>(Uint<BITS, LIMBS>);

/// `alloy_primitives::Bytes`, an owned byte string.
#[verifier::external_type_specification]
#[verifier::external_body]
pub struct ExBytes(Bytes);

/// `alloy_primitives::TxKind`, the call-or-create discriminator.
#[verifier::external_type_specification]
#[verifier::external_body]
pub struct ExTxKind(TxKind);

/// `alloy_eip2930::AccessList`, an ordered list of addresses with their
/// storage keys.
#[verifier::external_type_specification]
#[verifier::external_body]
pub struct ExAccessList(AccessList);

/// `alloy_eip2930::AccessListItem`, one address with its storage keys.
#[verifier::external_type_specification]
#[verifier::external_body]
pub struct ExAccessListItem(AccessListItem);

/// `alloy_eip7702::SignedAuthorization`, one signed delegation.
#[verifier::external_type_specification]
#[verifier::external_body]
pub struct ExSignedAuthorization(SignedAuthorization);

/// The number that a `U256` holds.
pub uninterp spec fn u256_value(x: U256) -> nat;

/// What `TxKind::to` returns: the callee of a call, nothing for a create.
pub uninterp spec fn tx_kind_to(kind: TxKind) -> Option<Address>;

/// The largest number that a `U256` holds, `2^256 - 1`.
pub open spec fn u256_max() -> nat {
    0xffff_ffff_ffff_ffff_ffff_ffff_ffff_ffff_ffff_ffff_ffff_ffff_ffff_ffff_ffff_ffffnat
}

/// The product of `a` and `b`, held at `u256_max()` where it would exceed it.
pub open spec fn saturating_product(a: nat, b: nat) -> nat {
    if a * b <= u256_max() {
        a * b
    } else {
        u256_max()
    }
}

/// `Uint::from` on a `u64`. The conversion fills the lowest limb with `x`
/// and cannot fail at 256 bits, so the result holds the same number.
#[verifier::external_body]
pub(crate) fn u256_from_u64(x: u64) -> (r: U256)
    ensures
        u256_value(r) == x,
{
    U256::from(x)
}

/// `Uint::from` on a `u128`. The conversion fills the two lowest limbs with
/// `x` and cannot fail at 256 bits, so the result holds the same number.
#[verifier::external_body]
pub(crate) fn u256_from_u128(x: u128) -> (r: U256)
    ensures
        u256_value(r) == x,
{
    U256::from(x)
}

/// `Uint::saturating_mul`: the product, or the largest `U256` where the
/// product does not fit.
#[verifier::external_body]
pub(crate) fn u256_saturating_mul(a: U256, b: U256) -> (r: U256)
    ensures
        u256_value(r) == saturating_product(u256_value(a), u256_value(b)),
{
    a.saturating_mul(b)
}

/// `TxKind::Call`: the discriminator of a call to `address`.
#[verifier::external_body]
pub(crate) fn tx_kind_call(address: Address) -> (kind: TxKind)
    ensures
        tx_kind_to(kind) == Some(address),
{
    TxKind::Call(address)
}

/// `TxKind::Create`: the discriminator of a contract creation.
#[verifier::external_body]
pub(crate) fn tx_kind_create() -> (kind: TxKind)
    ensures
        tx_kind_to(kind) == None::<Address>,
{
    TxKind::Create
}

/// The derived `Clone` of `FixedBytes` copies the byte array.
pub assume_specification<const N: usize>[ <FixedBytes<N> as Clone>::clone ](
    bytes: &FixedBytes<N>,
) -> (copy: FixedBytes<N>)
    ensures
        copy == *bytes,
;

/// The derived `Clone` of `Bytes` hands out a second handle on the same
/// bytes.
pub assume_specification[ <Bytes as Clone>::clone ](bytes: &Bytes) -> (copy: Bytes)
    ensures
        copy == *bytes,
;

/// The derived `Clone` of `AccessList` copies the list item by item, in
/// order.
pub assume_specification[ <AccessList as Clone>::clone ](list: &AccessList) -> (copy: AccessList)
    ensures
        copy == *list,
;

/// The derived `Clone` of `SignedAuthorization` copies each of its fields.
pub assume_specification[ <SignedAuthorization as Clone>::clone ](
    authorization: &SignedAuthorization,
) -> (copy: SignedAuthorization)
    ensures
        copy == *authorization,
;

} // verus!
