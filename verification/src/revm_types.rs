//! The REVM contexts that the projections produce, and the REVM functions
//! that they call. Nothing here is proved: each item states what REVM does.

use alloy_eip2930::AccessList;
use alloy_eip7702::SignedAuthorization;
use alloy_primitives::{Address, Bytes, TxKind, B256, U256};
use revm::context::{BlockEnv, TxEnv as RevmTxEnv};
use revm::context_interface::block::BlobExcessGasAndPrice;
use revm::primitives::eip4844;
use revm::primitives::hardfork::SpecId;
use vstd::prelude::*;

verus! {

/// Gas consumption of a single data blob.
pub const GAS_PER_BLOB: u64 = 131_072;

/// The blob base fee update fraction of the Cancun rules.
pub const BLOB_BASE_FEE_UPDATE_FRACTION_CANCUN: u64 = 3_338_477;

/// The blob base fee update fraction of the Prague rules.
pub const BLOB_BASE_FEE_UPDATE_FRACTION_PRAGUE: u64 = 5_007_716;

/// The number of `SpecId::OSAKA`.
pub const OSAKA: u8 = 13;

/// The largest quotient of excess blob gas by update fraction for which the
/// blob gas price is computed.
pub const MAX_BLOB_FEE_EXPONENT: u64 = 48;

/// The largest update fraction for which the blob gas price is computed.
pub const MAX_UPDATE_FRACTION: u64 = 0xff_ffff;

/// `revm::context::TxEnv`, the transaction context of the interpreter.
#[verifier::external_type_specification]
#[verifier::external_body]
pub struct ExRevmTxEnv(RevmTxEnv);

/// `revm::context::BlockEnv`, the block context of the interpreter.
#[verifier::external_type_specification]
#[verifier::external_body]
pub struct ExBlockEnv(BlockEnv);

/// `revm::context_interface::block::BlobExcessGasAndPrice`, the excess blob
/// gas of a block with the blob gas price that follows from it.
#[verifier::external_type_specification]
#[verifier::external_body]
pub struct ExBlobExcessGasAndPrice(BlobExcessGasAndPrice);

/// `revm::primitives::hardfork::SpecId`, the protocol revision.
#[verifier::external_type_specification]
#[verifier::external_body]
pub struct ExSpecId(SpecId);

/// The fields of a REVM transaction context, under REVM's names.
pub struct TxFields {
    pub tx_type: u8,
    pub caller: Address,
    pub gas_limit: u64,
    pub gas_price: u128,
    pub kind: TxKind,
    pub value: U256,
    pub data: Bytes,
    pub nonce: u64,
    pub chain_id: Option<u64>,
    pub access_list: AccessList,
    pub gas_priority_fee: Option<u128>,
    pub blob_hashes: Vec<B256>,
    pub max_fee_per_blob_gas: u128,
    /// The signed authorizations. REVM holds each as the left alternative of
    /// an `Either`, whose right alternative is a recovered authorization.
    pub authorization_list: Vec<SignedAuthorization>,
}

/// The fields of a REVM block context, under REVM's names.
pub struct BlockFields {
    pub number: U256,
    pub beneficiary: Address,
    pub timestamp: U256,
    pub gas_limit: u64,
    pub basefee: u64,
    pub difficulty: U256,
    pub prevrandao: Option<B256>,
    pub blob_excess_gas_and_price: Option<BlobExcessGasAndPrice>,
    pub slot_num: u64,
}

/// What a REVM transaction context holds. Of a context that holds a
/// recovered authorization the list is left open.
pub uninterp spec fn tx_env_fields(tx: RevmTxEnv) -> TxFields;

/// What a REVM block context holds.
pub uninterp spec fn block_env_fields(env: BlockEnv) -> BlockFields;

/// What a `BlobExcessGasAndPrice` holds: its `excess_blob_gas`, then its
/// `blob_gasprice`.
pub uninterp spec fn blob_excess_gas_and_price(blob: BlobExcessGasAndPrice) -> (u64, u128);

/// What `calc_blob_gasprice` returns: REVM's integer approximation of
/// `e^(excess_blob_gas / update_fraction)`, in wei.
pub uninterp spec fn blob_gasprice(excess_blob_gas: u64, update_fraction: u64) -> u128;

/// The number of a protocol revision, which `u8::from` returns. REVM numbers
/// the revisions in fork order, from 0 for Frontier.
pub uninterp spec fn spec_id_number(spec_id: SpecId) -> u8;

/// The inputs on which REVM computes a blob gas price within 128 bits.
pub open spec fn blob_gasprice_in_reach(excess_blob_gas: u64, update_fraction: u64) -> bool {
    &&& 0 < update_fraction <= MAX_UPDATE_FRACTION
    &&& excess_blob_gas <= MAX_BLOB_FEE_EXPONENT * update_fraction
}

/// The constant `eip4844::GAS_PER_BLOB`, which is `1 << 17`.
#[verifier::external_body]
pub(crate) fn gas_per_blob() -> (gas: u64)
    ensures
        gas == GAS_PER_BLOB,
{
    eip4844::GAS_PER_BLOB
}

/// The constant `eip4844::BLOB_BASE_FEE_UPDATE_FRACTION_CANCUN`.
#[verifier::external_body]
pub(crate) fn cancun_update_fraction() -> (fraction: u64)
    ensures
        fraction == BLOB_BASE_FEE_UPDATE_FRACTION_CANCUN,
{
    eip4844::BLOB_BASE_FEE_UPDATE_FRACTION_CANCUN
}

/// The constant `eip4844::BLOB_BASE_FEE_UPDATE_FRACTION_PRAGUE`.
#[verifier::external_body]
pub(crate) fn prague_update_fraction() -> (fraction: u64)
    ensures
        fraction == BLOB_BASE_FEE_UPDATE_FRACTION_PRAGUE,
{
    eip4844::BLOB_BASE_FEE_UPDATE_FRACTION_PRAGUE
}

/// `SpecId::is_enabled_in` with `SpecId::OSAKA`: whether the number of the
/// revision is at least that of `OSAKA`, the fourteenth variant of the enum.
#[verifier::external_body]
pub(crate) fn is_osaka_enabled(spec_id: SpecId) -> (enabled: bool)
    ensures
        enabled == (spec_id_number(spec_id) >= OSAKA),
{
    spec_id.is_enabled_in(SpecId::OSAKA)
}

/// `BlobExcessGasAndPrice::new`. It stores the excess blob gas beside the
/// price that `calc_blob_gasprice` computes from it.
///
/// The computation asserts that the fraction is not zero, and sums in `u128`
/// the terms `t(0) = fraction`, `t(i) = t(i-1) * excess / (fraction * i)`
/// until one is zero. With `excess <= 48 * fraction` no term exceeds
/// `fraction * 48^48 / 48! < fraction * 2^66`, so with `fraction < 2^24` every
/// product `t(i) * excess` stays below `2^120` and the sum below
/// `fraction * e^48 < 2^94`. Outside these bounds the arithmetic can overflow.
#[verifier::external_body]
pub(crate) fn new_blob_excess_gas_and_price(excess_blob_gas: u64, update_fraction: u64) -> (blob:
    BlobExcessGasAndPrice)
    requires
        blob_gasprice_in_reach(excess_blob_gas, update_fraction),
    ensures
        blob_excess_gas_and_price(blob) == (
            excess_blob_gas,
            blob_gasprice(excess_blob_gas, update_fraction),
        ),
{
    BlobExcessGasAndPrice::new(excess_blob_gas, update_fraction)
}

/// Builds the `revm::context::TxEnv` that holds the given fields. Each goes
/// into the field of its name, but for the authorizations: those go in
/// through `TxEnv::set_signed_authorization`, which wraps each as the left
/// alternative and keeps their order.
#[verifier::external_body]
pub(crate) fn tx_env_from_fields(fields: TxFields) -> (tx: RevmTxEnv)
    ensures
        tx_env_fields(tx) == fields,
{
    let mut tx = RevmTxEnv {
        tx_type: fields.tx_type, caller: fields.caller, gas_limit: fields.gas_limit,
        gas_price: fields.gas_price, kind: fields.kind, value: fields.value,
        data: fields.data, nonce: fields.nonce, chain_id: fields.chain_id,
        access_list: fields.access_list, gas_priority_fee: fields.gas_priority_fee,
        blob_hashes: fields.blob_hashes, max_fee_per_blob_gas: fields.max_fee_per_blob_gas,
        authorization_list: Vec::new(),
    };
    tx.set_signed_authorization(fields.authorization_list);
    tx
}

/// Builds the `revm::context::BlockEnv` that holds the given fields, each in
/// the field of its name.
#[verifier::external_body]
pub(crate) fn block_env_from_fields(fields: BlockFields) -> (env: BlockEnv)
    ensures
        block_env_fields(env) == fields,
{
    BlockEnv {
        number: fields.number,
        beneficiary: fields.beneficiary,
        timestamp: fields.timestamp,
        gas_limit: fields.gas_limit,
        basefee: fields.basefee,
        difficulty: fields.difficulty,
        prevrandao: fields.prevrandao,
        blob_excess_gas_and_price: fields.blob_excess_gas_and_price,
        slot_num: fields.slot_num,
    }
}

} // verus!
