//! The transaction environment, its destination, and its projection into the
//! transaction context of REVM.

use crate::alloy_types::{
    saturating_product, tx_kind_call, tx_kind_create, tx_kind_to, u256_from_u128, u256_from_u64,
    u256_max, u256_saturating_mul, u256_value,
};
use crate::revm_types::{gas_per_blob, tx_env_fields, tx_env_from_fields, TxFields, GAS_PER_BLOB};
use alloy_eip2930::AccessList;
use alloy_eip7702::SignedAuthorization;
use alloy_primitives::{Address, Bytes, TxKind, B256, U256};
use revm::context::TxEnv as RevmTxEnv;
use vstd::prelude::*;
use vstd::std_specs::convert::FromSpecImpl;

verus! {

/// Destination selector for an Ethereum transaction.
#[derive(Clone, Copy, Debug, PartialEq, Eq)]
pub enum TransactTo {
    /// Call an existing account.
    Call(Address),
    /// Create a new contract.
    Create,
}

impl TransactTo {
    /// The callee address of a `Call`; nothing for `Create`.
    pub open spec fn target(self) -> Option<Address> {
        match self {
            TransactTo::Call(address) => Some(address),
            TransactTo::Create => None,
        }
    }

    /// Returns the callee address when this is a `Call` transaction.
    pub fn to(&self) -> (callee: Option<&Address>)
        ensures
            callee == match *self {
                TransactTo::Call(address) => Some(&address),
                TransactTo::Create => None,
            },
    {
        match self {
            Self::Call(address) => Some(address),
            Self::Create => None,
        }
    }

    /// Converts this destination into the REVM `TxKind`: a call carries its
    /// callee, a create carries nothing.
    pub fn kind(&self) -> (kind: TxKind)
        ensures
            tx_kind_to(kind) == self.target(),
    {
        match self {
            Self::Call(address) => tx_kind_call(*address),
            Self::Create => tx_kind_create(),
        }
    }
}

impl Default for TransactTo {
    fn default() -> (destination: Self)
        ensures
            destination == TransactTo::Create,
    {
        TransactTo::Create
    }
}

/// Transaction environment used by PEVM and REVM.
#[derive(Debug, Default)]
pub struct TxEnv {
    /// EIP-2718 transaction type tag.
    pub tx_type: u8,
    /// Transaction sender.
    pub caller: Address,
    /// Gas limit supplied by the sender.
    pub gas_limit: u64,
    /// Gas price used for legacy style transactions.
    pub gas_price: u128,
    /// Optional max priority fee for EIP-1559 style transactions.
    pub gas_priority_fee: Option<u128>,
    /// Call or create destination.
    pub transact_to: TransactTo,
    /// Amount of ETH transferred alongside the call.
    pub value: U256,
    /// Calldata / initcode payload.
    pub data: Bytes,
    /// Optional nonce override. `None` skips nonce validation.
    pub nonce: Option<u64>,
    /// Optional chain id override.
    pub chain_id: Option<u64>,
    /// Access list for EIP-2930 style transactions.
    pub access_list: AccessList,
    /// Blob versioned hashes for EIP-4844 transactions.
    pub blob_versioned_hashes: Vec<B256>,
    /// Max data fee per blob for EIP-4844 transactions.
    pub max_fee_per_blob_gas: Option<u128>,
    /// Optional EIP-7702 authorizations.
    pub authorization_list: Vec<SignedAuthorization>,
}

impl Clone for TxEnv {
    /// Copies the environment field by field, the lists in order.
    fn clone(&self) -> (copy: Self)
        ensures
            copy.same_as(*self),
    {
        TxEnv {
            tx_type: self.tx_type,
            caller: self.caller,
            gas_limit: self.gas_limit,
            gas_price: self.gas_price,
            gas_priority_fee: self.gas_priority_fee,
            transact_to: self.transact_to,
            value: self.value,
            data: self.data.clone(),
            nonce: self.nonce,
            chain_id: self.chain_id,
            access_list: self.access_list.clone(),
            blob_versioned_hashes: self.blob_versioned_hashes.clone(),
            max_fee_per_blob_gas: self.max_fee_per_blob_gas,
            authorization_list: self.authorization_list.clone(),
        }
    }
}

impl TxEnv {
    /// Whether the two environments hold the same fields, the lists item by
    /// item.
    pub open spec fn same_as(self, other: TxEnv) -> bool {
        &&& self.tx_type == other.tx_type
        &&& self.caller == other.caller
        &&& self.gas_limit == other.gas_limit
        &&& self.gas_price == other.gas_price
        &&& self.gas_priority_fee == other.gas_priority_fee
        &&& self.transact_to == other.transact_to
        &&& self.value == other.value
        &&& self.data == other.data
        &&& self.nonce == other.nonce
        &&& self.chain_id == other.chain_id
        &&& self.access_list == other.access_list
        &&& self.blob_versioned_hashes@ == other.blob_versioned_hashes@
        &&& self.max_fee_per_blob_gas == other.max_fee_per_blob_gas
        &&& self.authorization_list@ == other.authorization_list@
    }

    /// The blob gas that the transaction consumes: `GAS_PER_BLOB` for each
    /// blob versioned hash.
    pub open spec fn total_blob_gas(self) -> nat {
        GAS_PER_BLOB as nat * self.blob_versioned_hashes@.len()
    }

    /// The cap on the data fee per unit of blob gas, zero where none is set.
    pub open spec fn blob_fee_cap(self) -> nat {
        match self.max_fee_per_blob_gas {
            Some(cap) => cap as nat,
            None => 0,
        }
    }

    /// The most that the transaction can pay for its blobs.
    pub open spec fn max_data_fee(self) -> nat {
        self.blob_fee_cap() * self.total_blob_gas()
    }

    /// Whether `tx` holds what the projection of this environment holds:
    /// every field as it is, but a missing nonce and a missing blob fee cap
    /// as zero.
    pub open spec fn projects_to(self, tx: TxFields) -> bool {
        &&& tx.tx_type == self.tx_type
        &&& tx.caller == self.caller
        &&& tx.gas_limit == self.gas_limit
        &&& tx.gas_price == self.gas_price
        &&& tx.gas_priority_fee == self.gas_priority_fee
        &&& tx_kind_to(tx.kind) == self.transact_to.target()
        &&& tx.value == self.value
        &&& tx.data == self.data
        &&& tx.nonce == match self.nonce {
            Some(nonce) => nonce,
            None => 0,
        }
        &&& tx.chain_id == self.chain_id
        &&& tx.access_list == self.access_list
        &&& tx.blob_hashes@ == self.blob_versioned_hashes@
        &&& tx.max_fee_per_blob_gas == match self.max_fee_per_blob_gas {
            Some(cap) => cap,
            None => 0,
        }
        &&& tx.authorization_list@ == self.authorization_list@
    }

    /// Returns the REVM transaction kind.
    pub fn kind(&self) -> (kind: TxKind)
        ensures
            tx_kind_to(kind) == self.transact_to.target(),
    {
        self.transact_to.kind()
    }

    /// Total blob gas consumed by this transaction.
    ///
    /// The count of blob hashes must be one whose blob gas fits in 64 bits.
    pub fn get_total_blob_gas(&self) -> (gas: u64)
        requires
            self.total_blob_gas() <= u64::MAX,
        ensures
            gas == self.total_blob_gas(),
            gas == 131_072 * self.blob_versioned_hashes@.len(),
    {
        gas_per_blob() * (self.blob_versioned_hashes.len() as u64)
    }

    /// Calculates the maximum EIP-4844 data fee for this transaction: the
    /// blob fee cap times the total blob gas, saturating at 256 bits. A cap
    /// of 128 bits times a gas of 64 bits never reaches that bound.
    pub fn calc_max_data_fee(&self) -> (fee: U256)
        requires
            self.total_blob_gas() <= u64::MAX,
        ensures
            u256_value(fee) == saturating_product(self.blob_fee_cap(), self.total_blob_gas()),
            u256_value(fee) == self.max_data_fee(),
            self.max_fee_per_blob_gas is None ==> u256_value(fee) == 0,
            self.blob_versioned_hashes@.len() == 0 ==> u256_value(fee) == 0,
    {
        let blob_gas = u256_from_u64(self.get_total_blob_gas());
        let max_fee = u256_from_u128(self.max_fee_per_blob_gas.unwrap_or_default());
        proof {
            lemma_data_fee_fits(self.blob_fee_cap(), self.total_blob_gas());
        }
        u256_saturating_mul(max_fee, blob_gas)
    }

    /// Builds a REVM transaction environment from this instance.
    pub fn as_revm(&self) -> (tx: RevmTxEnv)
        ensures
            self.projects_to(tx_env_fields(tx)),
    {
        RevmTxEnv::from(self)
    }
}

impl From<&TxEnv> for RevmTxEnv {
    /// Projects the environment into a fresh REVM transaction context. The
    /// byte string and the three lists are copied, in order.
    fn from(env: &TxEnv) -> (tx: RevmTxEnv)
        ensures
            env.projects_to(tx_env_fields(tx)),
    {
        let blob_hashes = env.blob_versioned_hashes.clone();
        let authorization_list = env.authorization_list.clone();
        tx_env_from_fields(
            TxFields {
                tx_type: env.tx_type,
                caller: env.caller,
                gas_limit: env.gas_limit,
                gas_price: env.gas_price,
                kind: env.transact_to.kind(),
                value: env.value,
                data: env.data.clone(),
                nonce: env.nonce.unwrap_or_default(),
                chain_id: env.chain_id,
                access_list: env.access_list.clone(),
                gas_priority_fee: env.gas_priority_fee,
                blob_hashes,
                max_fee_per_blob_gas: env.max_fee_per_blob_gas.unwrap_or_default(),
                authorization_list,
            },
        )
    }
}

impl FromSpecImpl<&TxEnv> for RevmTxEnv {
    /// No spec function can build a REVM context: what `from` returns is
    /// stated by its own contract.
    open spec fn obeys_from_spec() -> bool {
        false
    }

    open spec fn from_spec(env: &TxEnv) -> RevmTxEnv {
        arbitrary()
    }
}

/// A blob fee cap of 128 bits times a blob gas of 64 bits is below `2^256`.
pub proof fn lemma_data_fee_fits(cap: nat, gas: nat)
    requires
        cap <= u128::MAX,
        gas <= u64::MAX,
    ensures
        cap * gas <= u256_max(),
        saturating_product(cap, gas) == cap * gas,
        cap == 0 || gas == 0 ==> cap * gas == 0,
{
    assert(cap == 0 || gas == 0 ==> cap * gas == 0) by (nonlinear_arith);
    assert(cap * gas <= 0xffff_ffff_ffff_ffff_ffff_ffff_ffff_ffffnat * 0xffff_ffff_ffff_ffffnat)
        by (nonlinear_arith)
        requires
            cap <= 0xffff_ffff_ffff_ffff_ffff_ffff_ffff_ffffnat,
            gas <= 0xffff_ffff_ffff_ffffnat,
    ;
}

/// Two projections of one environment agree field by field: the projection
/// depends on nothing but the environment.
pub proof fn lemma_projection_is_a_function(env: TxEnv, first: TxFields, second: TxFields)
    requires
        env.projects_to(first),
        env.projects_to(second),
    ensures
        first.tx_type == second.tx_type,
        first.caller == second.caller,
        first.gas_limit == second.gas_limit,
        first.gas_price == second.gas_price,
        first.gas_priority_fee == second.gas_priority_fee,
        tx_kind_to(first.kind) == tx_kind_to(second.kind),
        first.value == second.value,
        first.data == second.data,
        first.nonce == second.nonce,
        first.chain_id == second.chain_id,
        first.access_list == second.access_list,
        first.blob_hashes@ == second.blob_hashes@,
        first.max_fee_per_blob_gas == second.max_fee_per_blob_gas,
        first.authorization_list@ == second.authorization_list@,
{
}

/// A missing nonce and a missing blob fee cap are projected as zero.
pub proof fn lemma_absence_collapses_to_zero(env: TxEnv, tx: TxFields)
    requires
        env.projects_to(tx),
    ensures
        env.nonce is None ==> tx.nonce == 0,
        env.max_fee_per_blob_gas is None ==> tx.max_fee_per_blob_gas == 0,
{
}

} // verus!
