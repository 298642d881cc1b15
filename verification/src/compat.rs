//! The block header as the engine reads it, and its projection into the
//! block context of REVM.

use crate::alloy_types::{u256_from_u64, u256_value};
use crate::revm_types::{
    blob_excess_gas_and_price, blob_gasprice, blob_gasprice_in_reach, block_env_fields,
    block_env_from_fields, cancun_update_fraction, is_osaka_enabled,
    new_blob_excess_gas_and_price, prague_update_fraction, spec_id_number, BlockFields,
    BLOB_BASE_FEE_UPDATE_FRACTION_CANCUN, BLOB_BASE_FEE_UPDATE_FRACTION_PRAGUE,
    MAX_BLOB_FEE_EXPONENT, OSAKA,
};
use alloy_primitives::{Address, B256, U256};
use revm::context::BlockEnv;
use revm::primitives::hardfork::SpecId;
use vstd::prelude::*;

verus! {

/// The fields of a block header that execution depends on.
#[derive(Clone, Copy, Debug)]
pub struct BlockHeader {
    /// Block height.
    pub number: u64,
    /// Address credited with the fees of the block.
    pub beneficiary: Address,
    /// Seconds since the UNIX epoch.
    pub timestamp: u64,
    /// Gas limit of the block.
    pub gas_limit: u64,
    /// Base fee per gas, absent before EIP-1559.
    pub base_fee_per_gas: Option<u64>,
    /// Difficulty of the block.
    pub difficulty: U256,
    /// Mix hash, which carries the randomness of the beacon chain.
    pub mix_hash: B256,
    /// Excess blob gas, absent before EIP-4844.
    pub excess_blob_gas: Option<u64>,
}

/// The blob base fee update fraction of a protocol revision: that of Prague
/// from Osaka on, that of Cancun before.
pub open spec fn update_fraction(spec_id: SpecId) -> u64 {
    if spec_id_number(spec_id) >= OSAKA {
        BLOB_BASE_FEE_UPDATE_FRACTION_PRAGUE
    } else {
        BLOB_BASE_FEE_UPDATE_FRACTION_CANCUN
    }
}

impl BlockHeader {
    /// Whether the blob gas price of this header is within reach under the
    /// given revision: the header carries no excess blob gas, or one whose
    /// quotient by the update fraction is at most `MAX_BLOB_FEE_EXPONENT`.
    pub open spec fn blob_fee_in_reach(self, spec_id: SpecId) -> bool {
        self.excess_blob_gas matches Some(excess) ==> excess <= MAX_BLOB_FEE_EXPONENT
            * update_fraction(spec_id)
    }

    /// Whether `block` holds what the projection of this header holds under
    /// the given revision.
    pub open spec fn projects_to(self, spec_id: SpecId, block: BlockFields) -> bool {
        &&& u256_value(block.number) == self.number
        &&& block.beneficiary == self.beneficiary
        &&& u256_value(block.timestamp) == self.timestamp
        &&& block.gas_limit == self.gas_limit
        &&& block.basefee == match self.base_fee_per_gas {
            Some(fee) => fee,
            None => 0,
        }
        &&& block.difficulty == self.difficulty
        &&& block.prevrandao == Some(self.mix_hash)
        &&& match self.excess_blob_gas {
            Some(excess) => {
                &&& block.blob_excess_gas_and_price matches Some(blob)
                &&& blob_excess_gas_and_price(blob) == (
                    excess,
                    blob_gasprice(excess, update_fraction(spec_id)),
                )
            },
            None => block.blob_excess_gas_and_price is None,
        }
        &&& block.slot_num == 0
    }

    /// Tells whether `get_block_env` accepts this header under the given
    /// revision.
    pub fn has_blob_fee_in_reach(&self, spec_id: SpecId) -> (in_reach: bool)
        ensures
            in_reach == self.blob_fee_in_reach(spec_id),
    {
        match self.excess_blob_gas {
            Some(excess) => excess <= MAX_BLOB_FEE_EXPONENT * blob_base_fee_update_fraction(
                spec_id,
            ),
            None => true,
        }
    }
}

/// Selects the blob base fee update fraction of a protocol revision.
pub fn blob_base_fee_update_fraction(spec_id: SpecId) -> (fraction: u64)
    ensures
        fraction == update_fraction(spec_id),
{
    if is_osaka_enabled(spec_id) {
        prague_update_fraction()
    } else {
        cancun_update_fraction()
    }
}

/// Get the REVM block env of a block header.
///
/// The number and the timestamp are widened to 256 bits, a missing base fee
/// is zero, the mix hash is always the `prevrandao`, and the excess blob gas,
/// where the header has one, comes with the blob gas price under the update
/// fraction of the revision. The slot number is zero.
///
/// REVM computes the blob gas price in 128 bits, which an excess blob gas of
/// more than `MAX_BLOB_FEE_EXPONENT` update fractions may overflow: such a
/// header is not accepted. `BlockHeader::has_blob_fee_in_reach` tells.
pub fn get_block_env(header: &BlockHeader, spec_id: SpecId) -> (env: BlockEnv)
    requires
        header.blob_fee_in_reach(spec_id),
    ensures
        header.projects_to(spec_id, block_env_fields(env)),
{
    let blob_excess_gas_and_price = match header.excess_blob_gas {
        Some(excess_blob_gas) => {
            let base_fee_update_fraction = blob_base_fee_update_fraction(spec_id);
            Some(new_blob_excess_gas_and_price(excess_blob_gas, base_fee_update_fraction))
        },
        None => None,
    };
    block_env_from_fields(
        BlockFields {
            number: u256_from_u64(header.number),
            beneficiary: header.beneficiary,
            timestamp: u256_from_u64(header.timestamp),
            gas_limit: header.gas_limit,
            basefee: header.base_fee_per_gas.unwrap_or_default(),
            difficulty: header.difficulty,
            prevrandao: Some(header.mix_hash),
            blob_excess_gas_and_price,
            slot_num: 0,
        },
    )
}

/// Before Osaka, a header with excess blob gas is projected with the blob
/// gas price under the Cancun update fraction.
pub proof fn lemma_cancun_fraction_before_osaka(
    header: BlockHeader,
    spec_id: SpecId,
    block: BlockFields,
    excess: u64,
)
    requires
        header.projects_to(spec_id, block),
        header.excess_blob_gas == Some(excess),
        spec_id_number(spec_id) < OSAKA,
    ensures
        block.blob_excess_gas_and_price matches Some(blob) && blob_excess_gas_and_price(blob) == (
            excess,
            blob_gasprice(excess, 3_338_477),
        ),
{
}

/// From Osaka on, a header with excess blob gas is projected with the blob
/// gas price under the Prague update fraction.
pub proof fn lemma_prague_fraction_from_osaka(
    header: BlockHeader,
    spec_id: SpecId,
    block: BlockFields,
    excess: u64,
)
    requires
        header.projects_to(spec_id, block),
        header.excess_blob_gas == Some(excess),
        spec_id_number(spec_id) >= OSAKA,
    ensures
        block.blob_excess_gas_and_price matches Some(blob) && blob_excess_gas_and_price(blob) == (
            excess,
            blob_gasprice(excess, 5_007_716),
        ),
{
}

/// A header without excess blob gas is projected without a blob gas price,
/// whatever the revision.
pub proof fn lemma_no_blob_fee_without_excess(
    header: BlockHeader,
    spec_id: SpecId,
    block: BlockFields,
)
    requires
        header.projects_to(spec_id, block),
        header.excess_blob_gas is None,
    ensures
        block.blob_excess_gas_and_price is None,
{
}

/// The projected block always carries the mix hash of the header as its
/// `prevrandao`.
pub proof fn lemma_prevrandao_is_mix_hash(header: BlockHeader, spec_id: SpecId, block: BlockFields)
    requires
        header.projects_to(spec_id, block),
    ensures
        block.prevrandao == Some(header.mix_hash),
{
}

} // verus!
