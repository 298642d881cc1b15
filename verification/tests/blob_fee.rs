use alloy_primitives::{B256, U256};
use pevm::revm_types::{
    BLOB_BASE_FEE_UPDATE_FRACTION_CANCUN, BLOB_BASE_FEE_UPDATE_FRACTION_PRAGUE, GAS_PER_BLOB, OSAKA,
};
use pevm::TxEnv;
use revm::primitives::eip4844;
use revm::primitives::hardfork::SpecId;

fn env_with_blobs(count: u8, max_fee_per_blob_gas: Option<u128>) -> TxEnv {
    let mut blob_versioned_hashes = Vec::new();
    for i in 0..count {
        blob_versioned_hashes.push(B256::repeat_byte(i + 1));
    }
    TxEnv { tx_type: 3, blob_versioned_hashes, max_fee_per_blob_gas, ..TxEnv::default() }
}

#[test]
fn no_blobs_cost_no_gas_and_no_fee() {
    let env = env_with_blobs(0, Some(7));
    assert_eq!(env.get_total_blob_gas(), 0);
    assert_eq!(env.calc_max_data_fee(), U256::ZERO);
}

#[test]
fn three_blobs_at_fee_ten() {
    let env = env_with_blobs(3, Some(10));
    assert_eq!(env.get_total_blob_gas(), 393_216);
    assert_eq!(env.calc_max_data_fee(), U256::from(3_932_160u64));
}

#[test]
fn six_blobs_at_the_largest_fee_do_not_overflow() {
    let env = env_with_blobs(6, Some(u128::MAX));
    assert_eq!(env.get_total_blob_gas(), 786_432);
    let expected: U256 = "267608942382367477698428619271780338070978560".parse().unwrap();
    assert_eq!(env.calc_max_data_fee(), expected);
    assert!(env.calc_max_data_fee() < U256::MAX);
}

#[test]
fn one_blob_costs_gas_per_blob() {
    let env = env_with_blobs(1, Some(1));
    assert_eq!(env.get_total_blob_gas(), 131_072);
    assert_eq!(env.calc_max_data_fee(), U256::from(131_072u64));
}

#[test]
fn blob_gas_is_linear_in_the_number_of_blobs() {
    for count in 0..=9u8 {
        let env = env_with_blobs(count, None);
        assert_eq!(env.get_total_blob_gas(), 131_072 * u64::from(count));
    }
}

#[test]
fn missing_fee_cap_gives_zero_data_fee() {
    let env = env_with_blobs(6, None);
    assert_eq!(env.get_total_blob_gas(), 786_432);
    assert_eq!(env.calc_max_data_fee(), U256::ZERO);
}

#[test]
fn zero_fee_cap_gives_zero_data_fee() {
    let env = env_with_blobs(2, Some(0));
    assert_eq!(env.calc_max_data_fee(), U256::ZERO);
}

#[test]
fn data_fee_above_64_bits_is_exact() {
    let env = env_with_blobs(2, Some(1u128 << 100));
    let expected = U256::from(1u128 << 100) * U256::from(262_144u64);
    assert_eq!(env.calc_max_data_fee(), expected);
    assert_eq!(env.calc_max_data_fee(), U256::from(1u8) << 118);
}

#[test]
fn queries_recompute_and_leave_the_environment_unchanged() {
    let mut env = env_with_blobs(2, Some(5));
    assert_eq!(env.get_total_blob_gas(), 262_144);
    assert_eq!(env.calc_max_data_fee(), U256::from(1_310_720u64));
    env.blob_versioned_hashes.push(B256::repeat_byte(0xff));
    assert_eq!(env.get_total_blob_gas(), 393_216);
    assert_eq!(env.calc_max_data_fee(), U256::from(1_966_080u64));
}

#[test]
fn protocol_constants_are_those_of_revm() {
    assert_eq!(GAS_PER_BLOB, 131_072);
    assert_eq!(GAS_PER_BLOB, eip4844::GAS_PER_BLOB);
    assert_eq!(BLOB_BASE_FEE_UPDATE_FRACTION_CANCUN, 3_338_477);
    assert_eq!(BLOB_BASE_FEE_UPDATE_FRACTION_CANCUN, eip4844::BLOB_BASE_FEE_UPDATE_FRACTION_CANCUN);
    assert_eq!(BLOB_BASE_FEE_UPDATE_FRACTION_PRAGUE, 5_007_716);
    assert_eq!(BLOB_BASE_FEE_UPDATE_FRACTION_PRAGUE, eip4844::BLOB_BASE_FEE_UPDATE_FRACTION_PRAGUE);
    assert_eq!(OSAKA, u8::from(SpecId::OSAKA));
}
