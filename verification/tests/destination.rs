use alloy_primitives::{Address, TxKind};
use pevm::{TransactTo, TxEnv};

#[test]
fn call_projects_to_the_call_kind_with_its_callee() {
    let callee = Address::repeat_byte(0x11);
    assert_eq!(TransactTo::Call(callee).kind(), TxKind::Call(callee));
}

#[test]
fn call_kind_keeps_distinct_callees_apart() {
    let first = Address::repeat_byte(0x01);
    let second = Address::repeat_byte(0x02);
    assert_eq!(TransactTo::Call(first).kind().to(), Some(&first));
    assert_eq!(TransactTo::Call(second).kind().to(), Some(&second));
    assert_ne!(TransactTo::Call(first).kind(), TransactTo::Call(second).kind());
}

#[test]
fn create_projects_to_the_create_kind() {
    assert_eq!(TransactTo::Create.kind(), TxKind::Create);
    assert!(TransactTo::Create.kind().is_create());
}

#[test]
fn to_yields_the_callee_of_a_call_only() {
    let callee = Address::repeat_byte(0xab);
    assert_eq!(TransactTo::Call(callee).to(), Some(&callee));
    assert_eq!(TransactTo::Create.to(), None);
}

#[test]
fn zero_address_call_is_not_a_create() {
    let destination = TransactTo::Call(Address::ZERO);
    assert_eq!(destination.to(), Some(&Address::ZERO));
    assert_eq!(destination.kind(), TxKind::Call(Address::ZERO));
    assert_ne!(destination, TransactTo::Create);
}

#[test]
fn default_destination_is_create() {
    assert_eq!(TransactTo::default(), TransactTo::Create);
    assert_eq!(TxEnv::default().transact_to, TransactTo::Create);
}

#[test]
fn environment_kind_is_that_of_its_destination() {
    let callee = Address::repeat_byte(0x42);
    let call = TxEnv { transact_to: TransactTo::Call(callee), ..TxEnv::default() };
    let create = TxEnv { transact_to: TransactTo::Create, ..TxEnv::default() };
    assert_eq!(call.kind(), TxKind::Call(callee));
    assert_eq!(create.kind(), TxKind::Create);
}
