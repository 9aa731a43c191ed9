use liquidation_bot::chain::{Address, CallValue, ContractCall, Uint256};
use liquidation_bot::liquidation::{construct_liquidation_input, Liquidation};

fn addr(low: u64) -> Address {
    Address { high: 0, mid: 0, low }
}

fn assert_addr_arg(arg: &CallValue, expected: Address) {
    match arg {
        CallValue::Addr(a) => assert_eq!(*a, expected),
        _ => panic!("expected a single address argument"),
    }
}

fn assert_addr_list_arg(arg: &CallValue, expected: &Vec<Address>) {
    match arg {
        CallValue::AddrList(v) => assert_eq!(v, expected),
        _ => panic!("expected an address list argument"),
    }
}

fn assert_uint_list_arg(arg: &CallValue, expected: &Vec<Uint256>) {
    match arg {
        CallValue::UintList(v) => assert_eq!(v, expected),
        _ => panic!("expected an amount list argument"),
    }
}

#[test]
fn construct_liquidation_input_keeps_fields() {
    let input = construct_liquidation_input(
        addr(9),
        vec![addr(11), addr(13)],
        vec![Uint256::from_u64(500), Uint256::from_u64(700)],
        vec![addr(12)],
        vec![Uint256::from_u64(400)],
    );
    assert_eq!(input.vault, addr(9));
    assert_eq!(input.asset_repay_addresses, vec![addr(11), addr(13)]);
    assert_eq!(
        input.asset_repay_amounts,
        vec![Uint256::from_u64(500), Uint256::from_u64(700)]
    );
    assert_eq!(input.asset_receipt_addresses, vec![addr(12)]);
    assert_eq!(input.asset_receipt_amounts, vec![Uint256::from_u64(400)]);
}

#[test]
fn liquidation_call_has_exact_argument_order() {
    let contract = Address {
        high: 1,
        mid: 2,
        low: 3,
    };
    let liquidator = Liquidation::new(contract);
    let repay_addresses = vec![addr(11)];
    let repay_amounts = vec![Uint256::from_u64(500)];
    let receipt_addresses = vec![addr(12), addr(14)];
    let receipt_amounts = vec![Uint256::from_u64(400), Uint256::from_u64(600)];
    let input = construct_liquidation_input(
        addr(9),
        repay_addresses.clone(),
        repay_amounts.clone(),
        receipt_addresses.clone(),
        receipt_amounts.clone(),
    );
    let call = liquidator.trigger_liquidation(input);
    assert_eq!(call.contract, contract);
    assert_eq!(call.method, "liquidation");
    assert_eq!(call.args.len(), 5);
    assert_addr_arg(&call.args[0], addr(9));
    assert_addr_list_arg(&call.args[1], &repay_addresses);
    assert_uint_list_arg(&call.args[2], &repay_amounts);
    assert_addr_list_arg(&call.args[3], &receipt_addresses);
    assert_uint_list_arg(&call.args[4], &receipt_amounts);
}

#[test]
fn repeated_triggers_submit_two_identical_calls() {
    // Triggering the same liquidation twice yields two submissions: nothing
    // deduplicates repeated attempts for one vault, a known risk.
    let liquidator = Liquidation::new(addr(77));
    let build = || construct_liquidation_input(addr(9), vec![], vec![], vec![], vec![]);
    let first: ContractCall = liquidator.trigger_liquidation(build());
    let second: ContractCall = liquidator.trigger_liquidation(build());
    assert_eq!(first.contract, second.contract);
    assert_eq!(first.method, second.method);
    assert_eq!(first.args.len(), 5);
    assert_eq!(second.args.len(), 5);
    assert_addr_arg(&first.args[0], addr(9));
    assert_addr_arg(&second.args[0], addr(9));
}

#[test]
fn default_input_is_the_zero_vault_with_empty_schedules() {
    let input = liquidation_bot::liquidation::LiquidationInput::default();
    assert_eq!(input.vault, addr(0));
    assert!(input.asset_repay_addresses.is_empty());
    assert!(input.asset_repay_amounts.is_empty());
    assert!(input.asset_receipt_addresses.is_empty());
    assert!(input.asset_receipt_amounts.is_empty());
}
