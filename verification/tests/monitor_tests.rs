use liquidation_bot::chain::{Address, Uint256};
use liquidation_bot::monitor_positions::Monitor;

fn addr(low: u64) -> Address {
    Address { high: 0, mid: 0, low }
}

#[test]
fn classifies_sample_health_factors() {
    let monitor = Monitor::new(addr(7));
    let health_factors = vec![
        Uint256::from_u64(150),
        Uint256::from_u64(50),
        Uint256::from_u64(99),
    ];
    let vaults = monitor.check_positions(&health_factors);
    assert_eq!(vaults.len(), 3);
    assert!(!vaults[0].is_undercollateralized);
    assert!(vaults[1].is_undercollateralized);
    assert!(vaults[2].is_undercollateralized);
    assert_eq!(vaults[0].vault_address, addr(0));
    assert_eq!(vaults[1].vault_address, addr(1));
    assert_eq!(vaults[2].vault_address, addr(2));
}

#[test]
fn empty_health_factors_give_empty_snapshot() {
    let monitor = Monitor::new(addr(0));
    let vaults = monitor.check_positions(&Vec::new());
    assert!(vaults.is_empty());
}

#[test]
fn threshold_is_strict() {
    let monitor = Monitor::new(addr(1));
    let health_factors = vec![
        Uint256::from_u64(100),
        Uint256::from_u64(99),
        Uint256::from_u64(101),
        Uint256::from_u64(0),
    ];
    let vaults = monitor.check_positions(&health_factors);
    assert!(!vaults[0].is_undercollateralized);
    assert!(vaults[1].is_undercollateralized);
    assert!(!vaults[2].is_undercollateralized);
    assert!(vaults[3].is_undercollateralized);
}

#[test]
fn high_limbs_keep_a_position_healthy() {
    let monitor = Monitor::new(addr(1));
    let just_over_u64 = Uint256 {
        limb0: 5,
        limb1: 1,
        limb2: 0,
        limb3: 0,
    };
    let huge = Uint256 {
        limb0: 0,
        limb1: 0,
        limb2: 0,
        limb3: u64::MAX,
    };
    let vaults = monitor.check_positions(&vec![just_over_u64, huge]);
    assert!(!vaults[0].is_undercollateralized);
    assert!(!vaults[1].is_undercollateralized);
    assert!(!just_over_u64.lt_u64(100));
    assert!(Uint256::from_u64(99).lt_u64(100));
    assert!(!Uint256::from_u64(100).lt_u64(100));
}

#[test]
fn health_factors_query_shape() {
    let monitor = Monitor::new(addr(5));
    let query = monitor.health_factors_query();
    assert_eq!(query.contract, addr(5));
    assert_eq!(query.method, "getHealthFactors");
    assert!(query.args.is_empty());
}

#[test]
fn monitor_keeps_hub_address() {
    let hub = Address {
        high: 9,
        mid: 8,
        low: 7,
    };
    let monitor = Monitor::new(hub);
    assert_eq!(monitor.hub_contract, hub);
}
