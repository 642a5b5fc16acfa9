use ethcore::gasunit::Gas;

#[test]
fn test_gas_eq() {
    assert_eq!(Gas::from_wei(400 * Gas::ETH_PER_WEI), Gas::from_eth(400));
    assert_ne!(Gas::from_szabo(300), Gas::from_finney(300));
}

#[test]
fn test_gas_cmp() {
    assert!(Gas::from_eth(30) < Gas::from_eth(31));
    assert!(Gas::from_eth(40) > Gas::from_szabo(40));
}

#[test]
fn test_gas_math() {
    assert_eq!(Gas::from_szabo(10), Gas::from_szabo(7) + Gas::from_szabo(3));
    assert_eq!(Gas::from_wei(50) - Gas::from_wei(51), None);
    assert_eq!(Gas::from_wei(56) - Gas::from_wei(51), Some(Gas::from_wei(5)));
}

#[test]
fn test_gas_methods() {
    assert_eq!(Gas::from_wei(7).add(Gas::from_wei(3)), Gas::from_wei(10));
    assert_eq!(Gas::from_wei(50).sub(Gas::from_wei(51)), None);
    assert_eq!(Gas::from_wei(56).sub(Gas::from_wei(51)), Some(Gas::from_wei(5)));
}
