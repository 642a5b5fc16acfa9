use ethcore::wei::Wei;

#[test]
fn test_wei_eq() {
    assert_eq!(Wei::from_wei(400 * Wei::WEI_PER_ETH), Wei::from_eth(400));
    assert_ne!(Wei::from_szabo(300), Wei::from_finney(300));
}

#[test]
fn test_wei_cmp() {
    assert!(Wei::from_eth(30) < Wei::from_eth(31));
    assert!(Wei::from_eth(40) > Wei::from_szabo(40));
}

#[test]
fn test_wei_math() {
    assert_eq!(Wei::from_szabo(10), Wei::from_szabo(7) + Wei::from_szabo(3));
    assert_eq!(Wei::from_wei(50) - Wei::from_wei(51), None);
    assert_eq!(Wei::from_wei(56) - Wei::from_wei(51), Some(Wei::from_wei(5)));
}

#[test]
fn test_wei_from_gas() {
    assert_eq!(Wei::from_gas(Wei::from_wei(5), 7), Wei::from_wei(35));
    assert_eq!(Wei::from_gwei(2), Wei::from_wei(2_000_000_000));
}
