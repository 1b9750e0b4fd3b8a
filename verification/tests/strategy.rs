use yaoi::strategy::{NeedRegisterStrategy, StrategyListener, StrategyRegister};

#[test]
fn replenishing_fixed_fds_bounds_pool_by_fixed_capacity() {
    let s = StrategyListener::replenishing(16).fixed_fds(30);
    assert!(matches!(s, StrategyListener::Replenish(16, StrategyRegister::Fixed(30), 30)));
    assert_eq!(s.cap_pool(), 30);
    assert_eq!(s.cap_fixed(), 30);
}

#[test]
fn replenishing_regular_fds_takes_pool_capacity() {
    let s = StrategyListener::replenishing(4).regular_fds().pool_capacity(8);
    assert!(matches!(s, StrategyListener::Replenish(4, StrategyRegister::Regular, 8)));
    assert_eq!(s.cap_pool(), 8);
    assert_eq!(s.cap_fixed(), 0);
}

#[test]
fn multi_fixed_and_regular() {
    let fixed = StrategyListener::multi().fixed_fds(7);
    assert!(matches!(fixed, StrategyListener::Multi(StrategyRegister::Fixed(7), 7)));
    assert_eq!(fixed.cap_fixed(), 7);
    let regular = StrategyListener::multi().regular_fds().pool_capacity(3);
    assert!(matches!(regular, StrategyListener::Multi(StrategyRegister::Regular, 3)));
    assert_eq!(regular.cap_pool(), 3);
    assert_eq!(regular.cap_fixed(), 0);
}

#[test]
fn constructors_give_half_built_strategies() {
    assert!(matches!(StrategyListener::replenishing(2), NeedRegisterStrategy::Replenish(2)));
    assert!(matches!(StrategyListener::multi(), NeedRegisterStrategy::Multi));
}
