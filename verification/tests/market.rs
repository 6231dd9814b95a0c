use x_growth::{
    buy_from_curve, create_agent, initialize_platform, sell_to_curve, Agent, BondingCurveParams,
    BuyOrder, Identity, SellOrder, XGrowthError,
};

fn agent_with(base_price: u64, max_supply: u64, circulating: u64, reserve: u64) -> Agent {
    let mut platform = initialize_platform(
        Identity::new([1u8; 32]),
        Identity::new([2u8; 32]),
        Identity::new([3u8; 32]),
        200_000_000,
        255,
    );
    let mut agent = create_agent(
        &mut platform,
        Identity::new([4u8; 32]),
        Identity::new([5u8; 32]),
        String::from("agent-1"),
        String::from("Agent One"),
        String::from("ONE"),
        String::from("https://example.org/one.json"),
        max_supply,
        BondingCurveParams { base_price, curve_factor: 1, max_supply },
        1_700_000_000,
        254,
    )
    .unwrap();
    agent.circulating_supply = circulating;
    agent.reserve_balance = reserve;
    agent
}

#[test]
fn buy_quotes_at_the_spot_price() {
    let agent = agent_with(1_000_000, 1_000_000_000, 0, 0);
    assert_eq!(
        buy_from_curve(&agent, 1_000_000, 1_000_000),
        Ok(BuyOrder { usdt_amount: 1_000_000, tokens_out: 1_000_000 })
    );
}

#[test]
fn buy_then_apply_updates_supply_and_reserve() {
    let mut agent = agent_with(1_000_000, 1_000_000_000, 500_000_000, 40);
    let before = agent.clone();
    let order = buy_from_curve(&agent, 2_500_000, 0).unwrap();
    assert_eq!(order, BuyOrder { usdt_amount: 2_500_000, tokens_out: 1_111_111 });
    assert_eq!(agent, before);
    assert!(agent.can_apply_buy(&order));
    agent.apply_buy(&order);
    assert_eq!(agent.circulating_supply, 501_111_111);
    assert_eq!(agent.reserve_balance, 2_500_040);
    let mut expected = before;
    expected.circulating_supply = 501_111_111;
    expected.reserve_balance = 2_500_040;
    assert_eq!(agent, expected);
}

#[test]
fn buy_fails_when_quote_is_below_the_bound() {
    let agent = agent_with(1_000_000, 1_000_000_000, 0, 0);
    let before = agent.clone();
    assert_eq!(buy_from_curve(&agent, 1_000_000, 1_000_001), Err(XGrowthError::SlippageExceeded));
    assert_eq!(buy_from_curve(&agent, 1_000_000, u64::MAX), Err(XGrowthError::SlippageExceeded));
    assert_eq!(agent, before);
}

#[test]
fn buy_fails_past_the_cap() {
    let agent = agent_with(1_000_000, 1000, 0, 0);
    assert_eq!(buy_from_curve(&agent, 1001, 0), Err(XGrowthError::MaxSupplyReached));
    assert_eq!(
        buy_from_curve(&agent, 1000, 0),
        Ok(BuyOrder { usdt_amount: 1000, tokens_out: 1000 })
    );
    let full = agent_with(1_000_000, 1000, 1000, 1000);
    assert_eq!(buy_from_curve(&full, 4, 0), Err(XGrowthError::MaxSupplyReached));
    assert_eq!(buy_from_curve(&full, 3, 0), Ok(BuyOrder { usdt_amount: 3, tokens_out: 0 }));
}

#[test]
fn buy_tests_slippage_before_the_cap() {
    let agent = agent_with(1_000_000, 1000, 0, 0);
    assert_eq!(buy_from_curve(&agent, 2000, 2001), Err(XGrowthError::SlippageExceeded));
    assert_eq!(buy_from_curve(&agent, 2000, 2000), Err(XGrowthError::MaxSupplyReached));
}

#[test]
fn buy_fails_on_a_malformed_curve() {
    let mut agent = agent_with(1_000_000, 1000, 0, 0);
    agent.bonding_curve.max_supply = 0;
    assert_eq!(buy_from_curve(&agent, 10, 0), Err(XGrowthError::InvalidBondingCurve));
    let free = agent_with(0, 1000, 0, 0);
    assert_eq!(buy_from_curve(&free, 10, 0), Err(XGrowthError::InvalidBondingCurve));
}

#[test]
fn buy_order_that_overflows_the_reserve_is_not_applicable() {
    let agent = agent_with(1_000_000, 1_000_000_000, 0, u64::MAX - 5);
    let order = buy_from_curve(&agent, 6, 0).unwrap();
    assert!(!agent.can_apply_buy(&order));
    let order = buy_from_curve(&agent, 5, 0).unwrap();
    assert!(agent.can_apply_buy(&order));
}

#[test]
fn sell_pays_the_spot_value_less_one_percent() {
    let agent = agent_with(1_000_000, 1_000_000_000, 0, 1_000_000);
    assert_eq!(
        sell_to_curve(&agent, 1_000_000, 990_000),
        Ok(SellOrder { token_amount: 1_000_000, usdt_after_fee: 990_000 })
    );
    let agent = agent_with(1_000_000, 1_000_000_000, 123_456_789, 1_000_000);
    assert_eq!(
        sell_to_curve(&agent, 12_345, 0),
        Ok(SellOrder { token_amount: 12_345, usdt_after_fee: 15_425 })
    );
}

#[test]
fn sell_then_apply_updates_supply_and_reserve() {
    let mut agent = agent_with(1_000_000, 1_000_000_000, 123_456_789, 1_000_000);
    let before = agent.clone();
    let order = sell_to_curve(&agent, 12_345, 15_425).unwrap();
    assert_eq!(agent, before);
    assert!(agent.can_apply_sell(&order));
    agent.apply_sell(&order);
    let mut expected = before;
    expected.circulating_supply = 123_444_444;
    expected.reserve_balance = 984_575;
    assert_eq!(agent, expected);
}

#[test]
fn sell_fails_when_payout_is_below_the_bound() {
    let agent = agent_with(1_000_000, 1_000_000_000, 1_000_000, 1_000_000);
    let before = agent.clone();
    let price = agent.bonding_curve.calculate_price(1_000_000).unwrap();
    assert_eq!(price, 1_002_001);
    // 1000 * 1_002_001 / 10^6 = 1002; 1002 * 99 / 100 = 991
    assert_eq!(sell_to_curve(&agent, 1000, 992), Err(XGrowthError::SlippageExceeded));
    assert_eq!(
        sell_to_curve(&agent, 1000, 991),
        Ok(SellOrder { token_amount: 1000, usdt_after_fee: 991 })
    );
    assert_eq!(agent, before);
}

#[test]
fn sell_fails_when_reserve_cannot_cover() {
    let agent = agent_with(1_000_000, 1_000_000_000, 1_000_000, 990);
    let before = agent.clone();
    assert_eq!(sell_to_curve(&agent, 1000, 0), Err(XGrowthError::InsufficientReserve));
    assert_eq!(agent, before);
    let covered = agent_with(1_000_000, 1_000_000_000, 1_000_000, 991);
    assert_eq!(
        sell_to_curve(&covered, 1000, 0),
        Ok(SellOrder { token_amount: 1000, usdt_after_fee: 991 })
    );
}

#[test]
fn sell_tests_slippage_before_the_reserve() {
    let agent = agent_with(1_000_000, 1_000_000_000, 1_000_000, 0);
    assert_eq!(sell_to_curve(&agent, 1000, 992), Err(XGrowthError::SlippageExceeded));
    assert_eq!(sell_to_curve(&agent, 1000, 991), Err(XGrowthError::InsufficientReserve));
}

#[test]
fn sell_of_huge_amounts_does_not_wrap() {
    let agent = agent_with(u64::MAX / 4, 10, 10, u64::MAX);
    assert_eq!(sell_to_curve(&agent, u64::MAX, 0), Err(XGrowthError::InsufficientReserve));
    assert_eq!(sell_to_curve(&agent, u64::MAX, u64::MAX), Err(XGrowthError::InsufficientReserve));
}

#[test]
fn sell_fails_on_a_malformed_curve() {
    let mut agent = agent_with(1_000_000, 1000, 0, 0);
    agent.bonding_curve.max_supply = 0;
    assert_eq!(sell_to_curve(&agent, 10, 0), Err(XGrowthError::InvalidBondingCurve));
}

#[test]
fn sell_order_for_tokens_not_in_circulation_is_not_applicable() {
    let agent = agent_with(1_000_000, 1_000_000_000, 10, 1_000_000);
    let order = sell_to_curve(&agent, 11, 0).unwrap();
    assert!(!agent.can_apply_sell(&order));
    let order = sell_to_curve(&agent, 10, 0).unwrap();
    assert!(agent.can_apply_sell(&order));
}

#[test]
fn round_trip_loses_when_the_fee_outweighs_the_price_rise() {
    let mut agent = agent_with(1_000_000, 1_000_000_000, 0, 0);
    let buy = buy_from_curve(&agent, 5_000_000, 0).unwrap();
    assert_eq!(buy.tokens_out, 5_000_000);
    agent.apply_buy(&buy);
    assert_eq!(agent.bonding_curve.calculate_price(agent.circulating_supply), Ok(1_010_025));
    let sell = sell_to_curve(&agent, buy.tokens_out, 0).unwrap();
    assert_eq!(sell.usdt_after_fee, 4_999_623);
    assert!(sell.usdt_after_fee < 5_000_000);
}

#[test]
fn round_trip_across_a_steep_rise_is_priced_at_the_new_spot() {
    let mut agent = agent_with(1_000_000, 1000, 0, 5000);
    let buy = buy_from_curve(&agent, 1000, 0).unwrap();
    agent.apply_buy(&buy);
    assert_eq!(agent.bonding_curve.calculate_price(agent.circulating_supply), Ok(4_000_000));
    let sell = sell_to_curve(&agent, buy.tokens_out, 0).unwrap();
    assert_eq!(sell, SellOrder { token_amount: 1000, usdt_after_fee: 3960 });
}

#[test]
fn trades_keep_supply_within_the_cap() {
    let mut agent = agent_with(1_000_000, 10_000, 0, 0);
    let mut round: u64 = 0;
    while round < 40 {
        if let Ok(order) = buy_from_curve(&agent, 700 + round, 0) {
            if agent.can_apply_buy(&order) {
                agent.apply_buy(&order);
            }
        }
        if round % 3 == 0 {
            if let Ok(order) = sell_to_curve(&agent, 150, 0) {
                if agent.can_apply_sell(&order) {
                    agent.apply_sell(&order);
                }
            }
        }
        assert!(agent.circulating_supply <= agent.bonding_curve.max_supply);
        round += 1;
    }
    assert!(agent.circulating_supply > 0);
}
