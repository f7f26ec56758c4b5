use stablecoin_system::liquidate::{liquidate_handler, Liquidation};
use stablecoin_system::state::{initialize_handler, CollateralConfig, CustomErrorCode, GlobalState, Position};
use stablecoin_system::utils::PriceQuote;

const NOW: i64 = 1_700_000_000;

fn global() -> GlobalState {
    initialize_handler([1u8; 32], [2u8; 32])
}

fn config(mcr: u64, penalty: u64) -> CollateralConfig {
    CollateralConfig { collateral_mint: [3u8; 32], oracle: [4u8; 32], mcr, ltr: 120, liquidation_penalty: penalty }
}

fn position(collateral: u64, debt: u64) -> Position {
    Position {
        owner: [5u8; 32],
        collateral_mint: [3u8; 32],
        collateral_amount: collateral,
        debt_amount: debt,
        is_frozen: false,
        last_updated: 0,
    }
}

fn price(p: i64) -> Option<PriceQuote> {
    Some(PriceQuote { price: p, conf: 0, expo: -6, publish_time: NOW })
}

#[test]
fn liquidation_gating_concrete() {
    let g = global();
    let c = config(150, 10);
    // value 150_000_000 < required 750_000_000: liquidation goes through
    let mut unsafe_position = position(1_000_000_000, 500_000_000);
    let r = liquidate_handler(&g, &c, 9, &mut unsafe_position, price(150_000_000), NOW, 500_000_000);
    assert!(r.is_ok());
    // required 150_000_000 <= value 150_000_000: the position is safe
    let mut safe_position = position(1_000_000_000, 100_000_000);
    let before = safe_position;
    let r = liquidate_handler(&g, &c, 9, &mut safe_position, price(150_000_000), NOW, 100_000_000);
    assert_eq!(r, Err(CustomErrorCode::PositionSafe));
    assert_eq!(safe_position, before);
}

#[test]
fn liquidation_seize_is_capped_at_collateral() {
    let g = global();
    let c = config(150, 10);
    let mut p = position(1_000_000_000, 500_000_000);
    // target: 550_000_000 * 10^9 / 150_000_000 = 3_666_666_666 > 1_000_000_000 held
    let r = liquidate_handler(&g, &c, 9, &mut p, price(150_000_000), NOW, 500_000_000);
    assert_eq!(r, Ok(Liquidation { repaid: 500_000_000, seized: 1_000_000_000 }));
    assert_eq!(p.collateral_amount, 0);
    assert_eq!(p.debt_amount, 0);
    assert_eq!(p.last_updated, NOW);
}

#[test]
fn partial_liquidation_pays_the_penalty() {
    let g = global();
    let c = config(150, 10);
    // 10 units at $15 = $150 against 200 of debt (needs $300)
    let mut p = position(10_000_000_000, 200_000_000);
    let r = liquidate_handler(&g, &c, 9, &mut p, price(15_000_000), NOW, 30_000_000);
    // seize value 33_000_000; 33_000_000 * 10^9 / 15_000_000 = 2_200_000_000
    assert_eq!(r, Ok(Liquidation { repaid: 30_000_000, seized: 2_200_000_000 }));
    assert_eq!(p.collateral_amount, 7_800_000_000);
    assert_eq!(p.debt_amount, 170_000_000);
}

#[test]
fn repay_is_capped_at_debt() {
    let g = global();
    let c = config(150, 0);
    let mut p = position(1_000_000_000, 200_000_000);
    let r = liquidate_handler(&g, &c, 9, &mut p, price(150_000_000), NOW, 900_000_000);
    // seize 200_000_000 * 10^9 / 150_000_000 = 1_333_333_333, capped at 10^9
    assert_eq!(r, Ok(Liquidation { repaid: 200_000_000, seized: 1_000_000_000 }));
    assert_eq!(p.debt_amount, 0);
}

#[test]
fn frozen_position_can_be_liquidated() {
    let g = global();
    let c = config(150, 10);
    let mut p = position(1_000_000_000, 500_000_000);
    p.is_frozen = true;
    let r = liquidate_handler(&g, &c, 9, &mut p, price(150_000_000), NOW, 100_000_000);
    // seize value 110_000_000 -> 733_333_333 units
    assert_eq!(r, Ok(Liquidation { repaid: 100_000_000, seized: 733_333_333 }));
    assert!(p.is_frozen);
}

#[test]
fn paused_liquidation_fails() {
    let mut g = global();
    g.paused = true;
    let mut p = position(1_000_000_000, 500_000_000);
    let before = p;
    let r = liquidate_handler(&g, &config(150, 10), 9, &mut p, price(150_000_000), NOW, 1);
    assert_eq!(r, Err(CustomErrorCode::Paused));
    assert_eq!(p, before);
}

#[test]
fn zero_price_liquidation_is_an_arithmetic_error() {
    let g = global();
    let mut p = position(1_000_000_000, 500_000_000);
    let r = liquidate_handler(&g, &config(150, 10), 9, &mut p, price(0), NOW, 1);
    assert_eq!(r, Err(CustomErrorCode::MathOverflow));
    assert_eq!(p.debt_amount, 500_000_000);
}

#[test]
fn zero_repay_is_rejected() {
    let g = global();
    let mut p = position(1_000_000_000, 500_000_000);
    let r = liquidate_handler(&g, &config(150, 10), 9, &mut p, price(150_000_000), NOW, 0);
    assert_eq!(r, Err(CustomErrorCode::ZeroAmount));
}

#[test]
fn liquidation_fails_on_stale_price() {
    let g = global();
    let mut p = position(1_000_000_000, 500_000_000);
    let stale = Some(PriceQuote { price: 150_000_000, conf: 0, expo: -6, publish_time: NOW + 61 });
    let r = liquidate_handler(&g, &config(150, 10), 9, &mut p, stale, NOW, 1);
    assert_eq!(r, Err(CustomErrorCode::OracleStale));
}

#[test]
fn position_without_debt_is_safe() {
    let g = global();
    let mut p = position(0, 0);
    let r = liquidate_handler(&g, &config(150, 10), 9, &mut p, price(150_000_000), NOW, 1);
    assert_eq!(r, Err(CustomErrorCode::PositionSafe));
}
