//! Liquidation of undercollateralized positions. It is gated by the pause
//! flag only: a frozen position can still be liquidated.
use vstd::prelude::*;
use crate::math::{collateral_value, required_value, seize_amount, seize_value, seize_computable, collateral_value_of, required_value_of, seize_amount_of};
use crate::state::{CollateralConfig, CustomErrorCode, GlobalState, Position};
use crate::utils::{get_price, price_outcome, PriceQuote};

verus! {

/// What a liquidation moves: `repaid` of the stable asset is burned from the
/// liquidator, `seized` collateral is paid to the liquidator.
#[derive(Clone, Copy, Debug, PartialEq, Eq)]
pub struct Liquidation {
    pub repaid: u64,
    pub seized: u64,
}

/// Debt a liquidator repays: what was offered, capped at the debt.
pub open spec fn repay_amount(offered: u64, debt: u64) -> u64 {
    if offered > debt {
        debt
    } else {
        offered
    }
}

/// Collateral handed over: the penalty-adjusted target, capped at what the
/// position holds. Any shortfall stays behind as bad debt.
pub open spec fn actual_seize(target: int, collateral: u64) -> u64 {
    if target > collateral {
        collateral
    } else {
        target as u64
    }
}

/// Outcome of a liquidation that offers to repay `amount_to_repay`: the
/// position afterwards and what was moved.
pub open spec fn liquidate_outcome(
    g: GlobalState,
    c: CollateralConfig,
    decimals: u8,
    p: Position,
    oracle: Option<PriceQuote>,
    now: i64,
    amount_to_repay: u64,
) -> Result<(Position, Liquidation), CustomErrorCode> {
    if g.paused {
        Err(CustomErrorCode::Paused)
    } else if amount_to_repay == 0 {
        Err(CustomErrorCode::ZeroAmount)
    } else {
        match price_outcome(oracle, now) {
            Err(e) => Err(e),
            Ok(price) => {
                let repay = repay_amount(amount_to_repay, p.debt_amount);
                if collateral_value(p.collateral_amount, price, decimals) >= required_value(
                    p.debt_amount,
                    c.mcr,
                ) {
                    Err(CustomErrorCode::PositionSafe)
                } else if !seize_computable(repay, c.liquidation_penalty, price, decimals) {
                    Err(CustomErrorCode::MathOverflow)
                } else {
                    let target = seize_amount(
                        seize_value(repay, c.liquidation_penalty),
                        price,
                        decimals,
                    );
                    let seized = actual_seize(target, p.collateral_amount);
                    Ok(
                        (
                            Position {
                                debt_amount: (p.debt_amount - repay) as u64,
                                collateral_amount: (p.collateral_amount - seized) as u64,
                                last_updated: now,
                                ..p
                            },
                            Liquidation { repaid: repay, seized },
                        ),
                    )
                }
            },
        }
    }
}

/// Liquidates a position whose collateral is worth less than
/// `floor(debt * mcr / 100)` at the oracle's price. On success the caller
/// burns `repaid` from the liquidator and pays `seized` collateral out of the
/// vault to the liquidator.
pub fn liquidate_handler(
    global: &GlobalState,
    config: &CollateralConfig,
    collateral_decimals: u8,
    position: &mut Position,
    oracle: Option<PriceQuote>,
    now: i64,
    amount_to_repay: u64,
) -> (r: Result<Liquidation, CustomErrorCode>)
    ensures
        match liquidate_outcome(*global, *config, collateral_decimals, *old(position), oracle, now, amount_to_repay) {
            Ok((p, l)) => r == Ok::<Liquidation, CustomErrorCode>(l) && *final(position) == p,
            Err(e) => r == Err::<Liquidation, CustomErrorCode>(e) && *final(position) == *old(position),
        },
        global.paused ==> r == Err::<Liquidation, CustomErrorCode>(CustomErrorCode::Paused),
        r matches Ok(l) ==> {
            &&& l.seized <= old(position).collateral_amount
            &&& final(position).collateral_amount == old(position).collateral_amount - l.seized
            &&& l.repaid <= old(position).debt_amount
            &&& final(position).debt_amount == old(position).debt_amount - l.repaid
        },
{
    if global.paused {
        return Err(CustomErrorCode::Paused);
    }
    if amount_to_repay == 0 {
        return Err(CustomErrorCode::ZeroAmount);
    }
    let price = match get_price(oracle, now) {
        Ok(p) => p,
        Err(e) => return Err(e),
    };
    let value = collateral_value_of(position.collateral_amount, price, collateral_decimals);
    let required = required_value_of(position.debt_amount, config.mcr);
    if value >= required {
        return Err(CustomErrorCode::PositionSafe);
    }
    let repay = if amount_to_repay > position.debt_amount {
        position.debt_amount
    } else {
        amount_to_repay
    };
    let target = match seize_amount_of(repay, config.liquidation_penalty, price, collateral_decimals) {
        Some(t) => t,
        None => return Err(CustomErrorCode::MathOverflow),
    };
    let seized = if target > position.collateral_amount as u128 {
        position.collateral_amount
    } else {
        target as u64
    };
    position.debt_amount = position.debt_amount - repay;
    position.collateral_amount = position.collateral_amount - seized;
    position.last_updated = now;
    Ok(Liquidation { repaid: repay, seized })
}

} // verus!
