//! Deposit, withdraw, mint and burn on a single position. Each checks the
//! pause flag, then the position's freeze flag, before anything else, and
//! either applies its whole update or changes nothing.
//!
//! Zero amounts are rejected with `ZeroAmount` by every operation.
use vstd::prelude::*;
use crate::math::{collateral_value, required_value, collateral_value_of, required_value_of, covers_ratio, lemma_collateral_value_monotonic, lemma_required_value_monotonic};
use crate::state::{commits, is_unset, key_is_unset, CollateralConfig, CustomErrorCode, GlobalState, Key, Position};
use crate::utils::{get_price, price_outcome, PriceQuote};

verus! {

/// The check that minting applies: the collateral is worth at least
/// `floor(debt * mcr / 100)` at `price`.
pub open spec fn is_healthy(p: Position, price: u64, decimals: u8, mcr: u64) -> bool {
    collateral_value(p.collateral_amount, price, decimals) >= required_value(p.debt_amount, mcr)
}

/// The solvency invariant, which withdrawing checks: `collateral_value * 100
/// >= debt * mcr` at `price`.
pub open spec fn meets_mcr(p: Position, price: u64, decimals: u8, mcr: u64) -> bool {
    collateral_value(p.collateral_amount, price, decimals) * 100 >= p.debt_amount * mcr
}

/// Outcome of depositing `amount` collateral. A position whose owner is unset
/// is claimed for `user` and `collateral_mint`.
pub open spec fn deposit_outcome(
    g: GlobalState,
    p: Position,
    user: Key,
    collateral_mint: Key,
    amount: u64,
    now: i64,
) -> Result<Position, CustomErrorCode> {
    if g.paused {
        Err(CustomErrorCode::Paused)
    } else if p.is_frozen {
        Err(CustomErrorCode::Frozen)
    } else if amount == 0 {
        Err(CustomErrorCode::ZeroAmount)
    } else if p.collateral_amount + amount > u64::MAX {
        Err(CustomErrorCode::MathOverflow)
    } else {
        Ok(
            Position {
                owner: if is_unset(p.owner) { user } else { p.owner },
                collateral_mint: if is_unset(p.owner) { collateral_mint } else { p.collateral_mint },
                collateral_amount: (p.collateral_amount + amount) as u64,
                last_updated: now,
                ..p
            },
        )
    }
}

/// Outcome of withdrawing `amount` collateral. While debt is outstanding the
/// remaining collateral must pass `meets_mcr` at the oracle's price.
pub open spec fn withdraw_outcome(
    g: GlobalState,
    c: CollateralConfig,
    decimals: u8,
    p: Position,
    oracle: Option<PriceQuote>,
    now: i64,
    amount: u64,
) -> Result<Position, CustomErrorCode> {
    let after = Position {
        collateral_amount: (p.collateral_amount - amount) as u64,
        last_updated: now,
        ..p
    };
    if g.paused {
        Err(CustomErrorCode::Paused)
    } else if p.is_frozen {
        Err(CustomErrorCode::Frozen)
    } else if amount == 0 {
        Err(CustomErrorCode::ZeroAmount)
    } else if amount > p.collateral_amount {
        Err(CustomErrorCode::InsufficientCollateral)
    } else if p.debt_amount == 0 {
        Ok(after)
    } else {
        match price_outcome(oracle, now) {
            Err(e) => Err(e),
            Ok(price) => if meets_mcr(after, price, decimals, c.mcr) {
                Ok(after)
            } else {
                Err(CustomErrorCode::BelowMcr)
            },
        }
    }
}

/// Outcome of minting `amount` of the stable asset against the position.
pub open spec fn mint_outcome(
    g: GlobalState,
    c: CollateralConfig,
    decimals: u8,
    p: Position,
    oracle: Option<PriceQuote>,
    now: i64,
    amount: u64,
) -> Result<Position, CustomErrorCode> {
    let after = Position { debt_amount: (p.debt_amount + amount) as u64, last_updated: now, ..p };
    if g.paused {
        Err(CustomErrorCode::Paused)
    } else if p.is_frozen {
        Err(CustomErrorCode::Frozen)
    } else if amount == 0 {
        Err(CustomErrorCode::ZeroAmount)
    } else {
        match price_outcome(oracle, now) {
            Err(e) => Err(e),
            Ok(price) => if p.debt_amount + amount > u64::MAX {
                Err(CustomErrorCode::MathOverflow)
            } else if is_healthy(after, price, decimals, c.mcr) {
                Ok(after)
            } else {
                Err(CustomErrorCode::BelowMcr)
            },
        }
    }
}

/// Debt left after burning `amount`: what exceeds the debt is forgiven.
pub open spec fn debt_after_burn(debt: u64, amount: u64) -> u64 {
    if amount > debt {
        0
    } else {
        (debt - amount) as u64
    }
}

/// Outcome of burning `amount` of the stable asset against the position.
pub open spec fn burn_outcome(g: GlobalState, p: Position, amount: u64, now: i64) -> Result<
    Position,
    CustomErrorCode,
> {
    if g.paused {
        Err(CustomErrorCode::Paused)
    } else if p.is_frozen {
        Err(CustomErrorCode::Frozen)
    } else if amount == 0 {
        Err(CustomErrorCode::ZeroAmount)
    } else {
        Ok(Position { debt_amount: debt_after_burn(p.debt_amount, amount), last_updated: now, ..p })
    }
}

/// Adds `amount` to the position's collateral, after the caller has moved
/// it into the vault.
pub fn deposit_collateral_handler(
    global: &GlobalState,
    position: &mut Position,
    user: Key,
    collateral_mint: Key,
    amount: u64,
    now: i64,
) -> (r: Result<(), CustomErrorCode>)
    ensures
        commits(r, *old(position), *final(position), deposit_outcome(*global, *old(position), user, collateral_mint, amount, now)),
        global.paused ==> r == Err::<(), CustomErrorCode>(CustomErrorCode::Paused),
{
    if global.paused {
        return Err(CustomErrorCode::Paused);
    }
    if position.is_frozen {
        return Err(CustomErrorCode::Frozen);
    }
    if amount == 0 {
        return Err(CustomErrorCode::ZeroAmount);
    }
    let total = match position.collateral_amount.checked_add(amount) {
        Some(t) => t,
        None => return Err(CustomErrorCode::MathOverflow),
    };
    if key_is_unset(&position.owner) {
        position.owner = user;
        position.collateral_mint = collateral_mint;
    }
    position.collateral_amount = total;
    position.last_updated = now;
    Ok(())
}

/// Takes `amount` out of the position's collateral. The caller pays it out
/// of the vault on success.
pub fn withdraw_collateral_handler(
    global: &GlobalState,
    config: &CollateralConfig,
    collateral_decimals: u8,
    position: &mut Position,
    oracle: Option<PriceQuote>,
    now: i64,
    amount: u64,
) -> (r: Result<(), CustomErrorCode>)
    ensures
        commits(r, *old(position), *final(position), withdraw_outcome(*global, *config, collateral_decimals, *old(position), oracle, now, amount)),
        global.paused ==> r == Err::<(), CustomErrorCode>(CustomErrorCode::Paused),
{
    if global.paused {
        return Err(CustomErrorCode::Paused);
    }
    if position.is_frozen {
        return Err(CustomErrorCode::Frozen);
    }
    if amount == 0 {
        return Err(CustomErrorCode::ZeroAmount);
    }
    let remaining = match position.collateral_amount.checked_sub(amount) {
        Some(n) => n,
        None => return Err(CustomErrorCode::InsufficientCollateral),
    };
    if position.debt_amount > 0 {
        let price = match get_price(oracle, now) {
            Ok(p) => p,
            Err(e) => return Err(e),
        };
        let value = collateral_value_of(remaining, price, collateral_decimals);
        if !covers_ratio(value, position.debt_amount, config.mcr) {
            return Err(CustomErrorCode::BelowMcr);
        }
    }
    position.collateral_amount = remaining;
    position.last_updated = now;
    Ok(())
}

/// Raises the position's debt by `amount`; the caller mints that amount of
/// the stable asset to the owner on success.
pub fn mint_usdt_handler(
    global: &GlobalState,
    config: &CollateralConfig,
    collateral_decimals: u8,
    position: &mut Position,
    oracle: Option<PriceQuote>,
    now: i64,
    amount: u64,
) -> (r: Result<(), CustomErrorCode>)
    ensures
        commits(r, *old(position), *final(position), mint_outcome(*global, *config, collateral_decimals, *old(position), oracle, now, amount)),
        global.paused ==> r == Err::<(), CustomErrorCode>(CustomErrorCode::Paused),
{
    if global.paused {
        return Err(CustomErrorCode::Paused);
    }
    if position.is_frozen {
        return Err(CustomErrorCode::Frozen);
    }
    if amount == 0 {
        return Err(CustomErrorCode::ZeroAmount);
    }
    let price = match get_price(oracle, now) {
        Ok(p) => p,
        Err(e) => return Err(e),
    };
    let value = collateral_value_of(position.collateral_amount, price, collateral_decimals);
    let new_debt = match position.debt_amount.checked_add(amount) {
        Some(d) => d,
        None => return Err(CustomErrorCode::MathOverflow),
    };
    let required = required_value_of(new_debt, config.mcr);
    if value < required {
        return Err(CustomErrorCode::BelowMcr);
    }
    position.debt_amount = new_debt;
    position.last_updated = now;
    Ok(())
}

/// Lowers the position's debt by `amount`, after the caller has burned that
/// amount from the owner. Burning more than the debt clears it; the excess
/// is neither refunded nor recorded.
pub fn burn_usdt_handler(global: &GlobalState, position: &mut Position, amount: u64, now: i64) -> (r:
    Result<(), CustomErrorCode>)
    ensures
        commits(r, *old(position), *final(position), burn_outcome(*global, *old(position), amount, now)),
        global.paused ==> r == Err::<(), CustomErrorCode>(CustomErrorCode::Paused),
        r is Ok && amount > old(position).debt_amount ==> final(position).debt_amount == 0,
        r is Ok ==> final(position).collateral_amount == old(position).collateral_amount,
{
    if global.paused {
        return Err(CustomErrorCode::Paused);
    }
    if position.is_frozen {
        return Err(CustomErrorCode::Frozen);
    }
    if amount == 0 {
        return Err(CustomErrorCode::ZeroAmount);
    }
    if amount > position.debt_amount {
        position.debt_amount = 0;
    } else {
        position.debt_amount = position.debt_amount - amount;
    }
    position.last_updated = now;
    Ok(())
}

/// A voluntary operation on a position.
pub enum PositionOp {
    Deposit,
    Withdraw,
    Mint,
    Burn,
}

/// Outcome of the voluntary operation `op` with the given inputs.
pub open spec fn position_op_outcome(
    op: PositionOp,
    g: GlobalState,
    c: CollateralConfig,
    decimals: u8,
    p: Position,
    oracle: Option<PriceQuote>,
    now: i64,
    user: Key,
    collateral_mint: Key,
    amount: u64,
) -> Result<Position, CustomErrorCode> {
    match op {
        PositionOp::Deposit => deposit_outcome(g, p, user, collateral_mint, amount, now),
        PositionOp::Withdraw => withdraw_outcome(g, c, decimals, p, oracle, now, amount),
        PositionOp::Mint => mint_outcome(g, c, decimals, p, oracle, now, amount),
        PositionOp::Burn => burn_outcome(g, p, amount, now),
    }
}

/// Solvency: a successful deposit, withdraw, mint or burn that leaves debt
/// outstanding leaves `collateral_value * 100 >= debt * mcr` at the oracle's
/// price.
///
/// Withdraw checks the invariant itself. Mint checks
/// `collateral_value >= floor(debt * mcr / 100)`, which is the invariant
/// where `debt * mcr` is a multiple of 100, and only there. Deposit and burn
/// check nothing: they keep the invariant of a position that met it before.
pub proof fn voluntary_ops_keep_solvency(
    op: PositionOp,
    g: GlobalState,
    c: CollateralConfig,
    decimals: u8,
    p: Position,
    oracle: Option<PriceQuote>,
    now: i64,
    user: Key,
    collateral_mint: Key,
    amount: u64,
    price: u64,
)
    requires
        position_op_outcome(op, g, c, decimals, p, oracle, now, user, collateral_mint, amount) is Ok,
        position_op_outcome(op, g, c, decimals, p, oracle, now, user, collateral_mint, amount)->Ok_0.debt_amount > 0,
        price_outcome(oracle, now) == Ok::<u64, CustomErrorCode>(price),
        op is Mint ==> (position_op_outcome(op, g, c, decimals, p, oracle, now, user, collateral_mint, amount)->Ok_0.debt_amount * c.mcr) % 100 == 0,
        op is Deposit || op is Burn ==> meets_mcr(p, price, decimals, c.mcr),
    ensures
        meets_mcr(
            position_op_outcome(op, g, c, decimals, p, oracle, now, user, collateral_mint, amount)->Ok_0,
            price,
            decimals,
            c.mcr,
        ),
{
    let q = position_op_outcome(op, g, c, decimals, p, oracle, now, user, collateral_mint, amount)->Ok_0;
    match op {
        PositionOp::Deposit => {
            lemma_collateral_value_monotonic(p.collateral_amount, q.collateral_amount, price, decimals);
        },
        PositionOp::Burn => {
            lemma_required_value_monotonic(q.debt_amount, p.debt_amount, c.mcr);
        },
        PositionOp::Mint => {
            assert(is_healthy(q, price, decimals, c.mcr));
        },
        PositionOp::Withdraw => {},
    }
}

/// Round trip: on a position without debt, a successful deposit of `x`
/// followed by a withdrawal of `x` succeeds and restores the collateral and
/// the debt exactly.
pub proof fn deposit_then_withdraw_restores_collateral(
    g: GlobalState,
    c: CollateralConfig,
    decimals: u8,
    p: Position,
    user: Key,
    collateral_mint: Key,
    oracle: Option<PriceQuote>,
    deposited_at: i64,
    withdrawn_at: i64,
    x: u64,
)
    requires
        p.debt_amount == 0,
        deposit_outcome(g, p, user, collateral_mint, x, deposited_at) is Ok,
    ensures
        ({
            let back = withdraw_outcome(
                g,
                c,
                decimals,
                deposit_outcome(g, p, user, collateral_mint, x, deposited_at)->Ok_0,
                oracle,
                withdrawn_at,
                x,
            );
            &&& back is Ok
            &&& back->Ok_0.collateral_amount == p.collateral_amount
            &&& back->Ok_0.debt_amount == p.debt_amount
        }),
{
}

} // verus!
