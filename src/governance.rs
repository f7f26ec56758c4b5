//! The administrator's switches: the process-wide pause flag and the freeze
//! flag of a single position.
use vstd::prelude::*;
use crate::engine::{burn_outcome, deposit_outcome, mint_outcome, withdraw_outcome};
use crate::liquidate::liquidate_outcome;
use crate::psm::{swap_from_stable_outcome, swap_to_stable_outcome, PsmConfig};
use crate::state::{CollateralConfig, CustomErrorCode, GlobalState, Key, Position};
use crate::utils::PriceQuote;

verus! {

/// Sets the pause flag; nothing else changes.
pub fn toggle_pause_handler(global: &mut GlobalState, paused: bool)
    ensures
        *final(global) == (GlobalState { paused, ..*old(global) }),
{
    global.paused = paused;
}

/// Sets a position's freeze flag; nothing else changes.
pub fn toggle_freeze_handler(position: &mut Position, frozen: bool)
    ensures
        *final(position) == (Position { is_frozen: frozen, ..*old(position) }),
{
    position.is_frozen = frozen;
}

/// Pause gate: while the system is paused, deposit, withdraw, mint, burn,
/// liquidation and both swaps fail with `Paused`, whatever their other
/// inputs, and so change no balance.
pub proof fn pause_blocks_every_operation(
    g: GlobalState,
    c: CollateralConfig,
    decimals: u8,
    p: Position,
    s: PsmConfig,
    oracle: Option<PriceQuote>,
    now: i64,
    user: Key,
    collateral_mint: Key,
    amount: u64,
)
    requires
        g.paused,
    ensures
        deposit_outcome(g, p, user, collateral_mint, amount, now) == Err::<Position, CustomErrorCode>(CustomErrorCode::Paused),
        withdraw_outcome(g, c, decimals, p, oracle, now, amount) == Err::<Position, CustomErrorCode>(CustomErrorCode::Paused),
        mint_outcome(g, c, decimals, p, oracle, now, amount) == Err::<Position, CustomErrorCode>(CustomErrorCode::Paused),
        burn_outcome(g, p, amount, now) == Err::<Position, CustomErrorCode>(CustomErrorCode::Paused),
        liquidate_outcome(g, c, decimals, p, oracle, now, amount) is Err,
        liquidate_outcome(g, c, decimals, p, oracle, now, amount)->Err_0 == CustomErrorCode::Paused,
        swap_to_stable_outcome(g, s, amount) == Err::<PsmConfig, CustomErrorCode>(CustomErrorCode::Paused),
        swap_from_stable_outcome(g, s, amount) == Err::<PsmConfig, CustomErrorCode>(CustomErrorCode::Paused),
{
}

} // verus!
