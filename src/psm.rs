//! Peg stability module: swaps at parity between the stable asset and a
//! reference asset held in a vault. The configured fee is not applied.
use vstd::prelude::*;
use crate::state::{commits, CustomErrorCode, GlobalState, Key};

verus! {

/// One reference asset's swap pool. `total_minted` is the stable asset minted
/// through the pool net of what was burned through it; `vault_balance` is the
/// reference asset the vault holds.
#[derive(Clone, Copy, Debug, PartialEq, Eq)]
pub struct PsmConfig {
    pub token_mint: Key,
    pub vault: Key,
    pub total_minted: u64,
    pub fee_basis_points: u64,
    pub vault_balance: u64,
}

/// Outcome of swapping `amount` of the reference asset into the stable asset.
pub open spec fn swap_to_stable_outcome(g: GlobalState, s: PsmConfig, amount: u64) -> Result<
    PsmConfig,
    CustomErrorCode,
> {
    if g.paused {
        Err(CustomErrorCode::Paused)
    } else if amount == 0 {
        Err(CustomErrorCode::ZeroAmount)
    } else if s.vault_balance + amount > u64::MAX || s.total_minted + amount > u64::MAX {
        Err(CustomErrorCode::MathOverflow)
    } else {
        Ok(
            PsmConfig {
                vault_balance: (s.vault_balance + amount) as u64,
                total_minted: (s.total_minted + amount) as u64,
                ..s
            },
        )
    }
}

/// Outcome of swapping `amount` of the stable asset back into the reference
/// asset.
pub open spec fn swap_from_stable_outcome(g: GlobalState, s: PsmConfig, amount: u64) -> Result<
    PsmConfig,
    CustomErrorCode,
> {
    if g.paused {
        Err(CustomErrorCode::Paused)
    } else if amount == 0 {
        Err(CustomErrorCode::ZeroAmount)
    } else if s.vault_balance < amount {
        Err(CustomErrorCode::InsufficientFunds)
    } else if s.total_minted < amount {
        Err(CustomErrorCode::MathUnderflow)
    } else {
        Ok(
            PsmConfig {
                vault_balance: (s.vault_balance - amount) as u64,
                total_minted: (s.total_minted - amount) as u64,
                ..s
            },
        )
    }
}

/// Creates the pool of a reference asset with an empty vault.
pub fn configure_psm_handler(token_mint: Key, vault: Key, fee_bps: u64) -> (s: PsmConfig)
    ensures
        s == (PsmConfig { token_mint, vault, total_minted: 0, fee_basis_points: fee_bps, vault_balance: 0 }),
{
    PsmConfig { token_mint, vault, total_minted: 0, fee_basis_points: fee_bps, vault_balance: 0 }
}

/// Takes `amount` of the reference asset into the vault and counts `amount`
/// of the stable asset as minted to the user at parity.
pub fn swap_to_usdt_handler(global: &GlobalState, psm: &mut PsmConfig, amount: u64) -> (r: Result<
    (),
    CustomErrorCode,
>)
    ensures
        commits(r, *old(psm), *final(psm), swap_to_stable_outcome(*global, *old(psm), amount)),
        global.paused ==> r == Err::<(), CustomErrorCode>(CustomErrorCode::Paused),
{
    if global.paused {
        return Err(CustomErrorCode::Paused);
    }
    if amount == 0 {
        return Err(CustomErrorCode::ZeroAmount);
    }
    let balance = match psm.vault_balance.checked_add(amount) {
        Some(b) => b,
        None => return Err(CustomErrorCode::MathOverflow),
    };
    let minted = match psm.total_minted.checked_add(amount) {
        Some(m) => m,
        None => return Err(CustomErrorCode::MathOverflow),
    };
    psm.vault_balance = balance;
    psm.total_minted = minted;
    Ok(())
}

/// Counts `amount` of the stable asset as burned from the user and pays
/// `amount` of the reference asset out of the vault.
pub fn swap_to_usdc_handler(global: &GlobalState, psm: &mut PsmConfig, amount: u64) -> (r: Result<
    (),
    CustomErrorCode,
>)
    ensures
        commits(r, *old(psm), *final(psm), swap_from_stable_outcome(*global, *old(psm), amount)),
        global.paused ==> r == Err::<(), CustomErrorCode>(CustomErrorCode::Paused),
{
    if global.paused {
        return Err(CustomErrorCode::Paused);
    }
    if amount == 0 {
        return Err(CustomErrorCode::ZeroAmount);
    }
    let balance = match psm.vault_balance.checked_sub(amount) {
        Some(b) => b,
        None => return Err(CustomErrorCode::InsufficientFunds),
    };
    let minted = match psm.total_minted.checked_sub(amount) {
        Some(m) => m,
        None => return Err(CustomErrorCode::MathUnderflow),
    };
    psm.vault_balance = balance;
    psm.total_minted = minted;
    Ok(())
}

/// One call into the pool.
pub enum Swap {
    ToStable(u64),
    FromStable(u64),
}

/// Outcome of one call.
pub open spec fn swap_outcome(g: GlobalState, s: PsmConfig, op: Swap) -> Result<PsmConfig, CustomErrorCode> {
    match op {
        Swap::ToStable(a) => swap_to_stable_outcome(g, s, a),
        Swap::FromStable(a) => swap_from_stable_outcome(g, s, a),
    }
}

/// The pool after a sequence of calls; a call that fails leaves it as it was.
pub open spec fn after_swaps(g: GlobalState, s: PsmConfig, ops: Seq<Swap>) -> PsmConfig
    decreases ops.len(),
{
    if ops.len() == 0 {
        s
    } else {
        let next = match swap_outcome(g, s, ops[0]) {
            Ok(n) => n,
            Err(_) => s,
        };
        after_swaps(g, next, ops.drop_first())
    }
}

/// Reference asset swapped in minus reference asset swapped out, over the
/// calls of `ops` that succeed.
pub open spec fn net_swapped(g: GlobalState, s: PsmConfig, ops: Seq<Swap>) -> int
    decreases ops.len(),
{
    if ops.len() == 0 {
        0
    } else {
        match swap_outcome(g, s, ops[0]) {
            Ok(n) => match ops[0] {
                Swap::ToStable(a) => a + net_swapped(g, n, ops.drop_first()),
                Swap::FromStable(a) => net_swapped(g, n, ops.drop_first()) - a,
            },
            Err(_) => net_swapped(g, s, ops.drop_first()),
        }
    }
}

/// Reserve accounting: after any sequence of swaps, in either direction, the
/// vault's balance and the pool's minted total have each moved by exactly the
/// net amount swapped in.
pub proof fn swaps_keep_reserve_accounting(g: GlobalState, s: PsmConfig, ops: Seq<Swap>)
    ensures
        after_swaps(g, s, ops).vault_balance == s.vault_balance + net_swapped(g, s, ops),
        after_swaps(g, s, ops).total_minted == s.total_minted + net_swapped(g, s, ops),
    decreases ops.len(),
{
    if ops.len() > 0 {
        match swap_outcome(g, s, ops[0]) {
            Ok(n) => swaps_keep_reserve_accounting(g, n, ops.drop_first()),
            Err(_) => swaps_keep_reserve_accounting(g, s, ops.drop_first()),
        }
    }
}

} // verus!
