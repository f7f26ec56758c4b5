use vstd::prelude::*;

verus! {

/// A 32-byte account address (owner, token mint, vault).
pub type Key = [u8; 32];

/// Every way an operation of the core can fail. A failed operation changes
/// nothing.
#[derive(Clone, Copy, Debug, PartialEq, Eq, Structural)]
pub enum CustomErrorCode {
    /// The system is paused.
    Paused,
    /// The position is frozen.
    Frozen,
    /// The amount of the request is zero.
    ZeroAmount,
    /// The resulting position would be under its minimum collateral ratio.
    BelowMcr,
    /// An intermediate or stored value would leave its integer range.
    MathOverflow,
    /// A stored counter would go below zero.
    MathUnderflow,
    /// More collateral was asked for than the position holds.
    InsufficientCollateral,
    /// The position is not undercollateralized, so it cannot be liquidated.
    PositionSafe,
    /// The price feed could not be read.
    OracleError,
    /// The price feed has no update within the freshness window.
    OracleStale,
    /// The price feed reports a negative price.
    OracleInvalid,
    /// A vault holds less than the amount to be paid out of it.
    InsufficientFunds,
}

/// Whether an address is still all zeros, as in a record that has just been
/// created.
pub open spec fn is_unset(key: Key) -> bool {
    forall|i: int| 0 <= i < 32 ==> key@[i] == 0
}

/// Tests `is_unset`.
pub fn key_is_unset(key: &Key) -> (r: bool)
    ensures
        r == is_unset(*key),
{
    let mut i: usize = 0;
    while i < 32
        invariant
            i <= 32,
            forall|j: int| 0 <= j < i ==> key@[j] == 0,
        decreases 32 - i,
    {
        if key[i] != 0 {
            return false;
        }
        i = i + 1;
    }
    true
}

/// Process-wide settings: the administrator, the stable asset and the pause
/// flag that every mutating operation consults first.
#[derive(Clone, Copy, Debug, PartialEq, Eq)]
pub struct GlobalState {
    pub admin: Key,
    pub usdt_mint: Key,
    pub total_supply: u64,
    pub paused: bool,
}

/// Risk parameters of one collateral type. `mcr` and `ltr` are percentages
/// (150 for 150%), `liquidation_penalty` a percentage surcharge on seized
/// collateral. `ltr` is stored but no operation consults it.
#[derive(Clone, Copy, Debug, PartialEq, Eq)]
pub struct CollateralConfig {
    pub collateral_mint: Key,
    pub oracle: Key,
    pub mcr: u64,
    pub ltr: u64,
    pub liquidation_penalty: u64,
}

/// One owner's collateral and debt for one collateral type.
#[derive(Clone, Copy, Debug, PartialEq, Eq)]
pub struct Position {
    pub owner: Key,
    pub collateral_mint: Key,
    pub collateral_amount: u64,
    pub debt_amount: u64,
    pub is_frozen: bool,
    pub last_updated: i64,
}

/// `r` and the record after the call are the outcome `o` applied to the
/// record `before`: its new value on success, nothing changed on failure.
pub open spec fn commits<T>(
    r: Result<(), CustomErrorCode>,
    before: T,
    after: T,
    o: Result<T, CustomErrorCode>,
) -> bool {
    match o {
        Ok(v) => r is Ok && after == v,
        Err(e) => r == Err::<(), CustomErrorCode>(e) && after == before,
    }
}

/// Creates the process-wide state: not paused, nothing issued.
pub fn initialize_handler(admin: Key, usdt_mint: Key) -> (g: GlobalState)
    ensures
        g == (GlobalState { admin, usdt_mint, total_supply: 0, paused: false }),
{
    GlobalState { admin, usdt_mint, total_supply: 0, paused: false }
}

/// Creates or replaces the risk parameters of a collateral type.
pub fn configure_collateral_handler(
    config: &mut CollateralConfig,
    collateral_mint: Key,
    oracle: Key,
    mcr: u64,
    ltr: u64,
    liquidation_penalty: u64,
)
    ensures
        *final(config) == (CollateralConfig { collateral_mint, oracle, mcr, ltr, liquidation_penalty }),
{
    *config = CollateralConfig { collateral_mint, oracle, mcr, ltr, liquidation_penalty };
}

} // verus!
