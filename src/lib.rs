//! Accounting and risk core of an overcollateralized stablecoin: collateral
//! positions, minting against them, liquidation of unsafe positions, a peg
//! stability module and the governance gates that guard every operation.
pub mod state;
pub mod math;
pub mod utils;
pub mod engine;
pub mod liquidate;
pub mod psm;
pub mod governance;
