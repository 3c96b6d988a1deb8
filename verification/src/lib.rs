//! State machines of a cross-chain intent solver.
//!
//! A user's intent to move value to another chain passes three contracts: the
//! [`intent_validator`] confirms that it can be served, the
//! [`route_executor`] swaps and bridges it under a pause switch and a
//! reentrancy lock, and the [`settlement_verifier`] takes the bridge's
//! confirmation of delivery or refunds the intent once its settlement has
//! timed out.
//!
//! Each contract is held here as a plain value: its persistent state and the
//! notifications it has emitted so far. What a contract takes from its
//! surroundings is an argument of the call: the calling principal, the time,
//! and what a balance, allowance, swap or bridge service has answered. Every
//! call is specified by a function on the contract's mathematical state,
//! which gives the state after the call and the result, and the laws of each
//! contract are proved of those functions.
//!
//! [`word`] and [`address`] hold the 256-bit integers and the principals that
//! the contracts speak of, [`mapping`] the sparse store that their tables are
//! kept in, and [`simple_test`] a counter that exercises the same pieces.

pub mod address;
pub mod intent_validator;
pub mod mapping;
pub mod route_executor;
pub mod settlement_verifier;
pub mod word;
