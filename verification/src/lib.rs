//! Core arithmetic and state codec for a constant-function market-maker pool.
//!
//! The crate is organised around three concerns:
//!
//! * fee arithmetic (`fees`, `amm_fees`): proportional fees with a minimum-fee
//!   floor, computed in 128-bit arithmetic so that no intermediate step can
//!   overflow silently;
//! * pricing curves (`calculator`, `constant_product`, `constant_price`,
//!   `stable`, `offset`, `base`): the four interchangeable invariant-preserving
//!   formulas behind one dispatch enum, plus the orchestrator that combines a
//!   curve with a fee schedule;
//! * the persisted-state codec (`state`, `amm_state`): a fixed-width, versioned
//!   byte layout that round-trips exactly.
//!
//! Two independent on-wire schemas exist side by side: the `fees`/`state`
//! family (a single trade fee, 324-byte records) and the `amm_fees`/`amm_state`
//! family (return and fixed fees, 412-byte records).  They are deliberately not
//! interchangeable.

pub mod amm_constraints;
pub mod amm_fees;
pub mod amm_state;
pub mod base;
pub mod calculator;
pub mod codec;
pub mod constant_price;
pub mod constant_product;
pub mod constraints;
pub mod error;
pub mod fees;
pub mod math;
pub mod offset;
pub mod processor;
pub mod stable;
pub mod state;
