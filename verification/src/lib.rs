//! Activation of a Stylus program on an Arbitrum chain.
//!
//! The data fee of an activation is estimated with a call to the ArbWasm
//! precompile that the node only simulates, on state in which the caller is
//! rich and the program's code is in place. The estimate, raised by a margin
//! if one is configured, is then paid with the transaction that activates the
//! program. This crate holds the rules of both steps: what is asked of the
//! node, how its answer is read, what the fee is, and how the submission
//! proceeds. Talking to the node and signing are the caller's.

pub mod abi;
pub mod activation;
pub mod address;
pub mod config;
pub mod error;
pub mod fee;
pub mod hexadecimal;
pub mod overrides;
pub mod simulate;
pub mod submit;
pub mod uint256;
