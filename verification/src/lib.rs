//! Consensus-critical core of a blockchain node: a bounded byte-sequence
//! codec for small binary payloads embedded in consensus data, and an
//! orphan-block validator that runs a fail-fast, ordered pipeline of
//! stateless checks over a candidate block.

pub mod blocks;
pub mod fixed_array;
pub mod simple_rules;
pub mod validation;
