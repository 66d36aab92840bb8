//! A two-asset automated market maker.
//!
//! The pool holds reserves of two fungible assets, quotes and executes swaps
//! between them at the rate fixed by the product invariant, and lets a
//! privileged operator seed or rebalance reserves without a swap.  The actual
//! ledger transfers are asynchronous and live outside this crate; the pool
//! itself is a state machine over plain values: a swap deposit produces an
//! outbound [`engine::TransferRequest`] carrying the proposed post-swap
//! reserve pair, and the reserves are committed only when the settlement
//! callback reports that the outbound transfer succeeded.
//!
//! The embedding is expected to serialize swaps, dispatching a new one only
//! after the last one settled.  A commit applies exactly the pair it is
//! handed, so overlapping swaps quoted from the same committed state can let
//! the cached invariant drift above the product of the balances; a later
//! quote from such a state is still bounded by the committed reserves, or is
//! rejected as insufficient liquidity.

pub mod engine;
pub mod errors;
pub mod laws;
pub mod state;
