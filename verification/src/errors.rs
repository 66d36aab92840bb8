use vstd::prelude::*;

verus! {

/// The ways a pool operation can fail.  All of them abort the triggering
/// operation before any reserve state is mutated; none is retried here.
#[derive(Clone, Copy, Debug, PartialEq, Eq, Structural)]
pub enum AmmError {
    /// An inbound funds notification named an asset the pool does not track.
    UnsupportedAsset,
    /// A balance addition, or the invariant product, would exceed `u128`.
    Overflow,
    /// The quoted payout would exceed the committed reserve of the outbound
    /// asset.
    InsufficientLiquidity,
    /// The settlement callback ran before the transfer outcome was known.
    SettlementNotReady,
    /// The outbound transfer of a swap was confirmed failed; the swap is
    /// abandoned and the committed reserves stay as they were.
    SettlementFailed,
    /// A metadata query failed during bootstrap; no partial metadata is
    /// written.
    MetadataFetchFailed,
}

} // verus!
