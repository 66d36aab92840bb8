use crate::engine::{
    other, owner_deposit_post, settlement_commit_post, swap_payout, Asset, PendingSwap,
};
use crate::state::{balances_unchanged, AMMContract};
use vstd::arithmetic::mul::lemma_mul_is_commutative;
use vstd::prelude::*;

verus! {

/// Invariant consistency: every step of the pool's lifecycle keeps the
/// cached ratio equal to the product of the two committed balances.  A step
/// is an applied operator deposit, a committed settlement, or one of the
/// operations that leave the balances and the ratio as they were (a metadata
/// write, a swap dispatch, a rejected notification, a failed settlement); so
/// after any sequence of steps the invariant still holds exactly.
pub proof fn lemma_invariant_consistency(pre: AMMContract, post: AMMContract)
    requires
        pre.wf(),
        ({
            ||| exists|side: Asset, amount: u128| owner_deposit_post(pre, side, amount, post)
            ||| exists|p: PendingSwap| settlement_commit_post(pre, p, post)
            ||| balances_unchanged(pre, post)
        }),
    ensures
        post.wf(),
{
    if exists|side: Asset, amount: u128| owner_deposit_post(pre, side, amount, post) {
        let (side, amount) = choose|side: Asset, amount: u128|
            owner_deposit_post(pre, side, amount, post);
    } else if exists|p: PendingSwap| settlement_commit_post(pre, p, post) {
        let p = choose|p: PendingSwap| settlement_commit_post(pre, p, post);
    }
}

/// Swap quote correctness: with committed balances `(A, B)` read off a
/// consistent pool, the quoted payout for an inbound amount `x` of one asset
/// is exactly `B - floor(A * B / (A + x))`, where `A` is the inbound side's
/// balance and `B` the outbound side's.
pub proof fn lemma_swap_quote_formula(s: AMMContract, side: Asset, amount: u128)
    requires
        s.wf(),
        s.bal(side) + amount > 0,
    ensures
        swap_payout(s, side, amount) == s.bal(other(side)) - (s.bal(side) * s.bal(other(side)))
            / (s.bal(side) + amount),
{
    lemma_mul_is_commutative(s.ft_a.balance as int, s.ft_b.balance as int);
    assert(s.bal(side) as int * s.bal(other(side)) as int == s.ratio as int);
}

} // verus!
