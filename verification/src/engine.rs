use crate::errors::AmmError;
use crate::state::{metadata_unchanged, AMMContract};
use vstd::arithmetic::div_mod::{lemma_fundamental_div_mod, lemma_mod_bound};
use vstd::arithmetic::mul::lemma_mul_is_commutative;
use vstd::prelude::*;

verus! {

/// Which of the two pool assets a value refers to.
#[derive(Clone, Copy, Debug, PartialEq, Eq, Structural)]
pub enum Asset {
    A,
    B,
}

/// The proposed post-swap reserve pair.  It is computed at dispatch time from
/// the committed invariant, carried opaquely through the asynchronous
/// outbound transfer, and committed only by the settlement callback.
#[derive(Clone, Copy, Debug, PartialEq, Eq, Structural)]
pub struct PendingSwap {
    pub new_a_balance: u128,
    pub new_b_balance: u128,
}

/// The outbound ledger transfer a swap deposit asks for: pay `amount` of
/// `token_out` to `receiver_id`, and hand `pending` back to the settlement
/// callback once the transfer's outcome is known.
pub struct TransferRequest {
    pub token_out: Asset,
    pub receiver_id: String,
    pub amount: u128,
    pub pending: PendingSwap,
}

/// The outcome of a dispatched outbound transfer, as reported back by the
/// external call transport.
#[derive(Clone, Copy, Debug, PartialEq, Eq, Structural)]
pub enum SettlementOutcome {
    NotReady,
    Failed,
    Successful,
}

/// The counter-asset of `side`.
pub open spec fn other(side: Asset) -> Asset {
    match side {
        Asset::A => Asset::B,
        Asset::B => Asset::A,
    }
}

impl AMMContract {
    /// The committed balance of one side of the pool.
    pub open spec fn bal(self, side: Asset) -> u128 {
        match side {
            Asset::A => self.ft_a.balance,
            Asset::B => self.ft_b.balance,
        }
    }
}

/// An operator deposit of `amount` into `side` fits exactly when neither the
/// balance addition nor the recomputed invariant product leaves `u128`.
pub open spec fn owner_deposit_fits(pre: AMMContract, side: Asset, amount: u128) -> bool {
    &&& pre.bal(side) + amount <= u128::MAX
    &&& (pre.bal(side) + amount) * pre.bal(other(side)) <= u128::MAX
}

/// The state after an applied operator deposit: `amount` added to `side`, the
/// other balance untouched, the invariant recomputed from the new pair.
pub open spec fn owner_deposit_post(
    pre: AMMContract,
    side: Asset,
    amount: u128,
    post: AMMContract,
) -> bool {
    &&& post.bal(side) == pre.bal(side) + amount
    &&& post.bal(other(side)) == pre.bal(other(side))
    &&& post.ratio == post.ft_a.balance * post.ft_b.balance
    &&& metadata_unchanged(pre, post)
}

/// The proposed post-deposit balance of the inbound side.
pub open spec fn swap_new_in(pre: AMMContract, side: Asset, amount: u128) -> int {
    pre.bal(side) + amount
}

/// The proposed post-swap balance of the outbound side: the committed
/// invariant divided, rounding down, by the new inbound balance.
pub open spec fn swap_new_out(pre: AMMContract, side: Asset, amount: u128) -> int
    recommends
        swap_new_in(pre, side, amount) > 0,
{
    pre.ratio as int / swap_new_in(pre, side, amount)
}

/// The quoted payout of the outbound asset.
pub open spec fn swap_payout(pre: AMMContract, side: Asset, amount: u128) -> int {
    pre.bal(other(side)) - swap_new_out(pre, side, amount)
}

/// The outbound transfer that a swap deposit of `amount` into `side` by
/// `sender` dispatches: the quoted payout of the counter-asset goes to the
/// sender, and the proposed pair rides along for the settlement callback.
/// The proposed pair's product never exceeds the invariant it was quoted
/// from, so committing it can never overflow.
pub open spec fn swap_request_matches(
    pre: AMMContract,
    side: Asset,
    sender: Seq<char>,
    amount: u128,
    req: TransferRequest,
) -> bool {
    &&& req.token_out == other(side)
    &&& req.receiver_id@ == sender
    &&& req.amount == swap_payout(pre, side, amount)
    &&& match side {
        Asset::A => req.pending.new_a_balance == swap_new_in(pre, side, amount)
            && req.pending.new_b_balance == swap_new_out(pre, side, amount),
        Asset::B => req.pending.new_b_balance == swap_new_in(pre, side, amount)
            && req.pending.new_a_balance == swap_new_out(pre, side, amount),
    }
    &&& req.pending.new_a_balance * req.pending.new_b_balance <= pre.ratio
}

/// The full contract of one inbound deposit of `amount` of `side` from
/// `sender`: the operator's deposits commit immediately and dispatch nothing;
/// anyone else's deposit is a swap, which mutates nothing and either fails or
/// dispatches exactly the quoted outbound transfer.
pub open spec fn deposit_outcome(
    pre: AMMContract,
    post: AMMContract,
    side: Asset,
    sender: Seq<char>,
    amount: u128,
    r: Result<Option<TransferRequest>, AmmError>,
) -> bool {
    if sender == pre.owner_id@ {
        &&& (r is Ok <==> owner_deposit_fits(pre, side, amount))
        &&& (r is Ok ==> r == Ok::<Option<TransferRequest>, AmmError>(None)
            && owner_deposit_post(pre, side, amount, post))
        &&& (r is Err ==> r == Err::<Option<TransferRequest>, AmmError>(AmmError::Overflow)
            && post == pre)
    } else {
        &&& post == pre
        &&& (if swap_new_in(pre, side, amount) > u128::MAX {
            r == Err::<Option<TransferRequest>, AmmError>(AmmError::Overflow)
        } else if swap_new_out(pre, side, amount) > pre.bal(other(side)) {
            r == Err::<Option<TransferRequest>, AmmError>(AmmError::InsufficientLiquidity)
        } else {
            r matches Ok(Some(req)) && swap_request_matches(pre, side, sender, amount, req)
        })
    }
}

/// The state after a committed settlement: the proposed pair becomes the
/// committed pair and the invariant is recomputed from it.
pub open spec fn settlement_commit_post(
    pre: AMMContract,
    p: PendingSwap,
    post: AMMContract,
) -> bool {
    &&& post.ft_a.balance == p.new_a_balance
    &&& post.ft_b.balance == p.new_b_balance
    &&& post.ratio == p.new_a_balance * p.new_b_balance
    &&& metadata_unchanged(pre, post)
}

impl AMMContract {
    /// Recompute the cached invariant from the two committed balances.
    fn update_ratio(&mut self)
        requires
            old(self).ft_a.balance * old(self).ft_b.balance <= u128::MAX,
        ensures
            final(self).ft_a == old(self).ft_a,
            final(self).ft_b == old(self).ft_b,
            final(self).owner_id == old(self).owner_id,
            final(self).ratio == old(self).ft_a.balance * old(self).ft_b.balance,
            final(self).wf(),
    {
        self.ratio = self.ft_a.balance * self.ft_b.balance;
    }

    /// Operator deposit into asset A: committed at once, no outbound
    /// transfer, invariant recomputed from the new pair.
    fn deposit_a_by_owner(&mut self, amount: u128) -> (r: Result<(), AmmError>)
        ensures
            (r is Ok <==> owner_deposit_fits(*old(self), Asset::A, amount)),
            r is Ok ==> owner_deposit_post(*old(self), Asset::A, amount, *final(self)),
            r is Err ==> r == Err::<(), AmmError>(AmmError::Overflow)
                && *final(self) == *old(self),
    {
        let new_a_balance = match self.ft_a.balance.checked_add(amount) {
            Some(v) => v,
            None => {
                return Err(AmmError::Overflow);
            },
        };
        let new_ratio = match new_a_balance.checked_mul(self.ft_b.balance) {
            Some(v) => v,
            None => {
                return Err(AmmError::Overflow);
            },
        };
        self.ft_a.balance = new_a_balance;
        self.ratio = new_ratio;
        Ok(())
    }

    /// Operator deposit into asset B; the mirror image of
    /// [`Self::deposit_a_by_owner`].
    fn deposit_b_by_owner(&mut self, amount: u128) -> (r: Result<(), AmmError>)
        ensures
            (r is Ok <==> owner_deposit_fits(*old(self), Asset::B, amount)),
            r is Ok ==> owner_deposit_post(*old(self), Asset::B, amount, *final(self)),
            r is Err ==> r == Err::<(), AmmError>(AmmError::Overflow)
                && *final(self) == *old(self),
    {
        let new_b_balance = match self.ft_b.balance.checked_add(amount) {
            Some(v) => v,
            None => {
                return Err(AmmError::Overflow);
            },
        };
        proof {
            lemma_mul_is_commutative(self.ft_a.balance as int, new_b_balance as int);
        }
        let new_ratio = match self.ft_a.balance.checked_mul(new_b_balance) {
            Some(v) => v,
            None => {
                return Err(AmmError::Overflow);
            },
        };
        self.ft_b.balance = new_b_balance;
        self.ratio = new_ratio;
        Ok(())
    }

    /// Inbound deposit of asset A.  From the operator it is a liquidity
    /// deposit and commits at once; from anyone else it is a swap: the
    /// committed state is left untouched and the quoted outbound transfer of
    /// asset B is handed back for dispatch.
    pub fn deposit_a(&mut self, sender_id: String, amount: u128) -> (r: Result<
        Option<TransferRequest>,
        AmmError,
    >)
        requires
            sender_id@ != old(self).owner_id@ ==> old(self).ft_a.balance + amount > 0,
        ensures
            deposit_outcome(*old(self), *final(self), Asset::A, sender_id@, amount, r),
    {
        if sender_id == self.owner_id {
            match self.deposit_a_by_owner(amount) {
                Ok(()) => Ok(None),
                Err(e) => Err(e),
            }
        } else {
            let new_a_balance = match self.ft_a.balance.checked_add(amount) {
                Some(v) => v,
                None => {
                    return Err(AmmError::Overflow);
                },
            };
            let new_b_balance = self.ratio / new_a_balance;
            if new_b_balance > self.ft_b.balance {
                return Err(AmmError::InsufficientLiquidity);
            }
            let payout = self.ft_b.balance - new_b_balance;
            proof {
                lemma_fundamental_div_mod(self.ratio as int, new_a_balance as int);
                lemma_mod_bound(self.ratio as int, new_a_balance as int);
            }
            Ok(
                Some(
                    TransferRequest {
                        token_out: Asset::B,
                        receiver_id: sender_id,
                        amount: payout,
                        pending: PendingSwap { new_a_balance, new_b_balance },
                    },
                ),
            )
        }
    }

    /// Inbound deposit of asset B; the mirror image of [`Self::deposit_a`],
    /// paying out asset A.
    fn deposit_b(&mut self, sender_id: String, amount: u128) -> (r: Result<
        Option<TransferRequest>,
        AmmError,
    >)
        requires
            sender_id@ != old(self).owner_id@ ==> old(self).ft_b.balance + amount > 0,
        ensures
            deposit_outcome(*old(self), *final(self), Asset::B, sender_id@, amount, r),
    {
        if sender_id == self.owner_id {
            match self.deposit_b_by_owner(amount) {
                Ok(()) => Ok(None),
                Err(e) => Err(e),
            }
        } else {
            let new_b_balance = match self.ft_b.balance.checked_add(amount) {
                Some(v) => v,
                None => {
                    return Err(AmmError::Overflow);
                },
            };
            let new_a_balance = self.ratio / new_b_balance;
            if new_a_balance > self.ft_a.balance {
                return Err(AmmError::InsufficientLiquidity);
            }
            let payout = self.ft_a.balance - new_a_balance;
            proof {
                lemma_fundamental_div_mod(self.ratio as int, new_b_balance as int);
                lemma_mod_bound(self.ratio as int, new_b_balance as int);
                lemma_mul_is_commutative(new_a_balance as int, new_b_balance as int);
            }
            Ok(
                Some(
                    TransferRequest {
                        token_out: Asset::A,
                        receiver_id: sender_id,
                        amount: payout,
                        pending: PendingSwap { new_a_balance, new_b_balance },
                    },
                ),
            )
        }
    }

    /// A confirmed "funds received" notification: `amount` of the asset whose
    /// ledger is `token_id` is now irrevocably held for the pool, sent by
    /// `sender_id`.  An asset the pool does not track is rejected with the
    /// state untouched; otherwise the deposit is routed to the matching side.
    pub fn ft_on_transfer(&mut self, sender_id: String, amount: u128, token_id: String) -> (r:
        Result<Option<TransferRequest>, AmmError>)
        requires
            sender_id@ != old(self).owner_id@ && token_id@ == old(self).ft_a.account_id@
                ==> old(self).ft_a.balance + amount > 0,
            sender_id@ != old(self).owner_id@ && token_id@ != old(self).ft_a.account_id@
                && token_id@ == old(self).ft_b.account_id@ ==> old(self).ft_b.balance + amount > 0,
        ensures
            token_id@ != old(self).ft_a.account_id@ && token_id@ != old(self).ft_b.account_id@
                ==> r == Err::<Option<TransferRequest>, AmmError>(AmmError::UnsupportedAsset)
                && *final(self) == *old(self),
            token_id@ == old(self).ft_a.account_id@ ==> deposit_outcome(
                *old(self),
                *final(self),
                Asset::A,
                sender_id@,
                amount,
                r,
            ),
            token_id@ != old(self).ft_a.account_id@ && token_id@ == old(self).ft_b.account_id@
                ==> deposit_outcome(*old(self), *final(self), Asset::B, sender_id@, amount, r),
    {
        if token_id == self.ft_a.account_id {
            self.deposit_a(sender_id, amount)
        } else if token_id == self.ft_b.account_id {
            self.deposit_b(sender_id, amount)
        } else {
            Err(AmmError::UnsupportedAsset)
        }
    }

    /// The settlement callback for one dispatched outbound transfer.  Only a
    /// confirmed success commits the proposed pair; a failure, or a callback
    /// that runs before the outcome is known, leaves the committed state
    /// byte-for-byte as it was.
    pub fn ft_transfer_callback(
        &mut self,
        outcome: SettlementOutcome,
        a_balance: u128,
        b_balance: u128,
    ) -> (r: Result<(), AmmError>)
        requires
            a_balance * b_balance <= u128::MAX,
        ensures
            (r is Ok <==> outcome is Successful),
            outcome is NotReady ==> r == Err::<(), AmmError>(AmmError::SettlementNotReady)
                && *final(self) == *old(self),
            outcome is Failed ==> r == Err::<(), AmmError>(AmmError::SettlementFailed)
                && *final(self) == *old(self),
            outcome is Successful ==> settlement_commit_post(
                *old(self),
                (PendingSwap { new_a_balance: a_balance, new_b_balance: b_balance }),
                *final(self),
            ),
            outcome is Successful ==> final(self).wf(),
    {
        match outcome {
            SettlementOutcome::NotReady => Err(AmmError::SettlementNotReady),
            SettlementOutcome::Failed => Err(AmmError::SettlementFailed),
            SettlementOutcome::Successful => {
                self.ft_a.balance = a_balance;
                self.ft_b.balance = b_balance;
                self.update_ratio();
                Ok(())
            },
        }
    }
}

} // verus!
