use crate::errors::AmmError;
use vstd::prelude::*;

verus! {

/// One tracked asset: its external ledger identity, its display metadata,
/// and the committed reserve balance the pool holds of it.
pub struct FTToken {
    pub account_id: String,
    pub name: String,
    pub decimals: u8,
    pub balance: u128,
}

/// The pool: the operator account, the two reserves, and the cached
/// invariant (the product of the two committed balances).
pub struct AMMContract {
    pub owner_id: String,
    pub ft_a: FTToken,
    pub ft_b: FTToken,
    pub ratio: u128,
}

/// Display name and precision of an asset, as reported by its ledger.
pub struct TokenMetadata {
    pub name: String,
    pub decimals: u8,
}

/// Snapshot of one reserve record, as handed out by read-only queries.
#[derive(PartialEq, Eq, Debug)]
pub struct TokenInfo {
    pub name: String,
    pub account_id: String,
    pub decimals: u8,
    pub balance: u128,
}

/// Snapshot of both reserve records.
#[derive(PartialEq, Eq, Debug)]
pub struct TokensInfo {
    pub a: TokenInfo,
    pub b: TokenInfo,
}

/// The committed balances and the cached ratio are the same in both states.
/// A metadata write, a swap dispatch, a rejected notification and a failed
/// settlement all leave the state this way.
pub open spec fn balances_unchanged(pre: AMMContract, post: AMMContract) -> bool {
    &&& post.ft_a.balance == pre.ft_a.balance
    &&& post.ft_b.balance == pre.ft_b.balance
    &&& post.ratio == pre.ratio
}

/// Neither the operator, the asset identities, nor the display metadata
/// differ between the two states: only balances and the ratio may.
pub open spec fn metadata_unchanged(pre: AMMContract, post: AMMContract) -> bool {
    &&& post.owner_id == pre.owner_id
    &&& post.ft_a.account_id == pre.ft_a.account_id
    &&& post.ft_a.name == pre.ft_a.name
    &&& post.ft_a.decimals == pre.ft_a.decimals
    &&& post.ft_b.account_id == pre.ft_b.account_id
    &&& post.ft_b.name == pre.ft_b.name
    &&& post.ft_b.decimals == pre.ft_b.decimals
}

impl AMMContract {
    /// The bookkeeping invariant: the cached ratio is exactly the product of
    /// the two committed reserve balances.
    pub open spec fn wf(self) -> bool {
        self.ratio == self.ft_a.balance * self.ft_b.balance
    }

    /// Create the pool with zero balances, empty display metadata, and a zero
    /// invariant.  The metadata queries to the two ledgers run outside this
    /// crate; their joined outcome is handed to [`Self::query_metadata_callback`].
    pub fn init(owner_id: String, ft_a_id: String, ft_b_id: String) -> (s: Self)
        ensures
            s.owner_id == owner_id,
            s.ft_a.account_id == ft_a_id,
            s.ft_b.account_id == ft_b_id,
            s.ft_a.name@ == Seq::<char>::empty(),
            s.ft_b.name@ == Seq::<char>::empty(),
            s.ft_a.decimals == 0,
            s.ft_b.decimals == 0,
            s.ft_a.balance == 0,
            s.ft_b.balance == 0,
            s.ratio == 0,
            s.wf(),
    {
        AMMContract {
            owner_id,
            ft_a: FTToken { account_id: ft_a_id, name: String::new(), decimals: 0, balance: 0 },
            ft_b: FTToken { account_id: ft_b_id, name: String::new(), decimals: 0, balance: 0 },
            ratio: 0,
        }
    }

    /// Write the display name and precision of both assets, exactly as the
    /// joined metadata queries reported them.  If either query failed, no
    /// field is written and the bootstrap is reported failed.
    pub fn query_metadata_callback(
        &mut self,
        a_metadata_result: Option<TokenMetadata>,
        b_metadata_result: Option<TokenMetadata>,
    ) -> (r: Result<(), AmmError>)
        ensures
            (r is Ok <==> (a_metadata_result is Some && b_metadata_result is Some)),
            r is Err ==> r == Err::<(), AmmError>(AmmError::MetadataFetchFailed)
                && *final(self) == *old(self),
            a_metadata_result matches Some(am) ==> b_metadata_result matches Some(bm) ==> {
                &&& final(self).ft_a.name == am.name
                &&& final(self).ft_a.decimals == am.decimals
                &&& final(self).ft_b.name == bm.name
                &&& final(self).ft_b.decimals == bm.decimals
                &&& final(self).owner_id == old(self).owner_id
                &&& final(self).ft_a.account_id == old(self).ft_a.account_id
                &&& final(self).ft_b.account_id == old(self).ft_b.account_id
                &&& final(self).ft_a.balance == old(self).ft_a.balance
                &&& final(self).ft_b.balance == old(self).ft_b.balance
                &&& final(self).ratio == old(self).ratio
            },
    {
        match (a_metadata_result, b_metadata_result) {
            (Some(am), Some(bm)) => {
                self.ft_a.name = am.name;
                self.ft_a.decimals = am.decimals;
                self.ft_b.name = bm.name;
                self.ft_b.decimals = bm.decimals;
                Ok(())
            },
            _ => Err(AmmError::MetadataFetchFailed),
        }
    }

    /// The current invariant, read from committed state only.
    pub fn get_ratio(&self) -> (r: u128)
        ensures
            r == self.ratio,
    {
        self.ratio
    }

    /// Snapshot of both reserve records, read from committed state only.
    pub fn get_tokens_info(&self) -> (info: TokensInfo)
        ensures
            info.a.name == self.ft_a.name,
            info.a.account_id == self.ft_a.account_id,
            info.a.decimals == self.ft_a.decimals,
            info.a.balance == self.ft_a.balance,
            info.b.name == self.ft_b.name,
            info.b.account_id == self.ft_b.account_id,
            info.b.decimals == self.ft_b.decimals,
            info.b.balance == self.ft_b.balance,
    {
        TokensInfo {
            a: TokenInfo {
                name: self.ft_a.name.clone(),
                account_id: self.ft_a.account_id.clone(),
                decimals: self.ft_a.decimals,
                balance: self.ft_a.balance,
            },
            b: TokenInfo {
                name: self.ft_b.name.clone(),
                account_id: self.ft_b.account_id.clone(),
                decimals: self.ft_b.decimals,
                balance: self.ft_b.balance,
            },
        }
    }
}

} // verus!
