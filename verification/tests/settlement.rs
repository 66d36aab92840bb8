use amm::engine::SettlementOutcome;
use amm::errors::AmmError;
use amm::state::{AMMContract, TokenMetadata};

fn seeded_pool() -> AMMContract {
    let mut amm =
        AMMContract::init("owner".to_string(), "token-a".to_string(), "token-b".to_string());
    let ra = amm.ft_on_transfer("owner".to_string(), 20000000000, "token-a".to_string());
    assert!(matches!(ra, Ok(None)));
    let rb = amm.ft_on_transfer("owner".to_string(), 20000000000, "token-b".to_string());
    assert!(matches!(rb, Ok(None)));
    amm
}

#[test]
fn test_settlement_success_commits_pair() {
    let mut amm = seeded_pool();
    let r = amm.ft_on_transfer("alice".to_string(), 5000000000, "token-a".to_string());
    let req = match r {
        Ok(Some(req)) => req,
        _ => panic!("swap deposit should dispatch a transfer"),
    };
    let rc = amm.ft_transfer_callback(
        SettlementOutcome::Successful,
        req.pending.new_a_balance,
        req.pending.new_b_balance,
    );
    assert!(matches!(rc, Ok(())));
    let info = amm.get_tokens_info();
    assert_eq!(info.a.balance, 25000000000);
    assert_eq!(info.b.balance, 16000000000);
    // Invariant consistency: the committed ratio is again the exact product.
    assert_eq!(amm.get_ratio(), 25000000000 * 16000000000);
}

#[test]
fn test_failed_settlement_leaves_state_untouched() {
    let mut amm = seeded_pool();
    let before = amm.get_tokens_info();
    let ratio_before = amm.get_ratio();
    let r = amm.ft_on_transfer("alice".to_string(), 5000000000, "token-a".to_string());
    let req = match r {
        Ok(Some(req)) => req,
        _ => panic!("swap deposit should dispatch a transfer"),
    };
    let rc = amm.ft_transfer_callback(
        SettlementOutcome::Failed,
        req.pending.new_a_balance,
        req.pending.new_b_balance,
    );
    assert!(matches!(rc, Err(AmmError::SettlementFailed)));
    assert_eq!(amm.get_tokens_info(), before);
    assert_eq!(amm.get_ratio(), ratio_before);
}

#[test]
fn test_settlement_not_ready_is_fatal_and_mutates_nothing() {
    let mut amm = seeded_pool();
    let before = amm.get_tokens_info();
    let ratio_before = amm.get_ratio();
    let rc = amm.ft_transfer_callback(SettlementOutcome::NotReady, 1, 1);
    assert!(matches!(rc, Err(AmmError::SettlementNotReady)));
    assert_eq!(amm.get_tokens_info(), before);
    assert_eq!(amm.get_ratio(), ratio_before);
}

#[test]
fn test_metadata_callback_fills_both_records() {
    let mut amm =
        AMMContract::init("owner".to_string(), "token-a".to_string(), "token-b".to_string());
    let r = amm.query_metadata_callback(
        Some(TokenMetadata { name: "token a".to_string(), decimals: 8 }),
        Some(TokenMetadata { name: "token b".to_string(), decimals: 8 }),
    );
    assert!(matches!(r, Ok(())));
    let info = amm.get_tokens_info();
    assert_eq!(info.a.name, "token a");
    assert_eq!(info.a.decimals, 8);
    assert_eq!(info.b.name, "token b");
    assert_eq!(info.b.decimals, 8);
    assert_eq!(info.a.balance, 0);
    assert_eq!(info.b.balance, 0);
    assert_eq!(amm.get_ratio(), 0);
}

#[test]
fn test_get_tokens_info() {
    let mut amm = seeded_pool();
    let r = amm.query_metadata_callback(
        Some(TokenMetadata { name: "token a".to_string(), decimals: 8 }),
        Some(TokenMetadata { name: "token b".to_string(), decimals: 6 }),
    );
    assert!(matches!(r, Ok(())));
    let info = amm.get_tokens_info();
    assert_eq!(info.a.account_id, "token-a");
    assert_eq!(info.a.name, "token a");
    assert_eq!(info.a.decimals, 8);
    assert_eq!(info.a.balance, 20000000000);
    assert_eq!(info.b.account_id, "token-b");
    assert_eq!(info.b.name, "token b");
    assert_eq!(info.b.decimals, 6);
    assert_eq!(info.b.balance, 20000000000);
}

#[test]
fn test_metadata_fetch_failure_writes_nothing() {
    let mut amm =
        AMMContract::init("owner".to_string(), "token-a".to_string(), "token-b".to_string());
    let r = amm.query_metadata_callback(
        Some(TokenMetadata { name: "token a".to_string(), decimals: 8 }),
        None,
    );
    assert!(matches!(r, Err(AmmError::MetadataFetchFailed)));
    let info = amm.get_tokens_info();
    assert_eq!(info.a.name, "");
    assert_eq!(info.b.name, "");
    assert_eq!(info.a.decimals, 0);
    assert_eq!(info.b.decimals, 0);
}
