use pump::campaign::CampaignConfig;
use pump::engine::{CampaignEngine, FinalizeAction};
use pump::errors::CampaignError;
use pump::pool::LiquidityPool;

const CREATED_AT: i64 = 1_000;

fn config() -> CampaignConfig {
    CampaignConfig {
        target_ceiling: 200,
        per_contributor_cap: 10,
        refund_window: 100,
        ledger_capacity: 10,
    }
}

fn open_engine(total_supply: u64, target: u64) -> CampaignEngine {
    CampaignEngine::initialize(
        config(),
        1,
        String::from("bootstrap"),
        String::from("BOOT"),
        total_supply,
        target,
        9,
        CREATED_AT,
    )
    .unwrap()
}

#[test]
fn underfunded_campaign_refunds_after_deadline() {
    // Target 200, cap 10: contributor A puts in 10, far short of the target.
    let mut e = open_engine(1000, 200);
    e.contribute(1, 10, CREATED_AT + 1).unwrap();
    assert_eq!(e.campaign.total_contributed, 10);

    // Finalize fails: the target was not reached.
    assert_eq!(e.finalize().unwrap_err(), CampaignError::TargetNotReached);

    // After the deadline, A gets the full 10 back and the record is zeroed.
    let later = CREATED_AT + 101;
    assert_eq!(e.refund(1, later).unwrap(), 10);
    let idx = e.store.find(1).unwrap();
    assert_eq!(e.store.get(idx).amount, 0);
    assert_eq!(e.refunded_total, 10);
    // The campaign total itself is append-only history.
    assert_eq!(e.campaign.total_contributed, 10);
}

#[test]
fn funded_campaign_finalizes_with_even_split() {
    // Target 20: two contributors of 10 each reach it exactly.
    let mut e = open_engine(1000, 20);
    e.contribute(1, 10, CREATED_AT + 1).unwrap();
    e.contribute(2, 10, CREATED_AT + 2).unwrap();
    assert_eq!(e.campaign.total_contributed, 20);

    // Fee is 5% of 20 = 1; 19 resource and half the supply seed the pool.
    assert_eq!(e.finalize().unwrap(), FinalizeAction::PayFee { amount: 1 });
    e.confirm_finalize_step().unwrap();
    assert_eq!(
        e.finalize().unwrap(),
        FinalizeAction::SeedPool { resource_amount: 19, token_amount: 500 }
    );
    e.confirm_finalize_step().unwrap();

    // The distribution half (500) splits exactly evenly, and the payouts
    // never exceed the pool.
    let mut payouts = Vec::new();
    loop {
        match e.finalize().unwrap() {
            FinalizeAction::PayContributor { index, contributor, token_amount } => {
                payouts.push((index, contributor, token_amount));
                e.confirm_finalize_step().unwrap();
            }
            FinalizeAction::Complete => break,
            other => panic!("unexpected action {:?}", other),
        }
    }
    assert_eq!(payouts, vec![(0, 1, 250), (1, 2, 250)]);
    assert_eq!(payouts.iter().map(|p| p.2).sum::<u64>(), 500);

    e.confirm_finalize_step().unwrap();
    assert!(e.campaign.is_finalized);
    // Finalization happened exactly once.
    assert_eq!(e.finalize().unwrap_err(), CampaignError::AlreadyFinalized);
}

#[test]
fn last_contributor_absorbs_rounding_dust() {
    // Supply 7: 3 tokens seed the pool, 4 are distributed. Target 3 raised
    // as 1 + 2: the floor shares are 1 and 2, and the dust of 1 goes to the
    // last record, so exactly the whole 4 leave the pool.
    let mut e = open_engine(7, 3);
    e.contribute(1, 1, CREATED_AT + 1).unwrap();
    e.contribute(2, 2, CREATED_AT + 2).unwrap();

    assert_eq!(e.finalize().unwrap(), FinalizeAction::PayFee { amount: 0 });
    e.confirm_finalize_step().unwrap();
    assert_eq!(
        e.finalize().unwrap(),
        FinalizeAction::SeedPool { resource_amount: 3, token_amount: 3 }
    );
    e.confirm_finalize_step().unwrap();

    assert_eq!(
        e.finalize().unwrap(),
        FinalizeAction::PayContributor { index: 0, contributor: 1, token_amount: 1 }
    );
    e.confirm_finalize_step().unwrap();
    assert_eq!(
        e.finalize().unwrap(),
        FinalizeAction::PayContributor { index: 1, contributor: 2, token_amount: 3 }
    );
    e.confirm_finalize_step().unwrap();
    assert_eq!(e.finalize().unwrap(), FinalizeAction::Complete);
}

#[test]
fn contributions_are_conserved_across_operations() {
    let mut e = open_engine(1000, 200);
    e.contribute(1, 10, CREATED_AT + 1).unwrap();
    e.contribute(2, 3, CREATED_AT + 2).unwrap();
    e.contribute(2, 4, CREATED_AT + 3).unwrap();
    // Live amounts sum to the campaign total.
    let mut live = 0;
    for i in 0..e.store.len() {
        live += e.store.get(i).amount;
    }
    assert_eq!(live + e.refunded_total, e.campaign.total_contributed);

    // A refund moves value from the live records to the refunded account.
    e.refund(1, CREATED_AT + 101).unwrap();
    let mut live = 0;
    for i in 0..e.store.len() {
        live += e.store.get(i).amount;
    }
    assert_eq!(live, 7);
    assert_eq!(e.refunded_total, 10);
    assert_eq!(live + e.refunded_total, e.campaign.total_contributed);
}

#[test]
fn snapshot_ledger_is_zero_based_and_ordered() {
    let mut e = open_engine(1000, 200);
    e.contribute(5, 1, CREATED_AT + 1).unwrap();
    e.contribute(6, 2, CREATED_AT + 2).unwrap();
    e.contribute(5, 3, CREATED_AT + 3).unwrap();
    assert_eq!(e.ledger.len(), 3);
    for i in 0..e.ledger.len() {
        assert_eq!(e.ledger.get(i).sequence_index as usize, i);
    }
    assert_eq!(e.campaign.contribution_count, 3);
}

#[test]
fn liquidity_pool_records_seeded_reserves() {
    let mut pool = LiquidityPool::new(1);
    assert_eq!(pool.campaign_id, 1);
    assert_eq!(pool.resource_reserve, 0);
    assert_eq!(pool.token_reserve, 0);
    assert_eq!(pool.total_shares, 0);
    pool.seed(19, 500);
    assert_eq!(pool.resource_reserve, 19);
    assert_eq!(pool.token_reserve, 500);
}
