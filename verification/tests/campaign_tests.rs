use pump::campaign::{Campaign, CampaignConfig};
use pump::errors::CampaignError;

fn test_config() -> CampaignConfig {
    CampaignConfig {
        target_ceiling: 200,
        per_contributor_cap: 10,
        refund_window: 100,
        ledger_capacity: 10,
    }
}

fn open_campaign(target: u64) -> Campaign {
    Campaign::create_campaign(
        &test_config(),
        1,
        String::from("bootstrap"),
        String::from("BOOT"),
        1000,
        target,
        9,
        50,
    )
    .unwrap()
}

#[test]
fn create_campaign_initializes_cleanly() {
    let c = open_campaign(200);
    assert_eq!(c.id, 1);
    assert_eq!(c.name, "bootstrap");
    assert_eq!(c.ticker, "BOOT");
    assert_eq!(c.total_supply, 1000);
    assert_eq!(c.target, 200);
    assert_eq!(c.total_contributed, 0);
    assert_eq!(c.creation_time, 50);
    assert_eq!(c.contribution_count, 0);
    assert!(!c.is_finalized);
    assert_eq!(c.decimals, 9);
}

#[test]
fn create_campaign_rejects_zero_target() {
    let r = Campaign::create_campaign(
        &test_config(),
        1,
        String::from("a"),
        String::from("A"),
        1000,
        0,
        9,
        50,
    );
    assert_eq!(r.unwrap_err(), CampaignError::InvalidParameter);
}

#[test]
fn create_campaign_rejects_target_over_ceiling() {
    let r = Campaign::create_campaign(
        &test_config(),
        1,
        String::from("a"),
        String::from("A"),
        1000,
        201,
        9,
        50,
    );
    assert_eq!(r.unwrap_err(), CampaignError::InvalidParameter);
}

#[test]
fn create_campaign_rejects_oversized_name_and_ticker() {
    let long_name: String = "n".repeat(33);
    let r = Campaign::create_campaign(
        &test_config(),
        1,
        long_name,
        String::from("A"),
        1000,
        100,
        9,
        50,
    );
    assert_eq!(r.unwrap_err(), CampaignError::InvalidParameter);

    let long_ticker: String = "t".repeat(11);
    let r = Campaign::create_campaign(
        &test_config(),
        1,
        String::from("a"),
        long_ticker,
        1000,
        100,
        9,
        50,
    );
    assert_eq!(r.unwrap_err(), CampaignError::InvalidParameter);
}

#[test]
fn create_campaign_accepts_boundary_lengths() {
    let name: String = "n".repeat(32);
    let ticker: String = "t".repeat(10);
    assert!(Campaign::create_campaign(&test_config(), 1, name, ticker, 1000, 200, 9, 50).is_ok());
}

#[test]
fn record_contribution_moves_total_and_counter_together() {
    let mut c = open_campaign(200);
    assert!(c.record_contribution(10).is_ok());
    assert_eq!(c.total_contributed, 10);
    assert_eq!(c.contribution_count, 1);
}

#[test]
fn record_contribution_rejects_past_target_without_mutation() {
    let mut c = open_campaign(20);
    assert!(c.record_contribution(20).is_ok());
    let r = c.record_contribution(1);
    assert_eq!(r.unwrap_err(), CampaignError::TargetExceeded);
    assert_eq!(c.total_contributed, 20);
    assert_eq!(c.contribution_count, 1);
}

#[test]
fn record_contribution_rejects_counter_overflow() {
    let mut c = open_campaign(200);
    c.contribution_count = u32::MAX;
    let r = c.record_contribution(0);
    assert_eq!(r.unwrap_err(), CampaignError::ArithmeticOverflow);
    assert_eq!(c.contribution_count, u32::MAX);
}

#[test]
fn mark_finalized_is_one_way() {
    let mut c = open_campaign(200);
    assert!(c.mark_finalized().is_ok());
    assert!(c.is_finalized);
    assert_eq!(c.mark_finalized().unwrap_err(), CampaignError::AlreadyFinalized);
    assert!(c.is_finalized);
}

#[test]
fn refund_open_needs_expiry_and_shortfall() {
    let cfg = test_config();
    let c = open_campaign(200);
    // Window still running.
    assert!(!c.refund_open(&cfg, 150));
    // Window passed, target not reached.
    assert!(c.refund_open(&cfg, 151));
    // Window passed but target reached.
    let mut funded = open_campaign(20);
    funded.record_contribution(20).unwrap();
    assert!(!funded.refund_open(&cfg, 151));
}
