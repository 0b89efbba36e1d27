use spotifier_core::dispatch::{delay_ms, identity_pool_size, pick_identity, prepare_call};
use spotifier_core::DelayConfig;

#[test]
fn fixed_range_pins_the_delay() {
    let cfg = DelayConfig { min_delay_ms: 500, max_delay_ms: 500, enabled: true };
    for roll in [0u64, 1, 17, u64::MAX] {
        assert_eq!(delay_ms(&cfg, roll), 500);
    }
}

#[test]
fn disabled_pacing_adds_no_delay() {
    let cfg = DelayConfig { min_delay_ms: 500, max_delay_ms: 1000, enabled: false };
    for roll in [0u64, 99, u64::MAX] {
        assert_eq!(delay_ms(&cfg, roll), 0);
    }
}

#[test]
fn enabled_pacing_stays_in_range() {
    let cfg = DelayConfig { min_delay_ms: 500, max_delay_ms: 1000, enabled: true };
    for roll in [0u64, 1, 250, 501, 1234567, u64::MAX] {
        let d = delay_ms(&cfg, roll);
        assert!(500 <= d && d <= 1000, "delay {} out of range", d);
    }
    // The roll walks the whole range
    assert_eq!(delay_ms(&cfg, 0), 500);
    assert_eq!(delay_ms(&cfg, 500), 1000);
    assert_eq!(delay_ms(&cfg, 501), 500);
}

#[test]
fn default_config_is_enabled_with_one_to_three_seconds() {
    let cfg = DelayConfig::default();
    assert_eq!(cfg.min_delay_ms, 1000);
    assert_eq!(cfg.max_delay_ms, 3000);
    assert!(cfg.enabled);
}

#[test]
fn identity_pool_rotates_by_roll() {
    let n = identity_pool_size() as u64;
    assert_eq!(n, 5);
    for i in 0..n {
        // the same residue always gives the same identity
        assert_eq!(pick_identity(i), pick_identity(i + n));
        assert!(pick_identity(i).starts_with("Mozilla/5.0"));
    }
    // the pool holds distinct identities
    for i in 0..n {
        for j in 0..i {
            assert_ne!(pick_identity(i), pick_identity(j));
        }
    }
}

#[test]
fn prepared_call_carries_delay_and_identity() {
    let cfg = DelayConfig { min_delay_ms: 200, max_delay_ms: 200, enabled: true };
    let plan = prepare_call(&cfg, 7, 3);
    assert_eq!(plan.delay_ms, 200);
    assert_eq!(plan.identity, pick_identity(3));
}
