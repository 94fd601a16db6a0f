use tribe_terra::coins::leagueById;
use tribe_terra::gate::TimingGate;

#[test]
fn interval_is_set_once() {
    let mut gate = TimingGate::new();
    assert!(gate.set_interval("a".to_string(), 100));
    assert!(!gate.set_interval("a".to_string(), 999));
    assert_eq!(gate.get_interval("a".to_string(), 150), Some(50));
    assert_eq!(gate.get_interval("missing".to_string(), 150), None);
}

#[test]
fn clearing_closes_the_dungeon() {
    let mut gate = TimingGate::new();
    assert!(gate.set_interval("a".to_string(), 100));
    gate.clear_interval("a".to_string());
    assert_eq!(gate.get_interval("a".to_string(), 200), None);
    // once cleared, the interval can be set again
    assert!(gate.set_interval("a".to_string(), 300));
}

#[test]
fn listing_evicts_expired_fighters() {
    let duration = leagueById(0).duration;
    let mut gate = TimingGate::new();
    gate.set_tier("stale".to_string(), 0);
    assert!(gate.set_interval("stale".to_string(), 100));
    gate.set_tier("fresh".to_string(), 0);
    let now = 100 + duration + 1;
    assert!(gate.set_interval("fresh".to_string(), now - 5));
    gate.set_tier("other_league".to_string(), 1);
    assert!(gate.set_interval("other_league".to_string(), 100));

    let roster = gate.get_fighters(0, now);
    assert_eq!(roster.len(), 1);
    assert_eq!(roster[0], "fresh".to_string());
    // the expired fighter's records were cleared by the listing itself
    assert_eq!(gate.get_interval("stale".to_string(), now), None);
    assert_eq!(gate.tiers.get(&"stale".to_string()), None);
    // the fresh fighter and the other league are untouched
    assert_eq!(gate.tiers.get(&"fresh".to_string()), Some(0));
    assert_eq!(gate.get_interval("other_league".to_string(), now), Some(now - 100));
    assert_eq!(gate.tiers.get(&"other_league".to_string()), Some(1));
}

#[test]
fn fighter_at_exact_duration_is_kept() {
    let duration = leagueById(1).duration;
    let mut gate = TimingGate::new();
    gate.set_tier("edge".to_string(), 1);
    assert!(gate.set_interval("edge".to_string(), 50));
    let roster = gate.get_fighters(1, 50 + duration);
    assert_eq!(roster.len(), 1);
    assert_eq!(roster[0], "edge".to_string());
}

#[test]
fn tier_member_without_interval_is_evicted() {
    let mut gate = TimingGate::new();
    gate.set_tier("tagless".to_string(), 2);
    let roster = gate.get_fighters(2, 1000);
    assert_eq!(roster.len(), 0);
    assert_eq!(gate.tiers.get(&"tagless".to_string()), None);
}
