use tribe_terra::coins::{leagueById, Coins};

fn funded() -> Coins {
    let mut coins = Coins::new(10_000, 5_000);
    assert_eq!(coins.transfer_gold_from_system("alice".to_string(), 1_000), 1_000);
    assert_eq!(coins.transfer_gold_from_system("bob".to_string(), 500), 500);
    coins
}

#[test]
fn league_catalog_values() {
    let l0 = leagueById(0);
    assert_eq!(l0.duration, 30 * 60000 * 1000000);
    assert_eq!(l0.stash, 100);
    let l1 = leagueById(1);
    assert_eq!(l1.id, 1);
    assert_eq!(l1.stash, 1000);
    let l2 = leagueById(2);
    assert_eq!(l2.duration, 90 * 60000 * 1000000);
    assert_eq!(l2.stash, 10000);
}

#[test]
fn peer_transfer_conserves_gold() {
    let mut coins = funded();
    let moved = coins.transfer_gold_to("alice".to_string(), "bob".to_string(), 300);
    assert_eq!(moved, 300);
    assert_eq!(coins.get_user_gold("alice".to_string()), Some(700));
    assert_eq!(coins.get_user_gold("bob".to_string()), Some(800));
}

#[test]
fn peer_transfer_over_balance_moves_nothing() {
    let mut coins = funded();
    let moved = coins.transfer_gold_to("alice".to_string(), "bob".to_string(), 1_001);
    assert_eq!(moved, 0);
    assert_eq!(coins.get_user_gold("alice".to_string()), Some(1_000));
    assert_eq!(coins.get_user_gold("bob".to_string()), Some(500));
}

#[test]
fn peer_transfer_to_self_is_rejected() {
    let mut coins = funded();
    let moved = coins.transfer_gold_to("alice".to_string(), "alice".to_string(), 10);
    assert_eq!(moved, 0);
    assert_eq!(coins.get_user_gold("alice".to_string()), Some(1_000));
}

#[test]
fn dungeon_transfer_reads_absent_accounts_as_zero() {
    let mut coins = Coins::new(0, 0);
    assert_eq!(
        coins.transfer_dungeon_gold_from_to("ghost".to_string(), "other".to_string(), 5),
        0
    );
    assert_eq!(coins.get_user_dungeon_gold("ghost".to_string()), None);
    // a zero transfer between distinct parties succeeds and creates entries
    assert_eq!(
        coins.transfer_dungeon_gold_from_to("ghost".to_string(), "other".to_string(), 0),
        0
    );
    assert_eq!(coins.get_user_dungeon_gold("ghost".to_string()), Some(0));
}

#[test]
fn system_withdrawal_prefers_the_primary_reserve() {
    let mut coins = Coins::new(50, 100);
    // the primary covers 40 alone, so only it drains
    assert_eq!(coins.transfer_gold_from_system("alice".to_string(), 40), 40);
    assert_eq!(coins.systemGold, 10);
    assert_eq!(coins.systemInitialGold, 100);
    assert_eq!(coins.get_user_gold("alice".to_string()), Some(40));
}

#[test]
fn system_withdrawal_falls_back_to_the_secondary_reserve() {
    let mut coins = Coins::new(50, 100);
    // 80 exceeds the primary but the secondary covers it alone
    assert_eq!(coins.transfer_gold_from_system("alice".to_string(), 80), 80);
    assert_eq!(coins.systemGold, 50);
    assert_eq!(coins.systemInitialGold, 20);
}

#[test]
fn system_withdrawal_never_combines_reserves() {
    let mut coins = Coins::new(50, 100);
    // 120 exceeds each single reserve, so it fails although their sum covers it
    assert_eq!(coins.transfer_gold_from_system("alice".to_string(), 120), 0);
    assert_eq!(coins.systemGold, 50);
    assert_eq!(coins.systemInitialGold, 100);
    assert_eq!(coins.get_user_gold("alice".to_string()), None);
}

#[test]
fn deposit_requires_a_sufficient_balance() {
    let mut coins = funded();
    assert_eq!(coins.transfer_gold_to_system("alice".to_string(), 400), 400);
    assert_eq!(coins.get_user_gold("alice".to_string()), Some(600));
    assert_eq!(coins.systemGold, 10_000 - 1_500 + 400);
    assert_eq!(coins.transfer_gold_to_system("alice".to_string(), 601), 0);
    assert_eq!(coins.get_user_gold("alice".to_string()), Some(600));
}

#[test]
fn stash_fill_and_empty_round_trip() {
    let mut coins = funded();
    assert_eq!(coins.fill_dungeon_stash("alice".to_string(), 400), 400);
    assert_eq!(coins.get_user_gold("alice".to_string()), Some(600));
    assert_eq!(coins.get_user_dungeon_gold("alice".to_string()), Some(400));
    // over-filling is rejected whole
    assert_eq!(coins.fill_dungeon_stash("alice".to_string(), 601), 0);
    assert_eq!(coins.get_user_dungeon_gold("alice".to_string()), Some(400));
    // emptying moves the whole stash back and zeroes it
    assert_eq!(coins.empty_dungeon_stash("alice".to_string()), 400);
    assert_eq!(coins.get_user_gold("alice".to_string()), Some(1_000));
    assert_eq!(coins.get_user_dungeon_gold("alice".to_string()), Some(0));
    assert_eq!(coins.empty_dungeon_stash("alice".to_string()), 0);
}

#[test]
fn dungeon_peer_transfer_conserves_the_pool() {
    let mut coins = funded();
    assert_eq!(coins.fill_dungeon_stash("alice".to_string(), 1_000), 1_000);
    assert_eq!(
        coins.transfer_dungeon_gold_from_to("alice".to_string(), "bob".to_string(), 250),
        250
    );
    let a = coins.get_user_dungeon_gold("alice".to_string()).unwrap_or(0);
    let b = coins.get_user_dungeon_gold("bob".to_string()).unwrap_or(0);
    assert_eq!(a, 750);
    assert_eq!(b, 250);
    assert_eq!(a + b, 1_000);
}
