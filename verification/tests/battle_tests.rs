use tribe_terra::battle::{battle, computeReward};
use tribe_terra::coins::Coins;
use tribe_terra::game::{Hero, Trap};

fn test_seed() -> [u8; 32] {
    let mut seed = [0u8; 32];
    let mut i: usize = 0;
    while i < 32 {
        seed[i] = (i as u8).wrapping_mul(11).wrapping_add(3);
        i += 1;
    }
    seed
}

#[test]
fn reward_scenario_defender_stake_1000() {
    // defender stake 1000, 0 dead heroes, 1 dead trap:
    // 1000 * (100 + (3 - 0) + 1) / 1000 = 104 whole gold
    let reward = computeReward(1000, 0, 1);
    assert_eq!(reward, 104);

    // stake the defender's pool and settle the reward through the ledger
    let mut funded = Coins::new(2_000, 0);
    assert_eq!(funded.transfer_gold_from_system("defender".to_string(), 1_000), 1_000);
    assert_eq!(funded.fill_dungeon_stash("defender".to_string(), 1_000), 1_000);
    let moved = funded.transfer_dungeon_gold_from_to(
        "defender".to_string(),
        "attacker".to_string(),
        reward,
    );
    assert_eq!(moved, 104);
    assert_eq!(funded.get_user_dungeon_gold("defender".to_string()), Some(896));
    assert_eq!(funded.get_user_dungeon_gold("attacker".to_string()), Some(104));
}

#[test]
fn reward_formula_edges() {
    assert_eq!(computeReward(1000, 3, 0), 100);
    assert_eq!(computeReward(1000, 0, 3), 106);
    assert_eq!(computeReward(0, 0, 0), 0);
    // rounding is downward
    assert_eq!(computeReward(999, 0, 0), 102);
    assert!(computeReward(u64::MAX, 0, 3) <= u64::MAX);
}

#[test]
fn battle_pays_the_reward_and_conserves_the_pool() {
    let seed = test_seed();
    let mut h1 = Hero::new(100, 5, 20, 1, &seed, 0);
    let mut h2 = Hero::new(100, 5, 20, 2, &seed, 3);
    let mut h3 = Hero::new(100, 5, 20, 3, &seed, 6);
    let mut traps = vec![
        Trap::new(20, 10, 6, 0, 101, &seed, 40),
        Trap::new(20, 10, 6, 1, 102, &seed, 41),
        Trap::new(20, 10, 6, 2, 103, &seed, 42),
    ];
    let trap_ids = [traps[0].id, traps[1].id, traps[2].id];
    let initial_trap_hp = [
        traps[0].health.current,
        traps[1].health.current,
        traps[2].health.current,
    ];

    let mut coins = Coins::new(5_000, 0);
    assert_eq!(coins.transfer_gold_from_system("defender".to_string(), 1_000), 1_000);
    assert_eq!(coins.fill_dungeon_stash("defender".to_string(), 1_000), 1_000);

    let attacker = "attacker".to_string();
    let defender = "defender".to_string();
    let log = battle(
        &mut h1, &mut h2, &mut h3, &mut traps, &mut coins, &attacker, &defender, &seed, 100,
    );

    // the dungeon pool total is conserved whatever happened
    let d_stash = coins.get_user_dungeon_gold("defender".to_string()).unwrap_or(0);
    let a_stash = coins.get_user_dungeon_gold("attacker".to_string()).unwrap_or(0);
    assert_eq!(d_stash + a_stash, 1_000);
    assert_eq!(a_stash, log.rewardGold);

    // if a reward was paid it matches the formula over the observable outcome
    let dead_heroes = [&h1, &h2, &h3]
        .iter()
        .filter(|h| h.health.current == 0)
        .count() as u16;
    let dead_traps = traps
        .iter()
        .enumerate()
        .filter(|(i, t)| initial_trap_hp[*i] > 0 && t.health.current == 0)
        .count() as u16;
    if log.rewardGold > 0 {
        assert!(dead_heroes < 3);
        assert_eq!(log.rewardGold, computeReward(1_000, dead_heroes, dead_traps));
    }

    // a live party against a live first trap must produce an exchange
    assert!(!log.firstTrap.is_empty());
    // log entries route to the bucket of their trap slot
    for e in &log.firstTrap {
        assert_eq!(e.trapID, trap_ids[0]);
    }
    for e in &log.secondTrap {
        assert_eq!(e.trapID, trap_ids[1]);
    }
    for e in &log.thirdTrap {
        assert_eq!(e.trapID, trap_ids[2]);
    }

    // health pools never exceed their maxima
    for h in [&h1, &h2, &h3] {
        assert!(h.health.current <= h.health.full);
    }
    for t in &traps {
        assert!(t.health.current <= t.health.full);
    }
}

#[test]
fn battle_is_reproducible() {
    let seed = test_seed();
    let build = || {
        (
            Hero::new(90, 4, 12, 1, &seed, 0),
            Hero::new(90, 4, 12, 2, &seed, 3),
            Hero::new(90, 4, 12, 3, &seed, 6),
            vec![Trap::new(15, 8, 6, 0, 11, &seed, 50), Trap::new(15, 8, 6, 3, 12, &seed, 51)],
        )
    };
    let run = || {
        let (mut h1, mut h2, mut h3, mut traps) = build();
        let mut coins = Coins::new(1_000, 0);
        assert_eq!(coins.transfer_gold_from_system("d".to_string(), 500), 500);
        assert_eq!(coins.fill_dungeon_stash("d".to_string(), 500), 500);
        let log = battle(
            &mut h1,
            &mut h2,
            &mut h3,
            &mut traps,
            &mut coins,
            &"a".to_string(),
            &"d".to_string(),
            &seed,
            7,
        );
        (
            log.rewardGold,
            log.firstTrap.len(),
            log.secondTrap.len(),
            h1.health.current,
            h2.health.current,
            h3.health.current,
            traps[0].health.current,
            traps[1].health.current,
        )
    };
    assert_eq!(run(), run());
}

#[test]
fn battle_of_dead_party_aborts_without_reward() {
    let seed = test_seed();
    let mut h1 = Hero::new(100, 5, 20, 1, &seed, 0);
    let mut h2 = Hero::new(100, 5, 20, 2, &seed, 3);
    let mut h3 = Hero::new(100, 5, 20, 3, &seed, 6);
    h1.takeDamage(u16::MAX);
    h2.takeDamage(u16::MAX);
    h3.takeDamage(u16::MAX);
    let mut traps = vec![Trap::new(20, 10, 6, 0, 1, &seed, 9)];
    let mut coins = Coins::new(2_000, 0);
    assert_eq!(coins.transfer_gold_from_system("d".to_string(), 800), 800);
    assert_eq!(coins.fill_dungeon_stash("d".to_string(), 800), 800);

    let log = battle(
        &mut h1,
        &mut h2,
        &mut h3,
        &mut traps,
        &mut coins,
        &"a".to_string(),
        &"d".to_string(),
        &seed,
        0,
    );
    assert_eq!(log.rewardGold, 0);
    assert_eq!(coins.get_user_dungeon_gold("d".to_string()), Some(800));
    assert_eq!(coins.get_user_dungeon_gold("a".to_string()), None);
    // the abort forced the current trap's enabled flag back on
    assert!(traps[0].enabled);
    assert_eq!(traps[0].health.current, traps[0].health.full);
}
