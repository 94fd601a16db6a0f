use tribe_terra::game::{levelCap, Fillable, Fillable32, Hero, StatName, Stats, Trap};

fn test_seed() -> [u8; 32] {
    let mut seed = [0u8; 32];
    let mut i: usize = 0;
    while i < 32 {
        seed[i] = (i as u8).wrapping_mul(31).wrapping_add(5);
        i += 1;
    }
    seed
}

fn sample_hero() -> Hero {
    Hero {
        id: 1,
        checkDice: 6,
        baseStats: Stats { vitality: 10, strength: 4, agility: 3, intelligence: 2 },
        improvedStats: Stats { vitality: 0, strength: 0, agility: 0, intelligence: 0 },
        health: Fillable { current: 1000, full: 1000 },
        mana: Fillable { current: 50, full: 50 },
        experience: Fillable32 { current: 0, full: 500 },
        name: "Aboba".to_string(),
        race: 0,
        class: 0,
        level: 1,
        kMana: 25,
        kHP: 100,
        unusedPoints: 0,
    }
}

fn heroes_equal(a: &Hero, b: &Hero) -> bool {
    a.id == b.id && a.checkDice == b.checkDice && a.baseStats == b.baseStats
        && a.improvedStats == b.improvedStats && a.health == b.health && a.mana == b.mana
        && a.experience == b.experience && a.name == b.name && a.race == b.race
        && a.class == b.class && a.level == b.level && a.kMana == b.kMana && a.kHP == b.kHP
        && a.unusedPoints == b.unusedPoints
}

#[test]
fn stats_sum_counts_vitality_twice_and_skips_agility() {
    let s = Stats { vitality: 10, strength: 4, agility: 100, intelligence: 2 };
    assert_eq!(s.sum(), 26);
}

#[test]
fn level_table_endpoints() {
    assert_eq!(levelCap(1), 500);
    assert_eq!(levelCap(2), 1400);
    assert_eq!(levelCap(13), 66500);
    assert_eq!(levelCap(60), 16207500);
}

#[test]
fn battle_scenario_roll_and_trap_damage() {
    // checkDice 6, vitality 10, incoming value 5, raw draw 4:
    // roll = 4 + 10 = 14 >= 5, so the hero deals 9 and gains 90 experience
    let mut hero = sample_hero();
    let (taken, given) = hero.resolveRoll(0, 5, 4);
    assert_eq!(taken, 0);
    assert_eq!(given, 9);
    assert_eq!(hero.experience.current, 90);
    assert_eq!(hero.health.current, 1000);

    let mut trap = Trap {
        id: 7,
        stat: 0,
        checkDice: 6,
        power: 10,
        value: 5,
        health: Fillable { current: 20, full: 20 },
        enabled: true,
    };
    trap.takeDamage(given);
    assert_eq!(trap.health.current, 11);
    assert!(!trap.enabled);
}

#[test]
fn losing_roll_damages_hero() {
    let mut hero = sample_hero();
    // stat index 5 names no stat: roll = 2 < 30 so the hero takes 28
    let (taken, given) = hero.resolveRoll(5, 30, 2);
    assert_eq!(taken, 28);
    assert_eq!(given, 0);
    assert_eq!(hero.health.current, 972);
    assert_eq!(hero.experience.current, 0);
}

#[test]
fn hero_damage_floors_at_zero() {
    let mut hero = sample_hero();
    hero.takeDamage(500);
    assert_eq!(hero.health.current, 500);
    hero.takeDamage(65535);
    assert_eq!(hero.health.current, 0);
    hero.takeDamage(1);
    assert_eq!(hero.health.current, 0);
}

#[test]
fn healing_never_exceeds_maximum() {
    let mut hero = sample_hero();
    hero.takeDamage(300);
    hero.recieveHealing(100);
    assert_eq!(hero.health.current, 800);
    // healing past the maximum resets the pool to 0 instead of exceeding it
    hero.recieveHealing(201);
    assert_eq!(hero.health.current, 0);
    hero.recieveHealing(1000);
    assert_eq!(hero.health.current, 1000);
    assert!(hero.health.current <= hero.health.full);
}

#[test]
fn improve_stat_with_zero_points_is_a_no_op() {
    let mut hero = sample_hero();
    let before = hero.clone();
    hero.improveStat(StatName::Vitality);
    assert!(heroes_equal(&hero, &before));
    hero.improveStat(StatName::Agility);
    assert!(heroes_equal(&hero, &before));
}

#[test]
fn improve_stat_spends_points() {
    let mut hero = sample_hero();
    hero.unusedPoints = 2;
    hero.improveStat(StatName::Vitality);
    assert_eq!(hero.improvedStats.vitality, 1);
    assert_eq!(hero.unusedPoints, 1);
    hero.improveStat(StatName::Intelligence);
    assert_eq!(hero.improvedStats.intelligence, 1);
    assert_eq!(hero.unusedPoints, 0);
    assert_eq!(hero.totalPower(), 26 + 3);
    assert_eq!(hero.basePower(), 26);
}

#[test]
fn level_up_grants_ceiling_of_base_power_tenth() {
    let mut hero = sample_hero();
    // base power 26, so each level grants ceil(26 / 10) = 3 points
    hero.experience.current = 500;
    hero.validateExp();
    assert_eq!(hero.level, 2);
    assert_eq!(hero.experience.full, 1400);
    assert_eq!(hero.unusedPoints, 3);
}

#[test]
fn level_up_chains_through_the_table() {
    let mut hero = sample_hero();
    hero.experience.current = 3000;
    hero.validateExp();
    // 3000 passes 500, 1400 and 2900 but not 4900
    assert_eq!(hero.level, 4);
    assert_eq!(hero.experience.full, 4900);
    assert_eq!(hero.unusedPoints, 9);
    assert_eq!(hero.experience.current, 3000);
}

#[test]
fn level_up_stops_at_the_table_end() {
    let mut hero = sample_hero();
    hero.experience.current = 20_000_000;
    hero.validateExp();
    assert_eq!(hero.level, 60);
    assert_eq!(hero.experience.full, 16_207_500);
    assert_eq!(hero.experience.current, 20_000_000);
    // 59 level-ups at 3 points each
    assert_eq!(hero.unusedPoints, 177);
    // a later check changes nothing further
    hero.validateExp();
    assert_eq!(hero.level, 60);
    assert_eq!(hero.unusedPoints, 177);
}

#[test]
fn winning_roll_levels_up() {
    let mut hero = sample_hero();
    hero.experience.current = 440;
    // roll = 4 + 10 = 14, gain = (14 - 8) * 10 = 60, total 500
    let (taken, given) = hero.resolveRoll(0, 8, 4);
    assert_eq!((taken, given), (0, 6));
    assert_eq!(hero.experience.current, 500);
    assert_eq!(hero.level, 2);
    assert_eq!(hero.experience.full, 1400);
}

#[test]
fn generated_hero_splits_the_whole_budget() {
    let seed = test_seed();
    let hero = Hero::new(100, 5, 20, 42, &seed, 9);
    let b = hero.baseStats;
    assert_eq!(
        b.vitality as u32 + b.strength as u32 + b.agility as u32 + b.intelligence as u32,
        100
    );
    assert!(hero.race < 22);
    assert_eq!(hero.id, 42);
    assert_eq!(hero.checkDice, 20);
    assert_eq!(hero.level, 1);
    assert_eq!(hero.unusedPoints, 0);
    assert_eq!(hero.experience.current, 0);
    assert_eq!(hero.experience.full, 500);
    assert_eq!(hero.health.current, hero.health.full);
    assert_eq!(hero.mana.current, hero.mana.full);
}

#[test]
fn generated_hero_class_follows_dominant_stat() {
    let seed = test_seed();
    for off in 0..12usize {
        let hero = Hero::new(120, 4, 10, off as u64, &seed, off * 3);
        let b = hero.baseStats;
        let expected = if b.vitality >= b.strength && b.vitality >= b.agility
            && b.vitality >= b.intelligence
        {
            0
        } else if b.strength >= b.agility && b.strength >= b.intelligence {
            1
        } else if b.agility >= b.intelligence {
            2
        } else {
            3
        };
        assert_eq!(hero.class, expected);
        let hp = b.vitality as u32 * 25 * (4 - hero.class as u32);
        let mana = b.intelligence as u32 * 25 * (hero.class as u32 + 1);
        assert_eq!(hero.health.full as u32, hp);
        assert_eq!(hero.mana.full as u32, mana);
    }
}

#[test]
fn generated_hero_is_reproducible() {
    let seed = test_seed();
    let a = Hero::new(200, 3, 12, 1, &seed, 4);
    let b = Hero::new(200, 3, 12, 1, &seed, 4);
    assert!(heroes_equal(&a, &b));
}

#[test]
fn generated_trap_health_comes_from_power_surplus() {
    let seed = test_seed();
    let trap = Trap::new(30, 10, 6, 2, 5, &seed, 11);
    assert!(trap.value >= 1 && trap.value < 10);
    assert_eq!(trap.health.full, (30 - trap.value) * 63);
    assert_eq!(trap.health.current, trap.health.full);
    assert!(trap.enabled);
    assert_eq!(trap.id, 5);
    assert_eq!(trap.stat, 2);
    assert_eq!(trap.checkDice, 6);
    assert_eq!(trap.power, 30);
}

#[test]
fn roll_against_is_reproducible() {
    let seed = test_seed();
    let mut a = sample_hero();
    let mut b = sample_hero();
    let ra = a.rollStatAgainst(0, 9, &seed, 21);
    let rb = b.rollStatAgainst(0, 9, &seed, 21);
    assert_eq!(ra, rb);
    assert!(heroes_equal(&a, &b));
}
