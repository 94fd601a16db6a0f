//! Characters and progression: point-budget generation of heroes and traps,
//! stat rolls, experience, leveling and stat-point spending.
use vstd::prelude::*;
use crate::seeder::{draw, draw_of, rotate_seed};

verus! {

/// A current/maximum pair for a fillable quantity (health, mana).
#[derive(Default, Clone, Copy, Debug, PartialEq, Eq, Structural)]
pub struct Fillable {
    pub current: u16,
    pub full: u16,
}

/// A current/maximum pair wide enough for experience totals.
#[derive(Default, Clone, Copy, Debug, PartialEq, Eq, Structural)]
pub struct Fillable32 {
    pub current: u32,
    pub full: u32,
}

/// The four character attributes.
#[derive(Default, Clone, Copy, Debug, PartialEq, Eq, Structural)]
pub struct Stats {
    pub vitality: u16,
    pub strength: u16,
    pub agility: u16,
    pub intelligence: u16,
}

/// The closed set of stat names, replacing string-keyed dispatch.
#[derive(Clone, Copy, Debug, PartialEq, Eq, Structural)]
pub enum StatName {
    Vitality,
    Strength,
    Agility,
    Intelligence,
}

/// The asymmetric "power" sum: vitality counts twice and agility not at all.
/// Kept exactly as the progression rules define it.
pub open spec fn stats_sum_spec(s: Stats) -> int {
    s.vitality + s.strength + s.intelligence + s.vitality
}

impl Stats {
    /// Power of a stat block: vitality + strength + intelligence + vitality.
    pub fn sum(&self) -> (r: u16)
        requires
            stats_sum_spec(*self) <= u16::MAX,
        ensures
            r == stats_sum_spec(*self),
    {
        self.vitality + self.strength + self.intelligence + self.vitality
    }
}

/// One exchange between a hero and a trap, as recorded in the battle log.
#[derive(Default, Clone, Copy, Debug, PartialEq, Eq, Structural)]
pub struct SingleBattleResult {
    pub heroID: u64,
    pub trapID: u64,
    pub damageToTrap: u16,
    pub damageToHero: u16,
    pub heroHP: u16,
    pub trapHP: u16,
}

/// The experience ceiling for a level, from the fixed 60-entry level table.
/// Levels below 1 read the first entry and levels above 60 the last.
pub open spec fn level_cap(level: int) -> u32 {
    if level <= 1 {
        500
    } else if level == 2 {
        1400
    } else if level == 3 {
        2900
    } else if level == 4 {
        4900
    } else if level == 5 {
        7600
    } else if level == 6 {
        10900
    } else if level == 7 {
        14900
    } else if level == 8 {
        19700
    } else if level == 9 {
        25300
    } else if level == 10 {
        31700
    } else if level == 11 {
        39100
    } else if level == 12 {
        47500
    } else if level == 13 {
        66500
    } else if level == 14 {
        88500
    } else if level == 15 {
        112500
    } else if level == 16 {
        138500
    } else if level == 17 {
        167500
    } else if level == 18 {
        199500
    } else if level == 19 {
        234500
    } else if level == 20 {
        272500
    } else if level == 21 {
        337500
    } else if level == 22 {
        407500
    } else if level == 23 {
        482500
    } else if level == 24 {
        562500
    } else if level == 25 {
        647500
    } else if level == 26 {
        737500
    } else if level == 27 {
        832500
    } else if level == 28 {
        937500
    } else if level == 29 {
        1047500
    } else if level == 30 {
        1167500
    } else if level == 31 {
        1337500
    } else if level == 32 {
        1517500
    } else if level == 33 {
        1707500
    } else if level == 34 {
        1907500
    } else if level == 35 {
        2117500
    } else if level == 36 {
        2347500
    } else if level == 37 {
        2587500
    } else if level == 38 {
        2837500
    } else if level == 39 {
        3097500
    } else if level == 40 {
        3377500
    } else if level == 41 {
        3737500
    } else if level == 42 {
        4117500
    } else if level == 43 {
        4517500
    } else if level == 44 {
        4937500
    } else if level == 45 {
        5377500
    } else if level == 46 {
        5837500
    } else if level == 47 {
        6317500
    } else if level == 48 {
        6817500
    } else if level == 49 {
        7347500
    } else if level == 50 {
        7897500
    } else if level == 51 {
        8587500
    } else if level == 52 {
        9307500
    } else if level == 53 {
        10057500
    } else if level == 54 {
        10837500
    } else if level == 55 {
        11647500
    } else if level == 56 {
        12487500
    } else if level == 57 {
        13367500
    } else if level == 58 {
        14277500
    } else if level == 59 {
        15227500
    } else {
        16207500
    }
}

/// Executable lookup into the level table.
pub fn levelCap(level: u8) -> (r: u32)
    ensures
        r == level_cap(level as int),
{
    if level <= 1 {
        500
    } else if level == 2 {
        1400
    } else if level == 3 {
        2900
    } else if level == 4 {
        4900
    } else if level == 5 {
        7600
    } else if level == 6 {
        10900
    } else if level == 7 {
        14900
    } else if level == 8 {
        19700
    } else if level == 9 {
        25300
    } else if level == 10 {
        31700
    } else if level == 11 {
        39100
    } else if level == 12 {
        47500
    } else if level == 13 {
        66500
    } else if level == 14 {
        88500
    } else if level == 15 {
        112500
    } else if level == 16 {
        138500
    } else if level == 17 {
        167500
    } else if level == 18 {
        199500
    } else if level == 19 {
        234500
    } else if level == 20 {
        272500
    } else if level == 21 {
        337500
    } else if level == 22 {
        407500
    } else if level == 23 {
        482500
    } else if level == 24 {
        562500
    } else if level == 25 {
        647500
    } else if level == 26 {
        737500
    } else if level == 27 {
        832500
    } else if level == 28 {
        937500
    } else if level == 29 {
        1047500
    } else if level == 30 {
        1167500
    } else if level == 31 {
        1337500
    } else if level == 32 {
        1517500
    } else if level == 33 {
        1707500
    } else if level == 34 {
        1907500
    } else if level == 35 {
        2117500
    } else if level == 36 {
        2347500
    } else if level == 37 {
        2587500
    } else if level == 38 {
        2837500
    } else if level == 39 {
        3097500
    } else if level == 40 {
        3377500
    } else if level == 41 {
        3737500
    } else if level == 42 {
        4117500
    } else if level == 43 {
        4517500
    } else if level == 44 {
        4937500
    } else if level == 45 {
        5377500
    } else if level == 46 {
        5837500
    } else if level == 47 {
        6317500
    } else if level == 48 {
        6817500
    } else if level == 49 {
        7347500
    } else if level == 50 {
        7897500
    } else if level == 51 {
        8587500
    } else if level == 52 {
        9307500
    } else if level == 53 {
        10057500
    } else if level == 54 {
        10837500
    } else if level == 55 {
        11647500
    } else if level == 56 {
        12487500
    } else if level == 57 {
        13367500
    } else if level == 58 {
        14277500
    } else if level == 59 {
        15227500
    } else {
        16207500
    }
}

/// A trap defender: it tests one stat with a dice check and carries a health
/// pool derived from its power surplus over its drawn value.
#[derive(Default, Clone, Copy, Debug, PartialEq, Eq, Structural)]
pub struct Trap {
    pub id: u64,
    pub stat: u16,
    pub checkDice: u16,
    pub power: u16,
    pub value: u16,
    pub health: Fillable,
    pub enabled: bool,
}

impl Trap {
    /// A trap is well formed when its health never exceeds its maximum.
    pub open spec fn wf(self) -> bool {
        self.health.current <= self.health.full
    }

    /// Create a trap: its value is drawn in `[1, value)` and its health is
    /// `(power - drawn) * 63`, which needs `power > drawn` — guaranteed by
    /// `power >= value`.
    pub fn new(power: u16, value: u16, diceVal: u16, stat: u16, id: u64, seed: &[u8; 32],
        seedOffset: usize) -> (t: Trap)
        requires
            2 <= value <= power,
            power <= 1041,
        ensures
            t.wf(),
            (t == Trap {
                id,
                stat,
                checkDice: diceVal,
                power,
                value: draw_of(rotate_seed(seed@, seedOffset as nat), 1, value),
                health: Fillable {
                    current: (((power - draw_of(rotate_seed(seed@, seedOffset as nat), 1, value))
                        * 63) as u16),
                    full: (((power - draw_of(rotate_seed(seed@, seedOffset as nat), 1, value))
                        * 63) as u16),
                },
                enabled: true,
            }),
            1 <= t.value < value,
            t.health.current > 0,
            t.enabled,
    {
        let pow: u16 = draw(1, value, seed, seedOffset);
        let hp: u16 = (power - pow) * 63;
        Trap {
            id,
            stat,
            checkDice: diceVal,
            power,
            value: pow,
            enabled: true,
            health: Fillable { current: hp, full: hp },
        }
    }

    /// Damage floor-clamps health at 0; any nonzero damage disables the trap.
    pub fn takeDamage(&mut self, amount: u16)
        ensures
            final(self).health.current == if old(self).health.current < amount {
                0u16
            } else {
                (old(self).health.current - amount) as u16
            },
            final(self).enabled == if amount > 0 {
                false
            } else {
                old(self).enabled
            },
            final(self).health.full == old(self).health.full,
            final(self).id == old(self).id,
            final(self).stat == old(self).stat,
            final(self).checkDice == old(self).checkDice,
            final(self).power == old(self).power,
            final(self).value == old(self).value,
            old(self).wf() ==> final(self).wf(),
    {
        self.health.current = if self.health.current < amount {
            0
        } else {
            self.health.current - amount
        };
        if amount > 0 {
            self.enabled = false;
        }
    }
}

/// Health floor and ceiling law: under any damage amount and any healing
/// amount, a well-formed hero's health stays between 0 and its maximum —
/// damage floor-clamps at 0, and healing past the maximum resets to 0 rather
/// than exceeding it.
pub proof fn lemma_health_bounds(h: Hero, amount: u16)
    requires
        h.wf(),
    ensures
        0 <= (if h.health.current < amount {
            0int
        } else {
            h.health.current - amount
        }) <= h.health.full,
        0 <= (if h.health.current + amount > h.health.full {
            0int
        } else {
            h.health.current + amount
        }) <= h.health.full,
{
}

/// The largest experience gain a single stat roll can produce:
/// `(roll - value) * 10` with a roll of at most `u16::MAX`.
pub const MAX_ROLL_GAIN: u32 = 655350;

/// The class index picked from the dominant stat, tie-break priority
/// vitality > strength > agility > intelligence with greater-or-equal
/// comparisons, so exact ties resolve to the lowest index.
pub open spec fn class_of(vitality: u16, strength: u16, agility: u16, intelligence: u16) -> u16 {
    if vitality >= strength && vitality >= agility && vitality >= intelligence {
        0
    } else if strength >= agility && strength >= intelligence {
        1
    } else if agility >= intelligence {
        2
    } else {
        3
    }
}

/// Unused stat points after one level-up grant: the ceiling of power / 10 is
/// added, saturating at the field's maximum.
pub open spec fn grant_points(points: u8, power: int) -> u8 {
    if points + (power + 9) / 10 > 255 {
        255u8
    } else {
        (points + (power + 9) / 10) as u8
    }
}

/// Repeated level-up: while the current experience reaches the ceiling and
/// the 60-entry level table is not exhausted, the level rises, points are
/// granted from the base power, and the ceiling is reread from the table.
/// Returns the final (level, unusedPoints, experience ceiling).
pub open spec fn level_up_spec(level: u8, points: u8, cur: u32, full: u32, power: int) -> (
    u8,
    u8,
    u32,
)
    decreases 60 - level,
{
    if cur >= full && level < 60 {
        level_up_spec(
            (level + 1) as u8,
            grant_points(points, power),
            cur,
            level_cap(level + 1),
            power,
        )
    } else {
        (level, points, full)
    }
}

/// A hero: a generated character with base and improved stats, fillable
/// health/mana/experience pools, and a class fixed at creation.
#[derive(Clone, Debug)]
pub struct Hero {
    pub id: u64,
    pub checkDice: u16,
    pub baseStats: Stats,
    pub improvedStats: Stats,
    pub health: Fillable,
    pub mana: Fillable,
    pub experience: Fillable32,
    pub name: String,
    pub race: u8,
    pub class: u8,
    pub level: u8,
    pub kMana: u8,
    pub kHP: u8,
    pub unusedPoints: u8,
}

impl Hero {
    /// Well-formedness: pools never exceed their maxima, the class and level
    /// are in range, and the stat totals leave room for a roll.
    pub open spec fn wf(self) -> bool {
        &&& self.health.current <= self.health.full
        &&& self.mana.current <= self.mana.full
        &&& self.class <= 3
        &&& 1 <= self.level <= 60
        &&& stats_sum_spec(self.baseStats) + stats_sum_spec(self.improvedStats) <= u16::MAX
        &&& self.baseStats.agility + self.improvedStats.agility <= u16::MAX
    }

    /// The base-plus-improved value of the stat a trap tests; an index
    /// outside 0..4 names no stat and contributes nothing.
    pub open spec fn stat_value(self, statIndex: u16) -> int {
        if statIndex == 0 {
            self.baseStats.vitality + self.improvedStats.vitality
        } else if statIndex == 1 {
            self.baseStats.strength + self.improvedStats.strength
        } else if statIndex == 2 {
            self.baseStats.agility + self.improvedStats.agility
        } else if statIndex == 3 {
            self.baseStats.intelligence + self.improvedStats.intelligence
        } else {
            0
        }
    }

    /// A stat roll cannot overflow: the dice allows a draw and the largest
    /// raw draw plus any tested stat still fits the roll's width.
    pub open spec fn roll_safe(self) -> bool {
        &&& 2 <= self.checkDice
        &&& self.checkDice - 1 + self.stat_value(0) <= u16::MAX
        &&& self.checkDice - 1 + self.stat_value(1) <= u16::MAX
        &&& self.checkDice - 1 + self.stat_value(2) <= u16::MAX
        &&& self.checkDice - 1 + self.stat_value(3) <= u16::MAX
    }

    /// Everything a battle exchange leaves untouched: identity, build, mana
    /// and the health maximum.
    pub open spec fn battle_frame(pre: Hero, post: Hero) -> bool {
        &&& post.id == pre.id
        &&& post.checkDice == pre.checkDice
        &&& post.baseStats == pre.baseStats
        &&& post.improvedStats == pre.improvedStats
        &&& post.mana == pre.mana
        &&& post.name == pre.name
        &&& post.race == pre.race
        &&& post.class == pre.class
        &&& post.kMana == pre.kMana
        &&& post.kHP == pre.kHP
        &&& post.health.full == pre.health.full
    }

    /// What one resolved roll does to a hero. With `roll = rawRoll + tested
    /// stat`: an incoming value above the roll deals `value - roll` damage to
    /// the hero (floor-clamped) and returns `(taken, 0)`; otherwise the hero
    /// gains `(roll - value) * 10` experience, levels up as far as the table
    /// allows, and the result is `(0, roll - value)`.
    pub open spec fn roll_transition(
        pre: Hero,
        post: Hero,
        statIndex: u16,
        value: u16,
        rawRoll: u16,
        r: (u16, u16),
    ) -> bool {
        let roll = rawRoll + pre.stat_value(statIndex);
        &&& Hero::battle_frame(pre, post)
        &&& if value > roll {
            &&& r == (((value - roll) as u16, 0u16))
            &&& post.health.current == if pre.health.current < value - roll {
                0
            } else {
                pre.health.current - (value - roll)
            }
            &&& post.experience == pre.experience
            &&& post.level == pre.level
            &&& post.unusedPoints == pre.unusedPoints
        } else {
            &&& r == ((0u16, (roll - value) as u16))
            &&& post.health.current == pre.health.current
            &&& post.experience.current == pre.experience.current + (roll - value) * 10
            &&& (post.level, post.unusedPoints, post.experience.full) == level_up_spec(
                pre.level,
                pre.unusedPoints,
                (pre.experience.current + (roll - value) * 10) as u32,
                pre.experience.full,
                stats_sum_spec(pre.baseStats),
            )
        }
    }

    /// The resolved roll as a function: the hero after the exchange and the
    /// `(damage taken, damage dealt)` pair. This is `roll_transition` in
    /// functional form, so that a whole battle can be written as one spec
    /// value.
    pub open spec fn apply_roll(pre: Hero, statIndex: u16, value: u16, rawRoll: u16) -> (
        Hero,
        (u16, u16),
    ) {
        let roll = rawRoll + pre.stat_value(statIndex);
        if value > roll {
            let dmg = value - roll;
            (
                Hero {
                    health: Fillable {
                        current: (if pre.health.current < dmg {
                            0int
                        } else {
                            pre.health.current - dmg
                        }) as u16,
                        full: pre.health.full,
                    },
                    ..pre
                },
                ((dmg as u16, 0u16)),
            )
        } else {
            let gained = (pre.experience.current + (roll - value) * 10) as u32;
            let up = level_up_spec(
                pre.level,
                pre.unusedPoints,
                gained,
                pre.experience.full,
                stats_sum_spec(pre.baseStats),
            );
            (
                Hero {
                    experience: Fillable32 { current: gained, full: up.2 },
                    level: up.0,
                    unusedPoints: up.1,
                    ..pre
                },
                ((0u16, (roll - value) as u16)),
            )
        }
    }

    /// Generate a hero from a stat-point budget and a minimum-per-stat floor.
    /// Vitality, strength and intelligence are drawn in that order, each
    /// subtracted from the remaining budget before the next draw; agility
    /// absorbs whatever remains and is never drawn. The class is the dominant
    /// stat's index, and health/mana maxima follow from it.
    pub fn new(seedPoints: u16, minStat: u16, diceVal: u16, id: u64, seed: &[u8; 32],
        seedOffset: usize) -> (h: Hero)
        requires
            1 <= minStat,
            3 * minStat + 2 <= seedPoints,
            seedPoints <= 655,
            seedOffset + 2 <= usize::MAX,
        ensures
            h.wf(),
            ({
                let b0 = (seedPoints - 3 * minStat) as u16;
                let vit = draw_of(rotate_seed(seed@, seedOffset as nat), 1, b0);
                let b1 = (b0 + minStat - vit) as u16;
                let str = draw_of(rotate_seed(seed@, (seedOffset + 1) as nat), 1, b1);
                let b2 = (b1 + minStat - str) as u16;
                let intel = draw_of(rotate_seed(seed@, (seedOffset + 2) as nat), 1, b2);
                let agi = (b2 + minStat - intel) as u16;
                let cls = class_of(vit, str, agi, intel);
                &&& 1 <= vit < b0
                &&& 1 <= str < b1
                &&& 1 <= intel < b2
                &&& h.baseStats == (Stats {
                    vitality: vit,
                    strength: str,
                    agility: agi,
                    intelligence: intel,
                })
                &&& h.improvedStats == (Stats {
                    vitality: 0,
                    strength: 0,
                    agility: 0,
                    intelligence: 0,
                })
                &&& h.class == cls as u8
                &&& h.health.full == (vit * 25 * (4 - cls)) as u16
                &&& h.mana.full == (intel * 25 * (cls + 1)) as u16
                &&& h.kHP == (25 * (4 - cls)) as u8
                &&& h.kMana == (25 * (cls + 1)) as u8
                &&& h.race == draw_of(rotate_seed(seed@, seedOffset as nat), 0, 22) as u8
            }),
            h.race < 22,
            h.health.current == h.health.full,
            h.mana.current == h.mana.full,
            h.experience == (Fillable32 { current: 0, full: level_cap(1) }),
            h.id == id,
            h.checkDice == diceVal,
            h.name@ == "Aboba"@,
            h.level == 1,
            h.unusedPoints == 0,
            h.baseStats.vitality < seedPoints,
            h.baseStats.strength < seedPoints,
            h.baseStats.agility < seedPoints,
            h.baseStats.intelligence < seedPoints,
    {
        let mut budget: u16 = seedPoints - minStat * 3;
        let vitality = draw(1, budget, seed, seedOffset);
        budget = budget + minStat - vitality;
        let strength = draw(1, budget, seed, seedOffset + 1);
        budget = budget + minStat - strength;
        let intelligence = draw(1, budget, seed, seedOffset + 2);
        budget = budget + minStat - intelligence;
        let agility = budget;

        let class: u16 = if vitality >= strength && vitality >= agility && vitality
            >= intelligence {
            0
        } else if strength >= agility && strength >= intelligence {
            1
        } else if agility >= intelligence {
            2
        } else {
            3
        };

        let race = draw(0, 22, seed, seedOffset) as u8;
        proof {
            assert(vitality * 25 * (4 - class) <= 65100) by (nonlinear_arith)
                requires
                    vitality <= 651,
                    class <= 3,
            ;
            assert(intelligence * 25 * (class + 1) <= 65100) by (nonlinear_arith)
                requires
                    intelligence <= 651,
                    class <= 3,
            ;
        }
        let fullHP: u16 = vitality * 25 * (4 - class);
        let fullMana: u16 = intelligence * 25 * (class + 1);

        Hero {
            id,
            checkDice: diceVal,
            baseStats: Stats { vitality, strength, agility, intelligence },
            improvedStats: Stats { vitality: 0, strength: 0, agility: 0, intelligence: 0 },
            health: Fillable { current: fullHP, full: fullHP },
            mana: Fillable { current: fullMana, full: fullMana },
            experience: Fillable32 { current: 0, full: levelCap(1) },
            name: "Aboba".to_string(),
            race,
            level: 1,
            class: class as u8,
            kHP: (25 * (4 - class)) as u8,
            kMana: (25 * (class + 1)) as u8,
            unusedPoints: 0,
        }
    }

    /// Power over the base stats only — improved stats never compound
    /// level-up grants.
    pub fn basePower(&mut self) -> (r: u16)
        requires
            old(self).wf(),
        ensures
            *final(self) == *old(self),
            r == stats_sum_spec(old(self).baseStats),
    {
        self.baseStats.sum()
    }

    /// Power over base and improved stats together.
    pub fn totalPower(&mut self) -> (r: u16)
        requires
            old(self).wf(),
        ensures
            *final(self) == *old(self),
            r == stats_sum_spec(old(self).baseStats) + stats_sum_spec(old(self).improvedStats),
    {
        self.baseStats.sum() + self.improvedStats.sum()
    }

    /// Damage floor-clamps the hero's health at 0 and touches nothing else.
    pub fn takeDamage(&mut self, amount: u16)
        ensures
            (*final(self) == Hero {
                health: Fillable {
                    current: (if old(self).health.current < amount {
                        0u16
                    } else {
                        (old(self).health.current - amount) as u16
                    }),
                    full: old(self).health.full,
                },
                ..*old(self)
            }),
            old(self).wf() ==> final(self).wf(),
    {
        self.health.current = if self.health.current < amount {
            0
        } else {
            self.health.current - amount
        };
    }

    /// Healing that would push health past its maximum empties the pool to 0
    /// instead; otherwise it adds the amount. Health never exceeds its
    /// maximum and never goes below 0.
    pub fn recieveHealing(&mut self, amount: u16)
        ensures
            (*final(self) == Hero {
                health: Fillable {
                    current: (if old(self).health.current + amount > old(self).health.full {
                        0u16
                    } else {
                        (old(self).health.current + amount) as u16
                    }),
                    full: old(self).health.full,
                },
                ..*old(self)
            }),
            old(self).wf() ==> final(self).wf(),
    {
        let summed: u32 = self.health.current as u32 + amount as u32;
        self.health.current = if summed > self.health.full as u32 {
            0
        } else {
            summed as u16
        };
    }

    /// Level up while the experience ceiling is reached and the level table
    /// has entries left, granting unused points from the base power.
    pub fn validateExp(&mut self)
        requires
            old(self).wf(),
        ensures
            final(self).wf(),
            ((final(self).level, final(self).unusedPoints, final(self).experience.full)
                == level_up_spec(
                old(self).level,
                old(self).unusedPoints,
                old(self).experience.current,
                old(self).experience.full,
                stats_sum_spec(old(self).baseStats),
            )),
            final(self).experience.current == old(self).experience.current,
            final(self).health == old(self).health,
            final(self).mana == old(self).mana,
            final(self).baseStats == old(self).baseStats,
            final(self).improvedStats == old(self).improvedStats,
            final(self).id == old(self).id,
            final(self).checkDice == old(self).checkDice,
            final(self).name == old(self).name,
            final(self).race == old(self).race,
            final(self).class == old(self).class,
            final(self).kMana == old(self).kMana,
            final(self).kHP == old(self).kHP,
    {
        while self.experience.current >= self.experience.full && self.level < 60
            invariant
                self.wf(),
                self.experience.current == old(self).experience.current,
                self.health == old(self).health,
                self.mana == old(self).mana,
                self.baseStats == old(self).baseStats,
                self.improvedStats == old(self).improvedStats,
                self.id == old(self).id,
                self.checkDice == old(self).checkDice,
                self.name == old(self).name,
                self.race == old(self).race,
                self.class == old(self).class,
                self.kMana == old(self).kMana,
                self.kHP == old(self).kHP,
                level_up_spec(
                    self.level,
                    self.unusedPoints,
                    self.experience.current,
                    self.experience.full,
                    stats_sum_spec(self.baseStats),
                ) == level_up_spec(
                    old(self).level,
                    old(self).unusedPoints,
                    old(self).experience.current,
                    old(self).experience.full,
                    stats_sum_spec(old(self).baseStats),
                ),
            decreases 60 - self.level,
        {
            self.level = self.level + 1;
            let sum: u16 = self.baseStats.sum();
            let grant: u32 = (sum as u32 + 9) / 10;
            let granted: u32 = self.unusedPoints as u32 + grant;
            self.unusedPoints = if granted > 255 {
                255
            } else {
                granted as u8
            };
            self.experience.full = levelCap(self.level);
        }
    }

    /// Whether one more point can be spent on a stat without overflowing the
    /// stat field or the power sums (vitality counts twice there).
    pub open spec fn can_improve(self, stat: StatName) -> bool {
        let total = stats_sum_spec(self.baseStats) + stats_sum_spec(self.improvedStats);
        match stat {
            StatName::Vitality => total + 2 <= u16::MAX,
            StatName::Strength => total + 1 <= u16::MAX,
            StatName::Agility => self.baseStats.agility + self.improvedStats.agility + 1
                <= u16::MAX,
            StatName::Intelligence => total + 1 <= u16::MAX,
        }
    }

    /// Spend one unused point on the named stat. With no unused points, or no
    /// arithmetic room for the increment, the call is a silent no-op and the
    /// hero is left exactly as it was.
    pub fn improveStat(&mut self, stat: StatName)
        ensures
            old(self).unusedPoints == 0 ==> *final(self) == *old(self),
            old(self).unusedPoints > 0 && !old(self).can_improve(stat) ==> *final(self) == *old(
                self,
            ),
            old(self).unusedPoints > 0 && old(self).can_improve(stat) ==> (*final(self) == Hero {
                improvedStats: (match stat {
                    StatName::Vitality => Stats {
                        vitality: (old(self).improvedStats.vitality + 1) as u16,
                        ..old(self).improvedStats
                    },
                    StatName::Strength => Stats {
                        strength: (old(self).improvedStats.strength + 1) as u16,
                        ..old(self).improvedStats
                    },
                    StatName::Agility => Stats {
                        agility: (old(self).improvedStats.agility + 1) as u16,
                        ..old(self).improvedStats
                    },
                    StatName::Intelligence => Stats {
                        intelligence: (old(self).improvedStats.intelligence + 1) as u16,
                        ..old(self).improvedStats
                    },
                }),
                unusedPoints: (old(self).unusedPoints - 1) as u8,
                ..*old(self)
            }),
            old(self).wf() ==> final(self).wf(),
    {
        if self.unusedPoints > 0 {
            let base: u32 = self.baseStats.vitality as u32 + self.baseStats.strength as u32
                + self.baseStats.intelligence as u32 + self.baseStats.vitality as u32;
            let improved: u32 = self.improvedStats.vitality as u32
                + self.improvedStats.strength as u32 + self.improvedStats.intelligence as u32
                + self.improvedStats.vitality as u32;
            let total: u32 = base + improved;
            match stat {
                StatName::Vitality => {
                    if total + 2 <= u16::MAX as u32 {
                        self.improvedStats.vitality = self.improvedStats.vitality + 1;
                        self.unusedPoints = self.unusedPoints - 1;
                    }
                },
                StatName::Strength => {
                    if total + 1 <= u16::MAX as u32 {
                        self.improvedStats.strength = self.improvedStats.strength + 1;
                        self.unusedPoints = self.unusedPoints - 1;
                    }
                },
                StatName::Agility => {
                    let agility: u32 = self.baseStats.agility as u32
                        + self.improvedStats.agility as u32;
                    if agility + 1 <= u16::MAX as u32 {
                        self.improvedStats.agility = self.improvedStats.agility + 1;
                        self.unusedPoints = self.unusedPoints - 1;
                    }
                },
                StatName::Intelligence => {
                    if total + 1 <= u16::MAX as u32 {
                        self.improvedStats.intelligence = self.improvedStats.intelligence + 1;
                        self.unusedPoints = self.unusedPoints - 1;
                    }
                },
            }
        }
    }

    /// The deterministic part of a stat roll, applied to a raw draw already
    /// in hand: add the tested stat, then either take damage or gain
    /// experience and level up. Returns `(damage taken, damage dealt)`.
    pub fn resolveRoll(&mut self, statIndex: u16, value: u16, rawRoll: u16) -> (r: (u16, u16))
        requires
            old(self).wf(),
            old(self).roll_safe(),
            rawRoll < old(self).checkDice,
            old(self).experience.current + MAX_ROLL_GAIN <= u32::MAX,
        ensures
            final(self).wf(),
            Hero::roll_transition(*old(self), *final(self), statIndex, value, rawRoll, r),
            ((*final(self), r)) == Hero::apply_roll(*old(self), statIndex, value, rawRoll),
    {
        let mut roll: u16 = rawRoll;
        if statIndex == 0 {
            roll = roll + (self.baseStats.vitality + self.improvedStats.vitality);
        } else if statIndex == 1 {
            roll = roll + (self.baseStats.strength + self.improvedStats.strength);
        } else if statIndex == 2 {
            roll = roll + (self.baseStats.agility + self.improvedStats.agility);
        } else if statIndex == 3 {
            roll = roll + (self.baseStats.intelligence + self.improvedStats.intelligence);
        }
        if value > roll {
            let taken = value - roll;
            self.takeDamage(taken);
            (taken, 0)
        } else {
            let gain: u32 = (roll - value) as u32 * 10;
            self.experience.current = self.experience.current + gain;
            self.validateExp();
            (0, roll - value)
        }
    }

    /// Roll the check dice against an incoming value for the stat named by
    /// `statIndex`, then resolve the outcome. The raw draw is a pure function
    /// of the seed and offset, so the whole exchange is replayable.
    pub fn rollStatAgainst(&mut self, statIndex: u16, value: u16, seed: &[u8; 32],
        seedOffset: usize) -> (r: (u16, u16))
        requires
            old(self).wf(),
            old(self).roll_safe(),
            old(self).experience.current + MAX_ROLL_GAIN <= u32::MAX,
        ensures
            final(self).wf(),
            1 <= draw_of(rotate_seed(seed@, seedOffset as nat), 1, old(self).checkDice) < old(
                self,
            ).checkDice,
            Hero::roll_transition(
                *old(self),
                *final(self),
                statIndex,
                value,
                draw_of(rotate_seed(seed@, seedOffset as nat), 1, old(self).checkDice),
                r,
            ),
            ((*final(self), r)) == Hero::apply_roll(
                *old(self),
                statIndex,
                value,
                draw_of(rotate_seed(seed@, seedOffset as nat), 1, old(self).checkDice),
            ),
    {
        let rawRoll = draw(1, self.checkDice, seed, seedOffset);
        self.resolveRoll(statIndex, value, rawRoll)
    }
}

} // verus!
