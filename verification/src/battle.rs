//! The dungeon battle resolver: a fixed 3-hero party faces up to 3 traps in
//! order, exchanges are resolved through the progression roll, and a won
//! battle pays a reward from the defender's dungeon stash to the attacker's.
use vstd::prelude::*;
use crate::game::{Fillable, Hero, Trap, SingleBattleResult, MAX_ROLL_GAIN};
use crate::coins::{Coins, peer_transfer, bal};
use crate::seeder::{draw_of, rotate_seed};

verus! {

/// The record of one battle: one log bucket per trap slot, and the gold that
/// was actually moved as a reward.
pub struct BattleLog {
    pub firstTrap: Vec<SingleBattleResult>,
    pub secondTrap: Vec<SingleBattleResult>,
    pub thirdTrap: Vec<SingleBattleResult>,
    pub rewardGold: u64,
}

/// The reward for a won battle, in whole gold units: a tenth of the
/// defender's stake, scaled by one percent per surviving-hero slot and per
/// dead trap, rounded down.
pub open spec fn reward_spec(stake: int, deadHeroes: int, deadTraps: int) -> int {
    stake * (100 + (3 - deadHeroes) + deadTraps) / 1000
}

/// How many of the three party members are down.
pub open spec fn dead_count(h1: Hero, h2: Hero, h3: Hero) -> int {
    (if h1.health.current == 0 {
        1int
    } else {
        0int
    }) + (if h2.health.current == 0 {
        1int
    } else {
        0int
    }) + (if h3.health.current == 0 {
        1int
    } else {
        0int
    })
}

/// How many traps died between two states: entered with health and left
/// without.
pub open spec fn dead_trap_delta(pre: Seq<Trap>, post: Seq<Trap>) -> int
    decreases pre.len(),
{
    if pre.len() == 0 || post.len() != pre.len() {
        0
    } else {
        dead_trap_delta(pre.drop_last(), post.drop_last()) + (
        if pre.last().health.current > 0 && post.last().health.current == 0 {
            1int
        } else {
            0int
        })
    }
}

/// Changing one slot of the post state shifts the count by that slot's
/// contribution alone.
proof fn lemma_dead_trap_delta_update(pre: Seq<Trap>, post: Seq<Trap>, j: int, t: Trap)
    requires
        pre.len() == post.len(),
        0 <= j < post.len(),
    ensures
        dead_trap_delta(pre, post.update(j, t)) == dead_trap_delta(pre, post) - (
        if pre[j].health.current > 0 && post[j].health.current == 0 {
            1int
        } else {
            0int
        }) + (
        if pre[j].health.current > 0 && t.health.current == 0 {
            1int
        } else {
            0int
        }),
    decreases pre.len(),
{
    let updated = post.update(j, t);
    assert(updated.len() == post.len());
    if j == pre.len() - 1 {
        assert(updated.drop_last() =~= post.drop_last());
        assert(updated.last() == t);
        assert(post.last() == post[j]);
    } else {
        assert(updated.drop_last() =~= post.drop_last().update(j, t));
        assert(updated.last() == post.last());
        lemma_dead_trap_delta_update(pre.drop_last(), post.drop_last(), j, t);
        assert(pre.drop_last()[j] == pre[j]);
        assert(post.drop_last()[j] == post[j]);
    }
}

/// Two equal-length states with identical health everywhere count zero.
proof fn lemma_dead_trap_delta_same(pre: Seq<Trap>, post: Seq<Trap>)
    requires
        pre.len() == post.len(),
        forall|j: int|
            0 <= j < pre.len() ==> (#[trigger] post[j]).health.current == pre[j].health.current,
    ensures
        dead_trap_delta(pre, post) == 0,
    decreases pre.len(),
{
    if pre.len() > 0 {
        assert forall|j: int| 0 <= j < pre.len() - 1 implies (#[trigger] post.drop_last()[j])
            .health.current == pre.drop_last()[j].health.current by {
            assert(post[j].health.current == pre[j].health.current);
        }
        lemma_dead_trap_delta_same(pre.drop_last(), post.drop_last());
        assert(post.last() == post[pre.len() - 1]);
        assert(pre.last() == pre[pre.len() - 1]);
    }
}

/// Count the party's dead members.
fn deadHeroes(h1: &Hero, h2: &Hero, h3: &Hero) -> (r: u16)
    ensures
        r == dead_count(*h1, *h2, *h3),
{
    let mut r: u16 = 0;
    if h1.health.current == 0 {
        r += 1;
    }
    if h2.health.current == 0 {
        r += 1;
    }
    if h3.health.current == 0 {
        r += 1;
    }
    r
}

/// Force a trap's enabled flag back on, as every slot exit and abort does.
fn forceEnable(t: &mut Trap)
    ensures
        (*final(t) == Trap { enabled: true, ..*old(t) }),
{
    t.enabled = true;
}

/// The reward owed for a battle outcome; it never exceeds the stake.
pub fn computeReward(stake: u64, deadHeroes: u16, deadTraps: u16) -> (r: u64)
    requires
        deadHeroes <= 3,
        deadTraps <= 3,
    ensures
        r == reward_spec(stake as int, deadHeroes as int, deadTraps as int),
        r <= stake,
{
    let per: u64 = 100 + (3 - deadHeroes as u64) + deadTraps as u64;
    proof {
        assert(stake as int * per as int <= 0xffff_ffff_ffff_ffff * 106) by (nonlinear_arith)
            requires
                0 <= stake <= 0xffff_ffff_ffff_ffff,
                0 <= per <= 106,
        ;
    }
    let wide: u128 = stake as u128 * per as u128 / 1000;
    proof {
        assert(stake as int * per as int <= stake as int * 1000) by (nonlinear_arith)
            requires
                per <= 106,
                stake >= 0,
        ;
        assert(stake as int * per as int / 1000 <= stake as int * 1000 / 1000) by {
            vstd::arithmetic::div_mod::lemma_div_is_ordered(
                stake as int * per as int,
                stake as int * 1000,
                1000,
            );
        }
        assert(stake as int * 1000 / 1000 == stake as int) by (nonlinear_arith);
    }
    wide as u64
}

/// What a battle never changes about a trap: its identity and build, and
/// its health maximum; health itself can only fall.
pub open spec fn trap_battle_frame(pre: Trap, post: Trap) -> bool {
    &&& post.id == pre.id
    &&& post.stat == pre.stat
    &&& post.checkDice == pre.checkDice
    &&& post.power == pre.power
    &&& post.value == pre.value
    &&& post.health.full == pre.health.full
    &&& post.health.current <= pre.health.current
}

/// A hit tally contribution.
pub open spec fn tally(b: bool) -> int {
    if b {
        1int
    } else {
        0int
    }
}

/// Append a log entry if the exchange produced one.
pub open spec fn push_opt(s: Seq<SingleBattleResult>, e: Option<SingleBattleResult>) -> Seq<
    SingleBattleResult,
> {
    match e {
        Option::Some(x) => s.push(x),
        Option::None => s,
    }
}

/// One hero/trap exchange as a function of the pre-states and the draw: the
/// hero and trap afterwards, the hit tally, and the log entry if any.
#[verifier::opaque]
pub open spec fn encounter_spec(hero: Hero, trap: Trap, seed: Seq<u8>, off: nat) -> (
    Hero,
    Trap,
    bool,
    Option<SingleBattleResult>,
) {
    if !trap.enabled || trap.health.current == 0 || hero.health.current == 0 {
        (hero, trap, hero.health.current == 0, None::<SingleBattleResult>)
    } else {
        let raw = draw_of(rotate_seed(seed, off), 1, hero.checkDice);
        let rolled = Hero::apply_roll(hero, trap.stat, trap.value, raw);
        let taken = rolled.1.0;
        let given = rolled.1.1;
        let hurt = Trap {
            health: Fillable {
                current: (if trap.health.current < given {
                    0int
                } else {
                    trap.health.current - given
                }) as u16,
                full: trap.health.full,
            },
            enabled: (if given > 0 {
                false
            } else {
                trap.enabled
            }),
            ..trap
        };
        (
            rolled.0,
            hurt,
            taken > 0,
            Some(
                SingleBattleResult {
                    heroID: hero.id,
                    trapID: trap.id,
                    damageToTrap: given,
                    damageToHero: taken,
                    heroHP: rolled.0.health.current,
                    trapHP: hurt.health.current,
                },
            ),
        )
    }
}

/// One full pass of the three-hero party against one trap: the party and the
/// trap afterwards, the pass's hit tally, and its log entries in order.
#[verifier::opaque]
pub open spec fn pass_spec(h1: Hero, h2: Hero, h3: Hero, trap: Trap, seed: Seq<u8>, off: nat) -> (
    Hero,
    Hero,
    Hero,
    Trap,
    int,
    Seq<SingleBattleResult>,
) {
    let e1 = encounter_spec(h1, trap, seed, off);
    let e2 = encounter_spec(h2, e1.1, seed, off + 1);
    let e3 = encounter_spec(h3, e2.1, seed, off + 2);
    (
        e1.0,
        e2.0,
        e3.0,
        e3.1,
        tally(e1.2) + tally(e2.2) + tally(e3.2),
        push_opt(push_opt(push_opt(Seq::<SingleBattleResult>::empty(), e1.3), e2.3), e3.3),
    )
}

/// Everything a battle run determines before the reward settlement.
pub struct BattleOutcome {
    pub h1: Hero,
    pub h2: Hero,
    pub h3: Hero,
    pub traps: Seq<Trap>,
    pub firstTrap: Seq<SingleBattleResult>,
    pub secondTrap: Seq<SingleBattleResult>,
    pub thirdTrap: Seq<SingleBattleResult>,
    pub deadTraps: int,
    pub aborted: bool,
}

/// The whole battle state machine as one spec value, pass after pass from
/// `slot` onwards. A pass whose three heroes all tally as hit aborts with
/// the current trap forced enabled; a party already down aborts the same
/// way; a run that exhausts the offset budget aborts with nothing touched;
/// otherwise the party advances past a disabled trap (or once more than two
/// heroes are down, the trap again forced enabled) until the traps run out.
pub open spec fn battle_run(
    h1: Hero,
    h2: Hero,
    h3: Hero,
    traps: Seq<Trap>,
    firstTrap: Seq<SingleBattleResult>,
    secondTrap: Seq<SingleBattleResult>,
    thirdTrap: Seq<SingleBattleResult>,
    deadTraps: int,
    slot: int,
    off: nat,
    seed: Seq<u8>,
) -> BattleOutcome
    decreases traps.len() - slot, usize::MAX - off,
{
    if slot < 0 || slot >= traps.len() {
        BattleOutcome { h1, h2, h3, traps, firstTrap, secondTrap, thirdTrap, deadTraps, aborted: false }
    } else if off > usize::MAX - 3 {
        BattleOutcome { h1, h2, h3, traps, firstTrap, secondTrap, thirdTrap, deadTraps, aborted: true }
    } else if dead_count(h1, h2, h3) == 3 {
        BattleOutcome {
            h1,
            h2,
            h3,
            traps: traps.update(slot, Trap { enabled: true, ..traps[slot] }),
            firstTrap,
            secondTrap,
            thirdTrap,
            deadTraps,
            aborted: true,
        }
    } else {
        let p = pass_spec(h1, h2, h3, traps[slot], seed, off);
        let f1 = if slot == 0 {
            firstTrap + p.5
        } else {
            firstTrap
        };
        let f2 = if slot == 1 {
            secondTrap + p.5
        } else {
            secondTrap
        };
        let f3 = if slot >= 2 {
            thirdTrap + p.5
        } else {
            thirdTrap
        };
        let dt = deadTraps + (
        if traps[slot].health.current > 0 && p.3.health.current == 0 {
            1int
        } else {
            0int
        });
        if p.4 == 3 {
            BattleOutcome {
                h1: p.0,
                h2: p.1,
                h3: p.2,
                traps: traps.update(slot, Trap { enabled: true, ..p.3 }),
                firstTrap: f1,
                secondTrap: f2,
                thirdTrap: f3,
                deadTraps: dt,
                aborted: true,
            }
        } else if !p.3.enabled || dead_count(p.0, p.1, p.2) > 2 {
            battle_run(
                p.0,
                p.1,
                p.2,
                traps.update(slot, Trap { enabled: true, ..p.3 }),
                f1,
                f2,
                f3,
                dt,
                slot + 1,
                (off + 3) as nat,
                seed,
            )
        } else {
            battle_run(
                p.0,
                p.1,
                p.2,
                traps.update(slot, p.3),
                f1,
                f2,
                f3,
                dt,
                slot,
                (off + 3) as nat,
                seed,
            )
        }
    }
}

/// One hero/trap exchange. A skip (trap disabled, trap dead, or hero dead)
/// touches nothing and tallies a hit exactly when the hero is dead. A real
/// exchange rolls the hero's check against the trap's stat and value, deals
/// the outcome's damage to the trap — which disables it the instant it takes
/// any — and reports the log entry; the hit tally marks a hero who took
/// damage.
fn encounter(hero: &mut Hero, trap: &mut Trap, seed: &[u8; 32], off: usize) -> (res: (
    bool,
    Option<SingleBattleResult>,
))
    requires
        old(hero).wf(),
        old(hero).roll_safe(),
        old(hero).experience.current + MAX_ROLL_GAIN <= u32::MAX,
    ensures
        ({
            let e = encounter_spec(*old(hero), *old(trap), seed@, off as nat);
            &&& *final(hero) == e.0
            &&& *final(trap) == e.1
            &&& res.0 == e.2
            &&& res.1 == e.3
        }),
        final(hero).wf(),
        Hero::battle_frame(*old(hero), *final(hero)),
        final(hero).health.current <= old(hero).health.current,
        final(hero).experience.current <= old(hero).experience.current + MAX_ROLL_GAIN,
        final(trap).id == old(trap).id,
        final(trap).stat == old(trap).stat,
        final(trap).checkDice == old(trap).checkDice,
        final(trap).power == old(trap).power,
        final(trap).value == old(trap).value,
        final(trap).health.full == old(trap).health.full,
        final(trap).health.current <= old(trap).health.current,
        old(trap).wf() ==> final(trap).wf(),
        final(trap).enabled ==> old(trap).enabled,
        final(trap).enabled ==> final(hero).experience.current == old(hero).experience.current,
        final(trap).enabled ==> final(trap).health.current == old(trap).health.current,
        (!old(trap).enabled || old(trap).health.current == 0 || old(hero).health.current == 0)
            ==> *final(hero) == *old(hero) && *final(trap) == *old(trap) && res == ((old(
            hero,
        ).health.current == 0), None::<SingleBattleResult>),
        res.1 matches Some(e) ==> e.trapID == old(trap).id && e.heroID == old(hero).id,
        (old(trap).enabled && old(trap).health.current > 0 && old(hero).health.current > 0) ==> ({
            let raw = draw_of(rotate_seed(seed@, off as nat), 1, old(hero).checkDice);
            let roll = raw + old(hero).stat_value(old(trap).stat);
            let taken: u16 = if old(trap).value > roll {
                (old(trap).value - roll) as u16
            } else {
                0u16
            };
            let given: u16 = if old(trap).value > roll {
                0u16
            } else {
                (roll - old(trap).value) as u16
            };
            &&& Hero::roll_transition(
                *old(hero),
                *final(hero),
                old(trap).stat,
                old(trap).value,
                raw,
                (taken, given),
            )
            &&& final(trap).health.current == if old(trap).health.current < given {
                0u16
            } else {
                (old(trap).health.current - given) as u16
            }
            &&& final(trap).enabled == (given == 0)
            &&& res.0 == (taken > 0)
            &&& res.1 == Some(
                SingleBattleResult {
                    heroID: old(hero).id,
                    trapID: old(trap).id,
                    damageToTrap: given,
                    damageToHero: taken,
                    heroHP: final(hero).health.current,
                    trapHP: final(trap).health.current,
                },
            )
        }),
{
    proof {
        reveal(encounter_spec);
    }
    if !trap.enabled || trap.health.current == 0 || hero.health.current == 0 {
        return (hero.health.current == 0, None);
    }
    let outcome = hero.rollStatAgainst(trap.stat, trap.value, seed, off);
    let taken = outcome.0;
    let given = outcome.1;
    trap.takeDamage(given);
    let entry = SingleBattleResult {
        heroID: hero.id,
        trapID: trap.id,
        damageToTrap: given,
        damageToHero: taken,
        heroHP: hero.health.current,
        trapHP: trap.health.current,
    };
    (taken > 0, Some(entry))
}

/// One executable pass of the party against the current trap: three
/// encounters in hero order, returning the hit tally and the log entries.
fn runPass(h1: &mut Hero, h2: &mut Hero, h3: &mut Hero, trap: &mut Trap, seed: &[u8; 32],
    off: usize) -> (r: (u16, Vec<SingleBattleResult>))
    requires
        old(h1).wf(),
        old(h1).roll_safe(),
        old(h1).experience.current + MAX_ROLL_GAIN <= u32::MAX,
        old(h2).wf(),
        old(h2).roll_safe(),
        old(h2).experience.current + MAX_ROLL_GAIN <= u32::MAX,
        old(h3).wf(),
        old(h3).roll_safe(),
        old(h3).experience.current + MAX_ROLL_GAIN <= u32::MAX,
        off + 2 <= usize::MAX,
    ensures
        ({
            let p = pass_spec(*old(h1), *old(h2), *old(h3), *old(trap), seed@, off as nat);
            &&& *final(h1) == p.0
            &&& *final(h2) == p.1
            &&& *final(h3) == p.2
            &&& *final(trap) == p.3
            &&& r.0 as int == p.4
            &&& r.1@ == p.5
        }),
        final(h1).wf(),
        Hero::battle_frame(*old(h1), *final(h1)),
        final(h1).health.current <= old(h1).health.current,
        final(h1).experience.current <= old(h1).experience.current + MAX_ROLL_GAIN,
        final(h2).wf(),
        Hero::battle_frame(*old(h2), *final(h2)),
        final(h2).health.current <= old(h2).health.current,
        final(h2).experience.current <= old(h2).experience.current + MAX_ROLL_GAIN,
        final(h3).wf(),
        Hero::battle_frame(*old(h3), *final(h3)),
        final(h3).health.current <= old(h3).health.current,
        final(h3).experience.current <= old(h3).experience.current + MAX_ROLL_GAIN,
        final(trap).id == old(trap).id,
        final(trap).stat == old(trap).stat,
        final(trap).checkDice == old(trap).checkDice,
        final(trap).power == old(trap).power,
        final(trap).value == old(trap).value,
        final(trap).health.full == old(trap).health.full,
        final(trap).health.current <= old(trap).health.current,
        old(trap).wf() ==> final(trap).wf(),
        final(trap).enabled ==> old(trap).enabled,
        final(trap).enabled ==> final(trap).health.current == old(trap).health.current,
        final(trap).enabled ==> final(h1).experience.current == old(h1).experience.current
            && final(h2).experience.current == old(h2).experience.current
            && final(h3).experience.current == old(h3).experience.current,
        r.0 <= 3,
        forall|t: int| 0 <= t < r.1@.len() ==> (#[trigger] r.1@[t]).trapID == old(trap).id,
{
    proof {
        reveal(pass_spec);
    }
    let mut hits: u16 = 0;
    let mut entries: Vec<SingleBattleResult> = Vec::new();
    let r1 = encounter(h1, trap, seed, off);
    if r1.0 {
        hits += 1;
    }
    match r1.1 {
        Option::Some(e) => entries.push(e),
        Option::None => {},
    }
    let r2 = encounter(h2, trap, seed, off + 1);
    if r2.0 {
        hits += 1;
    }
    match r2.1 {
        Option::Some(e) => entries.push(e),
        Option::None => {},
    }
    let r3 = encounter(h3, trap, seed, off + 2);
    if r3.0 {
        hits += 1;
    }
    match r3.1 {
        Option::Some(e) => entries.push(e),
        Option::None => {},
    }
    (hits, entries)
}

/// Resolve a whole battle: the run is pinned, exchange by exchange, to the
/// spec-level `battle_run` over the named draws, so the final party, traps,
/// log and reward are all determined by the inputs. A run that neither
/// aborted (three tallied hits in one pass, a party already down, or an
/// exhausted offset budget) nor lost all three heroes must move the reward
/// from the defender's dungeon stash to the attacker's; otherwise the ledger
/// is untouched. Every hero mutation persists whatever the outcome.
#[verifier::rlimit(100)]
pub fn battle(
    h1: &mut Hero,
    h2: &mut Hero,
    h3: &mut Hero,
    traps: &mut Vec<Trap>,
    coins: &mut Coins,
    attacker: &String,
    defender: &String,
    seed: &[u8; 32],
    seedOffset: usize,
) -> (log: BattleLog)
    requires
        old(h1).wf(),
        old(h1).roll_safe(),
        old(h1).experience.current + 4 * MAX_ROLL_GAIN <= u32::MAX,
        old(h2).wf(),
        old(h2).roll_safe(),
        old(h2).experience.current + 4 * MAX_ROLL_GAIN <= u32::MAX,
        old(h3).wf(),
        old(h3).roll_safe(),
        old(h3).experience.current + 4 * MAX_ROLL_GAIN <= u32::MAX,
        old(traps)@.len() <= 3,
        forall|j: int|
            0 <= j < old(traps)@.len() ==> (#[trigger] old(traps)@[j]).wf() && (old(
                traps,
            )@[j].enabled ==> old(traps)@[j].health.current > 0),
        old(coins).wf(),
    ensures
        final(h1).wf(),
        Hero::battle_frame(*old(h1), *final(h1)),
        final(h1).health.current <= old(h1).health.current,
        final(h2).wf(),
        Hero::battle_frame(*old(h2), *final(h2)),
        final(h2).health.current <= old(h2).health.current,
        final(h3).wf(),
        Hero::battle_frame(*old(h3), *final(h3)),
        final(h3).health.current <= old(h3).health.current,
        final(traps)@.len() == old(traps)@.len(),
        forall|j: int|
            0 <= j < final(traps)@.len() ==> trap_battle_frame(
                old(traps)@[j],
                #[trigger] final(traps)@[j],
            ),
        final(coins).wf(),
        ({
            let run = battle_run(
                *old(h1),
                *old(h2),
                *old(h3),
                old(traps)@,
                Seq::<SingleBattleResult>::empty(),
                Seq::<SingleBattleResult>::empty(),
                Seq::<SingleBattleResult>::empty(),
                0,
                0,
                seedOffset as nat,
                seed@,
            );
            let d = dead_count(run.h1, run.h2, run.h3);
            let stake = bal(old(coins).usersDungeonGold@, defender@);
            &&& *final(h1) == run.h1
            &&& *final(h2) == run.h2
            &&& *final(h3) == run.h3
            &&& final(traps)@ == run.traps
            &&& log.firstTrap@ == run.firstTrap
            &&& log.secondTrap@ == run.secondTrap
            &&& log.thirdTrap@ == run.thirdTrap
            &&& run.deadTraps == dead_trap_delta(old(traps)@, final(traps)@)
            &&& if !run.aborted && d < 3 {
                &&& ((final(coins).usersDungeonGold@, log.rewardGold) == peer_transfer(
                    old(coins).usersDungeonGold@,
                    defender@,
                    attacker@,
                    reward_spec(stake, d, run.deadTraps) as u64,
                ))
                &&& final(coins).usersGold == old(coins).usersGold
                &&& final(coins).systemGold == old(coins).systemGold
                &&& final(coins).systemInitialGold == old(coins).systemInitialGold
            } else {
                &&& log.rewardGold == 0
                &&& *final(coins) == *old(coins)
            }
        }),
        forall|t: int|
            0 <= t < log.firstTrap@.len() ==> 0 < old(traps)@.len() && (
            #[trigger] log.firstTrap@[t]).trapID == old(traps)@[0].id,
        forall|t: int|
            0 <= t < log.secondTrap@.len() ==> 1 < old(traps)@.len() && (
            #[trigger] log.secondTrap@[t]).trapID == old(traps)@[1].id,
        forall|t: int|
            0 <= t < log.thirdTrap@.len() ==> 2 < old(traps)@.len() && (
            #[trigger] log.thirdTrap@[t]).trapID == old(traps)@[2].id,
{
    let mut log = BattleLog {
        firstTrap: Vec::new(),
        secondTrap: Vec::new(),
        thirdTrap: Vec::new(),
        rewardGold: 0,
    };
    let n = traps.len();
    proof {
        lemma_dead_trap_delta_same(old(traps)@, traps@);
    }
    let ghost target = battle_run(
        *old(h1),
        *old(h2),
        *old(h3),
        old(traps)@,
        Seq::<SingleBattleResult>::empty(),
        Seq::<SingleBattleResult>::empty(),
        Seq::<SingleBattleResult>::empty(),
        0,
        0,
        seedOffset as nat,
        seed@,
    );
    let mut slot: usize = 0;
    let mut off: usize = seedOffset;
    let mut aborted = false;
    let mut deadTraps: u16 = 0;
    while slot < n
        invariant_except_break
            n == traps@.len(),
            n == old(traps)@.len(),
            n <= 3,
            slot <= n,
            old(h1).experience.current + 4 * MAX_ROLL_GAIN <= u32::MAX,
            old(h2).experience.current + 4 * MAX_ROLL_GAIN <= u32::MAX,
            old(h3).experience.current + 4 * MAX_ROLL_GAIN <= u32::MAX,
            forall|j: int|
                0 <= j < n ==> (#[trigger] old(traps)@[j]).wf() && (old(traps)@[j].enabled ==> old(
                    traps,
                )@[j].health.current > 0),
            target == battle_run(
                *old(h1),
                *old(h2),
                *old(h3),
                old(traps)@,
                Seq::<SingleBattleResult>::empty(),
                Seq::<SingleBattleResult>::empty(),
                Seq::<SingleBattleResult>::empty(),
                0,
                0,
                seedOffset as nat,
                seed@,
            ),
            h1.wf(),
            h1.roll_safe(),
            Hero::battle_frame(*old(h1), *h1),
            h1.health.current <= old(h1).health.current,
            h2.wf(),
            h2.roll_safe(),
            Hero::battle_frame(*old(h2), *h2),
            h2.health.current <= old(h2).health.current,
            h3.wf(),
            h3.roll_safe(),
            Hero::battle_frame(*old(h3), *h3),
            h3.health.current <= old(h3).health.current,
            forall|j: int|
                0 <= j < n ==> trap_battle_frame(old(traps)@[j], #[trigger] traps@[j]),
            forall|j: int| slot < j < n ==> traps@[j] == old(traps)@[j],
            *coins == *old(coins),
            log.rewardGold == 0,
            deadTraps == dead_trap_delta(old(traps)@, traps@),
            deadTraps <= slot,
            n == 0 ==> log.firstTrap@.len() == 0,
            n <= 1 ==> log.secondTrap@.len() == 0,
            n <= 2 ==> log.thirdTrap@.len() == 0,
            forall|t: int|
                0 <= t < log.firstTrap@.len() ==> (#[trigger] log.firstTrap@[t]).trapID == (
                if 0 < n {
                    old(traps)@[0].id
                } else {
                    0u64
                }),
            forall|t: int|
                0 <= t < log.secondTrap@.len() ==> (#[trigger] log.secondTrap@[t]).trapID == (
                if 1 < n {
                    old(traps)@[1].id
                } else {
                    0u64
                }),
            forall|t: int|
                0 <= t < log.thirdTrap@.len() ==> (#[trigger] log.thirdTrap@[t]).trapID == (
                if 2 < n {
                    old(traps)@[2].id
                } else {
                    0u64
                }),
            h1.experience.current <= old(h1).experience.current + slot * MAX_ROLL_GAIN,
            h2.experience.current <= old(h2).experience.current + slot * MAX_ROLL_GAIN,
            h3.experience.current <= old(h3).experience.current + slot * MAX_ROLL_GAIN,
            forall|j: int|
                slot <= j < n ==> ((#[trigger] traps@[j]).enabled ==> traps@[j].health.current
                    > 0),
            !aborted,
            battle_run(
                *h1,
                *h2,
                *h3,
                traps@,
                log.firstTrap@,
                log.secondTrap@,
                log.thirdTrap@,
                deadTraps as int,
                slot as int,
                off as nat,
                seed@,
            ) == target,
        ensures
            n == traps@.len(),
            n == old(traps)@.len(),
            h1.wf(),
            Hero::battle_frame(*old(h1), *h1),
            h1.health.current <= old(h1).health.current,
            h2.wf(),
            Hero::battle_frame(*old(h2), *h2),
            h2.health.current <= old(h2).health.current,
            h3.wf(),
            Hero::battle_frame(*old(h3), *h3),
            h3.health.current <= old(h3).health.current,
            forall|j: int|
                0 <= j < n ==> trap_battle_frame(old(traps)@[j], #[trigger] traps@[j]),
            *coins == *old(coins),
            log.rewardGold == 0,
            deadTraps == dead_trap_delta(old(traps)@, traps@),
            deadTraps <= 3,
            target == battle_run(
                *old(h1),
                *old(h2),
                *old(h3),
                old(traps)@,
                Seq::<SingleBattleResult>::empty(),
                Seq::<SingleBattleResult>::empty(),
                Seq::<SingleBattleResult>::empty(),
                0,
                0,
                seedOffset as nat,
                seed@,
            ),
            *h1 == target.h1,
            *h2 == target.h2,
            *h3 == target.h3,
            traps@ == target.traps,
            log.firstTrap@ == target.firstTrap,
            log.secondTrap@ == target.secondTrap,
            log.thirdTrap@ == target.thirdTrap,
            deadTraps as int == target.deadTraps,
            aborted == target.aborted,
            n == 0 ==> log.firstTrap@.len() == 0,
            n <= 1 ==> log.secondTrap@.len() == 0,
            n <= 2 ==> log.thirdTrap@.len() == 0,
            forall|t: int|
                0 <= t < log.firstTrap@.len() ==> (#[trigger] log.firstTrap@[t]).trapID == (
                if 0 < n {
                    old(traps)@[0].id
                } else {
                    0u64
                }),
            forall|t: int|
                0 <= t < log.secondTrap@.len() ==> (#[trigger] log.secondTrap@[t]).trapID == (
                if 1 < n {
                    old(traps)@[1].id
                } else {
                    0u64
                }),
            forall|t: int|
                0 <= t < log.thirdTrap@.len() ==> (#[trigger] log.thirdTrap@[t]).trapID == (
                if 2 < n {
                    old(traps)@[2].id
                } else {
                    0u64
                }),
        decreases n - slot, usize::MAX - off,
    {
        let ghost s_h1 = *h1;
        let ghost s_h2 = *h2;
        let ghost s_h3 = *h3;
        let ghost s_traps = traps@;
        let ghost s_f1 = log.firstTrap@;
        let ghost s_f2 = log.secondTrap@;
        let ghost s_f3 = log.thirdTrap@;
        let ghost s_dt = deadTraps as int;
        let ghost s_off = off as nat;
        if off > usize::MAX - 3 {
            aborted = true;
            proof {
                assert(target == BattleOutcome {
                    h1: s_h1,
                    h2: s_h2,
                    h3: s_h3,
                    traps: s_traps,
                    firstTrap: s_f1,
                    secondTrap: s_f2,
                    thirdTrap: s_f3,
                    deadTraps: s_dt,
                    aborted: true,
                });
            }
            break ;
        }
        let d0 = deadHeroes(h1, h2, h3);
        if d0 == 3 {
            // the pass would tally three dead skips and abort at once
            let ghost tpre = traps@;
            forceEnable(&mut traps[slot]);
            proof {
                lemma_dead_trap_delta_update(old(traps)@, tpre, slot as int, traps@[slot as int]);
                assert(traps@ =~= tpre.update(slot as int, traps@[slot as int]));
                assert(traps@ =~= s_traps.update(
                    slot as int,
                    Trap { enabled: true, ..s_traps[slot as int] },
                ));
                assert(target == BattleOutcome {
                    h1: s_h1,
                    h2: s_h2,
                    h3: s_h3,
                    traps: s_traps.update(
                        slot as int,
                        Trap { enabled: true, ..s_traps[slot as int] },
                    ),
                    firstTrap: s_f1,
                    secondTrap: s_f2,
                    thirdTrap: s_f3,
                    deadTraps: s_dt,
                    aborted: true,
                });
            }
            aborted = true;
            break ;
        }
        let ghost p = pass_spec(s_h1, s_h2, s_h3, s_traps[slot as int], seed@, s_off);
        let preHp = traps[slot].health.current;
        let pass = runPass(h1, h2, h3, &mut traps[slot], seed, off);
        let hits = pass.0;
        let mut entries = pass.1;
        proof {
            assert(traps@ =~= s_traps.update(slot as int, traps@[slot as int]));
            assert(*h1 == p.0 && *h2 == p.1 && *h3 == p.2);
            assert(traps@[slot as int] == p.3);
            assert(entries@ == p.5);
            assert(hits as int == p.4);
            lemma_dead_trap_delta_update(old(traps)@, s_traps, slot as int, traps@[slot as int]);
        }
        if slot == 0 {
            log.firstTrap.append(&mut entries);
        } else if slot == 1 {
            log.secondTrap.append(&mut entries);
        } else {
            log.thirdTrap.append(&mut entries);
        }
        off = off + 3;
        let d = deadHeroes(h1, h2, h3);
        let nowHp = traps[slot].health.current;
        if preHp > 0 && nowHp == 0 {
            deadTraps += 1;
        }
        if hits == 3 {
            let ghost tpre = traps@;
            forceEnable(&mut traps[slot]);
            proof {
                lemma_dead_trap_delta_update(old(traps)@, tpre, slot as int, traps@[slot as int]);
                assert(traps@ =~= tpre.update(slot as int, traps@[slot as int]));
                assert(traps@ =~= s_traps.update(slot as int, Trap { enabled: true, ..p.3 }));
                assert(target == BattleOutcome {
                    h1: p.0,
                    h2: p.1,
                    h3: p.2,
                    traps: s_traps.update(slot as int, Trap { enabled: true, ..p.3 }),
                    firstTrap: log.firstTrap@,
                    secondTrap: log.secondTrap@,
                    thirdTrap: log.thirdTrap@,
                    deadTraps: deadTraps as int,
                    aborted: true,
                });
            }
            aborted = true;
            break ;
        }
        let stillEnabled = traps[slot].enabled;
        if !stillEnabled || d > 2 {
            let ghost tpre = traps@;
            forceEnable(&mut traps[slot]);
            proof {
                lemma_dead_trap_delta_update(old(traps)@, tpre, slot as int, traps@[slot as int]);
                assert(traps@ =~= tpre.update(slot as int, traps@[slot as int]));
                assert(traps@ =~= s_traps.update(slot as int, Trap { enabled: true, ..p.3 }));
                assert(battle_run(
                    *h1,
                    *h2,
                    *h3,
                    traps@,
                    log.firstTrap@,
                    log.secondTrap@,
                    log.thirdTrap@,
                    deadTraps as int,
                    slot as int + 1,
                    (s_off + 3) as nat,
                    seed@,
                ) == target);
            }
            slot += 1;
        } else {
            proof {
                assert(traps@ =~= s_traps.update(slot as int, p.3));
                assert(battle_run(
                    *h1,
                    *h2,
                    *h3,
                    traps@,
                    log.firstTrap@,
                    log.secondTrap@,
                    log.thirdTrap@,
                    deadTraps as int,
                    slot as int,
                    (s_off + 3) as nat,
                    seed@,
                ) == target);
            }
        }
    }
    let d = deadHeroes(h1, h2, h3);
    if !aborted && d < 3 {
        let stake = Coins::safeUnwrap(coins.get_user_dungeon_gold(defender.clone()));
        let reward = computeReward(stake, d, deadTraps);
        let moved = coins.transfer_dungeon_gold_from_to(defender.clone(), attacker.clone(), reward);
        log.rewardGold = moved;
    }
    log
}

} // verus!
