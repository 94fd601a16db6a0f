//! The gold ledger: per-account liquid and dungeon-staked pools plus two
//! system-wide reserves. Every transfer is atomic — it moves the full
//! requested amount or moves nothing — and no pool can go below zero.
use vstd::prelude::*;
use crate::strmap::StrMap;

verus! {

/// A static league catalog entry.
#[derive(Default, Clone, Copy, Debug, PartialEq, Eq, Structural)]
pub struct League {
    pub id: u8,
    pub duration: u64,
    pub stash: u64,
}

/// The declared transfer fee, in thousandths. It is part of the ledger's
/// stated rules but is never applied by any primitive.
pub const FEE_PER_MILLE: u64 = 1;

/// The fixed league catalog: identifiers above 2 read the last entry.
pub open spec fn league_spec(id: int) -> League {
    if id == 0 {
        League { id: 0, duration: 1800000000000, stash: 100 }
    } else if id == 1 {
        League { id: 1, duration: 3600000000000, stash: 1000 }
    } else {
        League { id: 2, duration: 5400000000000, stash: 10000 }
    }
}

/// Executable lookup into the league catalog.
pub fn leagueById(id: u8) -> (r: League)
    ensures
        r == league_spec(id as int),
{
    if id == 0 {
        League { id: 0, duration: 30 * 60000 * 1000000, stash: 100 }
    } else if id == 1 {
        League { id: 1, duration: 60 * 60000 * 1000000, stash: 1000 }
    } else {
        League { id: 2, duration: 90 * 60000 * 1000000, stash: 10000 }
    }
}

/// An account's balance in a pool map; an absent account holds 0.
pub open spec fn bal(m: Map<Seq<char>, u64>, k: Seq<char>) -> int {
    if m.contains_key(k) {
        m[k] as int
    } else {
        0
    }
}

/// A peer transfer over one pool map: it moves the full amount exactly when
/// the sender covers it, the parties differ and the receiver's balance does
/// not overflow; otherwise it moves nothing and leaves the map untouched.
pub open spec fn peer_transfer(
    m: Map<Seq<char>, u64>,
    sender: Seq<char>,
    target: Seq<char>,
    amount: u64,
) -> (Map<Seq<char>, u64>, u64) {
    if bal(m, sender) < amount || sender == target || bal(m, target) + amount > u64::MAX {
        (m, 0u64)
    } else {
        (
            m.insert(sender, (bal(m, sender) - amount) as u64).insert(
                target,
                (bal(m, target) + amount) as u64,
            ),
            amount,
        )
    }
}

/// A two-tier withdrawal from the system reserves: the primary reserve pays
/// whenever it alone covers the amount; otherwise the secondary pays if it
/// alone covers it; if neither single reserve covers the amount the transfer
/// fails entirely, even when their sum would suffice.
pub open spec fn system_withdraw(
    primary: u64,
    secondary: u64,
    m: Map<Seq<char>, u64>,
    target: Seq<char>,
    amount: u64,
) -> (u64, u64, Map<Seq<char>, u64>, u64) {
    if primary < amount && secondary < amount {
        (primary, secondary, m, 0u64)
    } else if bal(m, target) + amount > u64::MAX {
        (primary, secondary, m, 0u64)
    } else if primary >= amount {
        (
            (primary - amount) as u64,
            secondary,
            m.insert(target, (bal(m, target) + amount) as u64),
            amount,
        )
    } else {
        (
            primary,
            (secondary - amount) as u64,
            m.insert(target, (bal(m, target) + amount) as u64),
            amount,
        )
    }
}

/// The four gold pools: per-account liquid gold, per-account dungeon stash,
/// and the primary and secondary ("initial") system reserves.
pub struct Coins {
    pub usersGold: StrMap<u64>,
    pub usersDungeonGold: StrMap<u64>,
    pub systemGold: u64,
    pub systemInitialGold: u64,
}

impl Coins {
    /// Both pool maps keep their keys unique.
    pub open spec fn wf(self) -> bool {
        &&& self.usersGold.wf()
        &&& self.usersDungeonGold.wf()
    }

    /// A fresh ledger with empty account pools and the given reserves.
    pub fn new(systemGold: u64, systemInitialGold: u64) -> (c: Coins)
        ensures
            c.wf(),
            c.usersGold@ == Map::<Seq<char>, u64>::empty(),
            c.usersDungeonGold@ == Map::<Seq<char>, u64>::empty(),
            c.systemGold == systemGold,
            c.systemInitialGold == systemInitialGold,
    {
        Coins {
            usersGold: StrMap::new(),
            usersDungeonGold: StrMap::new(),
            systemGold,
            systemInitialGold,
        }
    }

    /// An absent balance reads as zero.
    pub(crate) fn safeUnwrap(opt: Option<u64>) -> (r: u64)
        ensures
            r == (match opt {
                Option::Some(v) => v,
                Option::None => 0u64,
            }),
    {
        match opt {
            Option::Some(v) => v,
            Option::None => 0,
        }
    }

    /// Read an account's liquid gold.
    pub fn get_user_gold(&self, account_id: String) -> (r: Option<u64>)
        requires
            self.wf(),
        ensures
            r == if self.usersGold@.contains_key(account_id@) {
                Some(self.usersGold@[account_id@])
            } else {
                None::<u64>
            },
    {
        self.usersGold.get(&account_id)
    }

    /// Read an account's dungeon stash.
    pub fn get_user_dungeon_gold(&self, account_id: String) -> (r: Option<u64>)
        requires
            self.wf(),
        ensures
            r == if self.usersDungeonGold@.contains_key(account_id@) {
                Some(self.usersDungeonGold@[account_id@])
            } else {
                None::<u64>
            },
    {
        self.usersDungeonGold.get(&account_id)
    }

    /// Peer transfer of liquid gold. Both accounts must already exist.
    fn transfer_gold_from_to(&mut self, sender: String, target: String, amount: u64) -> (r: u64)
        requires
            old(self).wf(),
            old(self).usersGold@.contains_key(sender@),
            old(self).usersGold@.contains_key(target@),
        ensures
            final(self).wf(),
            ((final(self).usersGold@, r) == peer_transfer(
                old(self).usersGold@,
                sender@,
                target@,
                amount,
            )),
            final(self).usersDungeonGold == old(self).usersDungeonGold,
            final(self).systemGold == old(self).systemGold,
            final(self).systemInitialGold == old(self).systemInitialGold,
    {
        let sGold = Coins::safeUnwrap(self.usersGold.get(&sender));
        let tGold = Coins::safeUnwrap(self.usersGold.get(&target));
        if sGold < amount || sender == target {
            return 0;
        }
        if tGold > u64::MAX - amount {
            return 0;
        }
        self.usersGold.set(sender, sGold - amount);
        self.usersGold.set(target, tGold + amount);
        amount
    }

    /// Peer transfer of liquid gold on behalf of a named sender.
    pub fn transfer_gold_to(&mut self, sender: String, target: String, amount: u64) -> (r: u64)
        requires
            old(self).wf(),
            old(self).usersGold@.contains_key(sender@),
            old(self).usersGold@.contains_key(target@),
        ensures
            final(self).wf(),
            ((final(self).usersGold@, r) == peer_transfer(
                old(self).usersGold@,
                sender@,
                target@,
                amount,
            )),
            final(self).usersDungeonGold == old(self).usersDungeonGold,
            final(self).systemGold == old(self).systemGold,
            final(self).systemInitialGold == old(self).systemInitialGold,
    {
        self.transfer_gold_from_to(sender, target, amount)
    }

    /// Peer transfer of dungeon-staked gold; absent accounts hold 0.
    pub fn transfer_dungeon_gold_from_to(&mut self, sender: String, target: String, amount: u64)
        -> (r: u64)
        requires
            old(self).wf(),
        ensures
            final(self).wf(),
            ((final(self).usersDungeonGold@, r) == peer_transfer(
                old(self).usersDungeonGold@,
                sender@,
                target@,
                amount,
            )),
            final(self).usersGold == old(self).usersGold,
            final(self).systemGold == old(self).systemGold,
            final(self).systemInitialGold == old(self).systemInitialGold,
    {
        let sGold = Coins::safeUnwrap(self.usersDungeonGold.get(&sender));
        let tGold = Coins::safeUnwrap(self.usersDungeonGold.get(&target));
        if sGold < amount || sender == target {
            return 0;
        }
        if tGold > u64::MAX - amount {
            return 0;
        }
        self.usersDungeonGold.set(sender, sGold - amount);
        self.usersDungeonGold.set(target, tGold + amount);
        amount
    }

    /// Withdraw from the system reserves into an account, with the two-tier
    /// precedence of `system_withdraw`.
    pub fn transfer_gold_from_system(&mut self, target: String, amount: u64) -> (r: u64)
        requires
            old(self).wf(),
        ensures
            final(self).wf(),
            ((final(self).systemGold, final(self).systemInitialGold, final(self).usersGold@, r)
                == system_withdraw(
                old(self).systemGold,
                old(self).systemInitialGold,
                old(self).usersGold@,
                target@,
                amount,
            )),
            final(self).usersDungeonGold == old(self).usersDungeonGold,
    {
        let initGold = self.systemInitialGold;
        let systemGold = self.systemGold;
        let tGold = Coins::safeUnwrap(self.usersGold.get(&target));
        if initGold < amount && systemGold < amount {
            return 0;
        }
        if tGold > u64::MAX - amount {
            return 0;
        }
        if systemGold >= amount {
            self.systemGold = systemGold - amount;
            self.usersGold.set(target, tGold + amount);
            return amount;
        }
        self.systemInitialGold = initGold - amount;
        self.usersGold.set(target, tGold + amount);
        amount
    }

    /// Deposit liquid gold from an account into the primary system reserve.
    /// The account must exist; the deposit happens exactly when the account
    /// covers the amount and the reserve does not overflow.
    pub fn transfer_gold_to_system(&mut self, target: String, amount: u64) -> (r: u64)
        requires
            old(self).wf(),
            old(self).usersGold@.contains_key(target@),
        ensures
            final(self).wf(),
            ({
                let t0 = bal(old(self).usersGold@, target@);
                if t0 < amount || old(self).systemGold + amount > u64::MAX {
                    &&& r == 0
                    &&& final(self).usersGold@ == old(self).usersGold@
                    &&& final(self).systemGold == old(self).systemGold
                } else {
                    &&& r == amount
                    &&& final(self).usersGold@ == old(self).usersGold@.insert(
                        target@,
                        (t0 - amount) as u64,
                    )
                    &&& final(self).systemGold == old(self).systemGold + amount
                }
            }),
            final(self).usersDungeonGold == old(self).usersDungeonGold,
            final(self).systemInitialGold == old(self).systemInitialGold,
    {
        let tGold = Coins::safeUnwrap(self.usersGold.get(&target));
        if tGold < amount {
            return 0;
        }
        if self.systemGold > u64::MAX - amount {
            return 0;
        }
        self.systemGold = self.systemGold + amount;
        self.usersGold.set(target, tGold - amount);
        amount
    }

    /// Move liquid gold into the caller's own dungeon stash.
    pub fn fill_dungeon_stash(&mut self, sender: String, amount: u64) -> (r: u64)
        requires
            old(self).wf(),
            old(self).usersGold@.contains_key(sender@),
        ensures
            final(self).wf(),
            ({
                let u0 = bal(old(self).usersGold@, sender@);
                let d0 = bal(old(self).usersDungeonGold@, sender@);
                if u0 < amount || d0 + amount > u64::MAX {
                    &&& r == 0
                    &&& final(self).usersGold@ == old(self).usersGold@
                    &&& final(self).usersDungeonGold@ == old(self).usersDungeonGold@
                } else {
                    &&& r == amount
                    &&& final(self).usersGold@ == old(self).usersGold@.insert(
                        sender@,
                        (u0 - amount) as u64,
                    )
                    &&& final(self).usersDungeonGold@ == old(self).usersDungeonGold@.insert(
                        sender@,
                        (d0 + amount) as u64,
                    )
                }
            }),
            final(self).systemGold == old(self).systemGold,
            final(self).systemInitialGold == old(self).systemInitialGold,
    {
        let dGold = Coins::safeUnwrap(self.usersDungeonGold.get(&sender));
        let uGold = Coins::safeUnwrap(self.usersGold.get(&sender));
        if uGold < amount {
            return 0;
        }
        if dGold > u64::MAX - amount {
            return 0;
        }
        self.usersDungeonGold.set(sender.clone(), dGold + amount);
        self.usersGold.set(sender, uGold - amount);
        amount
    }

    /// Empty the caller's dungeon stash back into liquid gold: the whole
    /// staked balance moves and the stash is zeroed.
    pub fn empty_dungeon_stash(&mut self, sender: String) -> (r: u64)
        requires
            old(self).wf(),
            old(self).usersGold@.contains_key(sender@),
        ensures
            final(self).wf(),
            ({
                let u0 = bal(old(self).usersGold@, sender@);
                let d0 = bal(old(self).usersDungeonGold@, sender@);
                if u0 + d0 > u64::MAX {
                    &&& r == 0
                    &&& final(self).usersGold@ == old(self).usersGold@
                    &&& final(self).usersDungeonGold@ == old(self).usersDungeonGold@
                } else {
                    &&& r == d0
                    &&& final(self).usersGold@ == old(self).usersGold@.insert(
                        sender@,
                        (u0 + d0) as u64,
                    )
                    &&& final(self).usersDungeonGold@ == old(self).usersDungeonGold@.insert(
                        sender@,
                        0u64,
                    )
                }
            }),
            final(self).systemGold == old(self).systemGold,
            final(self).systemInitialGold == old(self).systemInitialGold,
    {
        let dGold = Coins::safeUnwrap(self.usersDungeonGold.get(&sender));
        let uGold = Coins::safeUnwrap(self.usersGold.get(&sender));
        if uGold > u64::MAX - dGold {
            return 0;
        }
        self.usersDungeonGold.set(sender.clone(), 0);
        self.usersGold.set(sender, uGold + dGold);
        dGold
    }
}

/// Conservation law: when a peer transfer reports the full amount moved, the
/// sender's balance drops by exactly that amount, the receiver's rises by
/// exactly that amount, their total is unchanged, and no other account moves.
pub proof fn lemma_peer_transfer_conserves(
    m: Map<Seq<char>, u64>,
    sender: Seq<char>,
    target: Seq<char>,
    amount: u64,
)
    requires
        peer_transfer(m, sender, target, amount).1 == amount,
    ensures
        bal(peer_transfer(m, sender, target, amount).0, sender) == bal(m, sender) - amount || (
        sender == target && amount == 0),
        bal(peer_transfer(m, sender, target, amount).0, target) == bal(m, target) + amount || (
        sender == target && amount == 0),
        bal(peer_transfer(m, sender, target, amount).0, sender) + bal(
            peer_transfer(m, sender, target, amount).0,
            target,
        ) == bal(m, sender) + bal(m, target),
        forall|k: Seq<char>|
            k != sender && k != target ==> bal(peer_transfer(m, sender, target, amount).0, k)
                == bal(m, k),
{
}

/// Non-negativity law: balances are never negative, and a transfer whose
/// amount exceeds the sender's balance moves nothing — it reports zero moved
/// and leaves every balance unchanged.
pub proof fn lemma_peer_transfer_insufficient(
    m: Map<Seq<char>, u64>,
    sender: Seq<char>,
    target: Seq<char>,
    amount: u64,
)
    requires
        bal(m, sender) < amount,
    ensures
        peer_transfer(m, sender, target, amount) == (m, 0u64),
        forall|k: Seq<char>| bal(m, k) >= 0,
{
}

} // verus!
