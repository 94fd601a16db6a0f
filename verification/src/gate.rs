//! The league/timing gate: dungeon-open intervals keyed by account, tier
//! membership, and the roster listing that evicts expired fighters as a side
//! effect of the listing call itself.
use vstd::prelude::*;
use crate::strmap::StrMap;
use crate::coins::{league_spec, leagueById};

verus! {

/// Time elapsed since an interval was set, against a monotonic clock. A
/// reading older than the stored value must not occur; it reads as 0.
pub open spec fn elapsed_spec(stored: u64, now: u64) -> int {
    if now >= stored {
        now - stored
    } else {
        0
    }
}

/// Dungeon-open intervals and tier tags, both keyed by account.
pub struct TimingGate {
    pub intervals: StrMap<u64>,
    pub tiers: StrMap<u8>,
}

impl TimingGate {
    /// Both maps keep their keys unique.
    pub open spec fn wf(self) -> bool {
        &&& self.intervals.wf()
        &&& self.tiers.wf()
    }

    /// A fighter is listable for a league when their interval is open and its
    /// elapsed time does not exceed the league's duration.
    pub open spec fn fresh(self, k: Seq<char>, league: u8, now: u64) -> bool {
        &&& self.intervals@.contains_key(k)
        &&& elapsed_spec(self.intervals@[k], now) <= league_spec(league as int).duration
    }

    /// Membership of a league tier.
    pub open spec fn member(self, k: Seq<char>, league: u8) -> bool {
        self.tiers@.contains_key(k) && self.tiers@[k] == league
    }

    /// Both of an account's records read the same in two gate states.
    pub open spec fn records_unchanged(pre: TimingGate, post: TimingGate, k: Seq<char>) -> bool {
        &&& post.tiers@.contains_key(k) == pre.tiers@.contains_key(k)
        &&& (post.tiers@.contains_key(k) ==> post.tiers@[k] == pre.tiers@[k])
        &&& post.intervals@.contains_key(k) == pre.intervals@.contains_key(k)
        &&& (post.intervals@.contains_key(k) ==> post.intervals@[k] == pre.intervals@[k])
    }

    /// A gate with no intervals and no tier members.
    pub fn new() -> (g: TimingGate)
        ensures
            g.wf(),
            g.intervals@ == Map::<Seq<char>, u64>::empty(),
            g.tiers@ == Map::<Seq<char>, u8>::empty(),
    {
        TimingGate { intervals: StrMap::new(), tiers: StrMap::new() }
    }

    /// Set an interval once: re-setting an already-set interval is rejected
    /// with a sentinel `false` and changes nothing.
    pub fn set_interval(&mut self, id: String, now: u64) -> (r: bool)
        requires
            old(self).wf(),
        ensures
            final(self).wf(),
            old(self).intervals@.contains_key(id@) ==> r == false && *final(self) == *old(self),
            !old(self).intervals@.contains_key(id@) ==> r == true && final(self).intervals@ == old(
                self,
            ).intervals@.insert(id@, now) && final(self).tiers == old(self).tiers,
    {
        match self.intervals.get(&id) {
            Option::Some(_) => false,
            Option::None => {
                self.intervals.set(id, now);
                true
            },
        }
    }

    /// Read the elapsed open time of an interval, or nothing if it is unset.
    pub fn get_interval(&self, id: String, now: u64) -> (r: Option<u64>)
        requires
            self.wf(),
        ensures
            r == if self.intervals@.contains_key(id@) {
                Some(elapsed_spec(self.intervals@[id@], now) as u64)
            } else {
                None::<u64>
            },
    {
        match self.intervals.get(&id) {
            Option::Some(stored) => if now >= stored {
                Some(now - stored)
            } else {
                Some(0)
            },
            Option::None => None,
        }
    }

    /// Clear an interval; the dungeon is no longer open.
    pub fn clear_interval(&mut self, id: String)
        requires
            old(self).wf(),
        ensures
            final(self).wf(),
            final(self).intervals@ == old(self).intervals@.remove(id@),
            final(self).tiers == old(self).tiers,
    {
        self.intervals.remove(&id);
    }

    /// Tag an account with a league tier.
    pub fn set_tier(&mut self, id: String, league: u8)
        requires
            old(self).wf(),
        ensures
            final(self).wf(),
            final(self).tiers@ == old(self).tiers@.insert(id@, league),
            final(self).intervals == old(self).intervals,
    {
        self.tiers.set(id, league);
    }

    /// List the fighters of a league tier. The listing mutates state: every
    /// member of the tier whose open interval has expired - or who has no
    /// open interval at all - is evicted by the call itself: their interval
    /// and their tier tag are cleared, and they are absent from the result.
    /// Members still fresh are all listed and left untouched.
    #[verifier::rlimit(100)]
    pub fn get_fighters(&mut self, league: u8, now: u64) -> (r: Vec<String>)
        requires
            old(self).wf(),
        ensures
            final(self).wf(),
            // soundness: only fresh members of the tier are listed
            forall|t: int|
                0 <= t < r@.len() ==> old(self).member(#[trigger] r@[t]@, league)
                    && old(self).fresh(r@[t]@, league, now),
            // completeness: every fresh member of the tier is listed
            forall|k: Seq<char>|
                old(self).member(k, league) && old(self).fresh(k, league, now)
                    ==> exists|t: int| 0 <= t < r@.len() && r@[t]@ == k,
            // eviction: expired or interval-less members are cleared
            forall|k: Seq<char>|
                old(self).member(k, league) && !old(self).fresh(k, league, now)
                    ==> !final(self).tiers@.contains_key(k)
                    && !final(self).intervals@.contains_key(k),
            // fresh members of the tier keep their records
            forall|k: Seq<char>|
                old(self).member(k, league) && old(self).fresh(k, league, now)
                    ==> TimingGate::records_unchanged(*old(self), *final(self), k),
            // everyone else is untouched
            forall|k: Seq<char>|
                !old(self).member(k, league)
                    ==> TimingGate::records_unchanged(*old(self), *final(self), k),
    {
        let accounts = self.tiers.keys();
        let n = accounts.len();
        let duration = leagueById(league).duration;
        let mut r: Vec<String> = Vec::new();
        let mut i: usize = 0;
        while i < n
            invariant
                self.wf(),
                n == accounts@.len(),
                i <= n,
                duration == league_spec(league as int).duration,
                forall|a: int, b: int| 0 <= a < b < n ==> accounts@[a]@ != accounts@[b]@,
                forall|a: int|
                    0 <= a < n ==> old(self).tiers@.contains_key(#[trigger] accounts@[a]@),
                forall|k: Seq<char>|
                    old(self).tiers@.contains_key(k) ==> exists|a: int|
                        0 <= a < n && accounts@[a]@ == k,
                // unprocessed accounts still carry their old records
                forall|j: int|
                    i <= j < n ==> TimingGate::records_unchanged(
                        *old(self),
                        *self,
                        #[trigger] accounts@[j]@,
                    ),
                // processed accounts are settled
                forall|j: int|
                    0 <= j < i && old(self).member(#[trigger] accounts@[j]@, league)
                        && !old(self).fresh(accounts@[j]@, league, now)
                        ==> !self.tiers@.contains_key(accounts@[j]@)
                        && !self.intervals@.contains_key(accounts@[j]@),
                forall|j: int|
                    0 <= j < i && !(old(self).member(#[trigger] accounts@[j]@, league)
                        && !old(self).fresh(accounts@[j]@, league, now))
                        ==> TimingGate::records_unchanged(*old(self), *self, accounts@[j]@),
                // keys outside the tier map are untouched
                forall|k: Seq<char>|
                    !old(self).tiers@.contains_key(k) ==> TimingGate::records_unchanged(
                        *old(self),
                        *self,
                        k,
                    ),
                // the result so far
                forall|t: int|
                    0 <= t < r@.len() ==> old(self).member(#[trigger] r@[t]@, league)
                        && old(self).fresh(r@[t]@, league, now),
                forall|j: int|
                    0 <= j < i && old(self).member(#[trigger] accounts@[j]@, league)
                        && old(self).fresh(accounts@[j]@, league, now) ==> exists|t: int|
                        0 <= t < r@.len() && r@[t]@ == accounts@[j]@,
            decreases n - i,
        {
            let ghost pre = *self;
            let ghost r_pre = r@;
            let account = &accounts[i];
            let is_member = match self.tiers.get(account) {
                Option::Some(t) => t == league,
                Option::None => false,
            };
            if is_member {
                let mut keep = false;
                match self.intervals.get(account) {
                    Option::Some(stored) => {
                        let elapsed: u64 = if now >= stored {
                            now - stored
                        } else {
                            0
                        };
                        if elapsed <= duration {
                            keep = true;
                        }
                    },
                    Option::None => {},
                }
                if keep {
                    r.push(account.clone());
                } else {
                    self.intervals.remove(account);
                    self.tiers.remove(account);
                }
            }
            proof {
                let here = accounts@[i as int]@;
                assert(old(self).tiers@.contains_key(here));
                assert forall|k: Seq<char>| k != here && TimingGate::records_unchanged(
                    *old(self),
                    pre,
                    k,
                ) implies TimingGate::records_unchanged(*old(self), *self, k) by {}
                assert forall|k: Seq<char>| !old(self).tiers@.contains_key(k) implies
                    TimingGate::records_unchanged(*old(self), *self, k) by {
                    assert(TimingGate::records_unchanged(*old(self), pre, k));
                    assert(k != here);
                }
                assert forall|t: int| 0 <= t < r@.len() implies old(self).member(
                    #[trigger] r@[t]@,
                    league,
                ) && old(self).fresh(r@[t]@, league, now) by {
                    if t < r_pre.len() {
                        assert(r@[t]@ == r_pre[t]@);
                    } else {
                        assert(r@[t]@ == here);
                    }
                }
                assert forall|j: int|
                    0 <= j <= i && old(self).member(#[trigger] accounts@[j]@, league) && old(
                        self,
                    ).fresh(accounts@[j]@, league, now) implies exists|t: int|
                    0 <= t < r@.len() && r@[t]@ == accounts@[j]@ by {
                    if j < i as int {
                        let t = choose|t: int| 0 <= t < r_pre.len() && r_pre[t]@ == accounts@[j]@;
                        assert(r@[t]@ == accounts@[j]@);
                    } else {
                        assert(r@[r@.len() - 1]@ == here);
                    }
                }
            }
            i += 1;
        }
        r
    }
}

} // verus!
