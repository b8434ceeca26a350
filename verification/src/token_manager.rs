//! The in-memory pool of accounts and the policy that picks one of them for
//! each outbound call.

use crate::account::{marked_exhausted, token_renewed, Account, Quota};
use crate::error::GatewayError;
use crate::text::same_text;
use vstd::prelude::*;

verus! {

/// An account in the pool, with the logical time it was last handed out
/// (zero if it never was).
#[derive(Debug)]
pub struct PoolEntry {
    pub account: Account,
    pub last_used: u64,
}

/// The account picked for one outbound call.
#[derive(Debug)]
pub struct Selection {
    /// Position of the account in the pool.
    pub index: usize,
    pub account_id: String,
    pub access_token: String,
}

/// Some element of `ids` reads `id`.
pub open spec fn listed(ids: Seq<String>, id: Seq<char>) -> bool {
    exists|k: int| 0 <= k < ids.len() && (#[trigger] ids[k])@ == id
}

/// The account at position `i` may be handed out: it exists, it is not
/// barred, and it is not among the accounts already tried.
pub open spec fn is_candidate(pool: Seq<PoolEntry>, tried: Seq<String>, i: int) -> bool {
    &&& 0 <= i < pool.len()
    &&& !pool[i].account.forbidden()
    &&& !listed(tried, pool[i].account.id@)
}

/// Accounts known to have allowance left for the model come first.
pub open spec fn preference(entry: PoolEntry, model: Seq<char>) -> int {
    if entry.account.unconsumed_for(model) {
        0
    } else {
        1
    }
}

/// How a tie between accounts of the same preference is broken.
#[derive(Clone, Copy, Debug, PartialEq, Eq, Structural)]
pub enum TieBreak {
    /// The account that was handed out longest ago wins.
    LeastRecentlyUsed,
    /// The account with the most left for the model wins; among those,
    /// the one that was handed out longest ago.
    HighestRemaining,
}

/// What an account has left for the model, as far as the way of breaking
/// ties looks at it.
pub open spec fn weight(entry: PoolEntry, model: Seq<char>, tie_break: TieBreak) -> nat {
    match tie_break {
        TieBreak::LeastRecentlyUsed => 0,
        TieBreak::HighestRemaining => entry.account.remaining_for(model),
    }
}

/// The account at `i` is picked no later than the one at `j`: by known
/// allowance first, then by what is left (where ties are broken that
/// way), then by least recent use, then by position.
pub open spec fn ranks_before(
    pool: Seq<PoolEntry>,
    model: Seq<char>,
    tie_break: TieBreak,
    i: int,
    j: int,
) -> bool {
    let a = pool[i];
    let b = pool[j];
    let same_preference = preference(a, model) == preference(b, model);
    let same_weight = weight(a, model, tie_break) == weight(b, model, tie_break);
    ||| preference(a, model) < preference(b, model)
    ||| same_preference && weight(a, model, tie_break) > weight(b, model, tie_break)
    ||| same_preference && same_weight && a.last_used < b.last_used
    ||| same_preference && same_weight && a.last_used == b.last_used && i <= j
}

/// The account at `i` is the one the policy picks.
pub open spec fn is_best(
    pool: Seq<PoolEntry>,
    model: Seq<char>,
    tried: Seq<String>,
    tie_break: TieBreak,
    i: int,
) -> bool {
    &&& is_candidate(pool, tried, i)
    &&& forall|j: int| #[trigger]
        is_candidate(pool, tried, j) ==> ranks_before(pool, model, tie_break, i, j)
}

/// The logical time after `now`; time stops at the largest value.
pub open spec fn next_tick(now: u64) -> u64 {
    if now == u64::MAX {
        now
    } else {
        (now + 1) as u64
    }
}

/// The policy never picks a barred account.
pub proof fn lemma_best_is_not_forbidden(
    pool: Seq<PoolEntry>,
    model: Seq<char>,
    tried: Seq<String>,
    tie_break: TieBreak,
    i: int,
)
    requires
        is_best(pool, model, tried, tie_break, i),
    ensures
        0 <= i < pool.len(),
        !pool[i].account.forbidden(),
        !listed(tried, pool[i].account.id@),
{
}

/// The policy is deterministic: at most one position is the pick.
pub proof fn lemma_best_is_unique(
    pool: Seq<PoolEntry>,
    model: Seq<char>,
    tried: Seq<String>,
    tie_break: TieBreak,
    i: int,
    j: int,
)
    requires
        is_best(pool, model, tried, tie_break, i),
        is_best(pool, model, tried, tie_break, j),
    ensures
        i == j,
{
    assert(ranks_before(pool, model, tie_break, i, j));
    assert(ranks_before(pool, model, tie_break, j, i));
}

/// Whether some element of `ids` reads `id`.
pub fn is_listed(ids: &Vec<String>, id: &str) -> (found: bool)
    ensures
        found == listed(ids@, id@),
{
    let mut k: usize = 0;
    while k < ids.len()
        invariant
            k <= ids.len(),
            forall|n: int| 0 <= n < k ==> (#[trigger] ids@[n])@ != id@,
        decreases ids.len() - k,
    {
        if same_text(ids[k].as_str(), id) {
            return true;
        }
        k += 1;
    }
    false
}

/// The pool of accounts a running gateway draws from.
#[derive(Debug)]
pub struct TokenManager {
    entries: Vec<PoolEntry>,
    clock: u64,
    selections: u64,
    tie_break: TieBreak,
}

impl TokenManager {
    /// The accounts in the pool, in the order they were loaded.
    pub closed spec fn pool(self) -> Seq<PoolEntry> {
        self.entries@
    }

    /// The logical time of the latest selection.
    pub closed spec fn ticks(self) -> u64 {
        self.clock
    }

    /// How many selections have succeeded.
    pub closed spec fn selection_count(self) -> u64 {
        self.selections
    }

    /// How ties between accounts are broken.
    pub closed spec fn policy(self) -> TieBreak {
        self.tie_break
    }

    /// What a selection for `model` that leaves out `tried` does to the
    /// pool `self`: `picked` is the pick of the policy and `after` is the
    /// pool with the pick stamped as the most recently used; or nobody can
    /// be picked and `after` is the pool as it was.
    pub open spec fn selection_made(
        self,
        after: TokenManager,
        model: Seq<char>,
        tried: Seq<String>,
        picked: Result<Selection, GatewayError>,
    ) -> bool {
        match picked {
            Ok(selection) => {
                let i = selection.index as int;
                &&& is_best(self.pool(), model, tried, self.policy(), i)
                &&& !self.pool()[i].account.forbidden()
                &&& selection.account_id@ == self.pool()[i].account.id@
                &&& selection.access_token@ == self.pool()[i].account.token.access()
                &&& after.pool() == self.pool().update(
                    i,
                    PoolEntry {
                        account: self.pool()[i].account,
                        last_used: next_tick(self.ticks()),
                    },
                )
                &&& after.ticks() == next_tick(self.ticks())
                &&& after.selection_count() == next_tick(self.selection_count())
                &&& after.policy() == self.policy()
            },
            Err(error) => {
                &&& error == GatewayError::NoEligibleAccount
                &&& forall|j: int| !is_candidate(self.pool(), tried, j)
                &&& after == self
            },
        }
    }

    /// A pool without accounts, in which ties go to the least recently
    /// used account.
    pub fn new() -> (manager: TokenManager)
        ensures
            manager.pool() == Seq::<PoolEntry>::empty(),
            manager.ticks() == 0,
            manager.selection_count() == 0,
            manager.policy() == TieBreak::LeastRecentlyUsed,
    {
        TokenManager {
            entries: Vec::new(),
            clock: 0,
            selections: 0,
            tie_break: TieBreak::LeastRecentlyUsed,
        }
    }

    /// Chooses how ties between accounts are broken from now on.
    pub fn set_tie_break(&mut self, tie_break: TieBreak)
        ensures
            final(self).policy() == tie_break,
            final(self).pool() == old(self).pool(),
            final(self).ticks() == old(self).ticks(),
            final(self).selection_count() == old(self).selection_count(),
    {
        self.tie_break = tie_break;
    }

    pub fn tie_break(&self) -> (tie_break: TieBreak)
        ensures
            tie_break == self.policy(),
    {
        self.tie_break
    }

    /// Replaces the pool with `accounts`, none of them used yet, and
    /// answers how many there are. An empty pool is an error: a gateway
    /// must not start on it.
    pub fn load(&mut self, accounts: Vec<Account>) -> (loaded: Result<usize, GatewayError>)
        ensures
            final(self).pool().len() == accounts@.len(),
            forall|i: int|
                0 <= i < accounts@.len() ==> (#[trigger] final(self).pool()[i]) == (PoolEntry {
                    account: accounts@[i],
                    last_used: 0,
                }),
            final(self).ticks() == 0,
            final(self).selection_count() == old(self).selection_count(),
            final(self).policy() == old(self).policy(),
            match loaded {
                Ok(count) => count == accounts@.len() && count > 0,
                Err(error) => error == GatewayError::PoolEmpty && accounts@.len() == 0,
            },
    {
        let count = accounts.len();
        let mut accounts = accounts;
        let ghost given = accounts@;
        let mut stack: Vec<Account> = Vec::new();
        while accounts.len() > 0
            invariant
                stack@.len() + accounts@.len() == given.len(),
                forall|i: int| 0 <= i < accounts@.len() ==> (#[trigger] accounts@[i]) == given[i],
                forall|i: int|
                    0 <= i < stack@.len() ==> (#[trigger] stack@[i]) == given[given.len() - 1 - i],
            decreases accounts.len(),
        {
            let account = accounts.pop().unwrap();
            stack.push(account);
        }
        let mut entries: Vec<PoolEntry> = Vec::new();
        while stack.len() > 0
            invariant
                stack@.len() + entries@.len() == given.len(),
                forall|i: int|
                    0 <= i < stack@.len() ==> (#[trigger] stack@[i]) == given[given.len() - 1 - i],
                forall|i: int|
                    0 <= i < entries@.len() ==> (#[trigger] entries@[i]) == (PoolEntry {
                        account: given[i],
                        last_used: 0,
                    }),
            decreases stack.len(),
        {
            let account = stack.pop().unwrap();
            entries.push(PoolEntry { account, last_used: 0 });
        }
        self.entries = entries;
        self.clock = 0;
        if count == 0 {
            Err(GatewayError::PoolEmpty)
        } else {
            Ok(count)
        }
    }

    pub fn len(&self) -> (count: usize)
        ensures
            count == self.pool().len(),
    {
        self.entries.len()
    }

    pub fn selections(&self) -> (count: u64)
        ensures
            count == self.selection_count(),
    {
        self.selections
    }

    /// The account at position `index`.
    pub fn account(&self, index: usize) -> (account: &Account)
        requires
            index < self.pool().len(),
        ensures
            *account == self.pool()[index as int].account,
    {
        &self.entries[index].account
    }

    /// The position of the first account that carries `id`.
    pub fn position(&self, id: &str) -> (found: Option<usize>)
        ensures
            match found {
                Some(at) => {
                    &&& at < self.pool().len()
                    &&& self.pool()[at as int].account.id@ == id@
                    &&& forall|k: int| 0 <= k < at ==> (#[trigger] self.pool()[k]).account.id@ != id@
                },
                None => forall|k: int|
                    0 <= k < self.pool().len() ==> (#[trigger] self.pool()[k]).account.id@ != id@,
            },
    {
        let mut i: usize = 0;
        while i < self.entries.len()
            invariant
                i <= self.entries.len(),
                forall|k: int| 0 <= k < i ==> (#[trigger] self.entries@[k]).account.id@ != id@,
            decreases self.entries.len() - i,
        {
            if same_text(self.entries[i].account.id.as_str(), id) {
                return Some(i);
            }
            i += 1;
        }
        None
    }

    /// Records that the backend refused `model` on the account `id` for
    /// want of quota. Answers whether the pool knows the account.
    pub fn mark_exhausted(&mut self, id: &str, model: &str) -> (known: bool)
        ensures
            final(self).ticks() == old(self).ticks(),
            final(self).selection_count() == old(self).selection_count(),
            final(self).policy() == old(self).policy(),
            final(self).pool().len() == old(self).pool().len(),
            known == exists|k: int|
                0 <= k < old(self).pool().len() && (#[trigger] old(self).pool()[k]).account.id@ == id@,
            !known ==> final(self).pool() == old(self).pool(),
            known ==> exists|at: int|
                {
                    &&& 0 <= at < old(self).pool().len()
                    &&& (#[trigger] old(self).pool()[at]).account.id@ == id@
                    &&& forall|k: int|
                        0 <= k < at ==> (#[trigger] old(self).pool()[k]).account.id@ != id@
                    &&& marked_exhausted(
                        old(self).pool()[at].account,
                        final(self).pool()[at].account,
                        model@,
                    )
                    &&& final(self).pool()[at].last_used == old(self).pool()[at].last_used
                    &&& forall|k: int|
                        0 <= k < old(self).pool().len() && k != at ==> (#[trigger] final(self).pool()[k]) == old(self).pool()[k]
                },
    {
        match self.position(id) {
            None => false,
            Some(at) => {
                self.entries[at].account.mark_exhausted(model);
                assert(old(self).pool()[at as int].account.id@ == id@);
                true
            },
        }
    }

    /// Installs a freshly fetched quota snapshot on the account `id`.
    /// Answers whether the pool knows the account.
    pub fn update_quota(&mut self, id: &str, quota: Quota) -> (known: bool)
        ensures
            final(self).ticks() == old(self).ticks(),
            final(self).selection_count() == old(self).selection_count(),
            final(self).policy() == old(self).policy(),
            final(self).pool().len() == old(self).pool().len(),
            known == exists|k: int|
                0 <= k < old(self).pool().len() && (#[trigger] old(self).pool()[k]).account.id@ == id@,
            !known ==> final(self).pool() == old(self).pool(),
            known ==> exists|at: int|
                {
                    &&& 0 <= at < old(self).pool().len()
                    &&& (#[trigger] old(self).pool()[at]).account.id@ == id@
                    &&& forall|k: int|
                        0 <= k < at ==> (#[trigger] old(self).pool()[k]).account.id@ != id@
                    &&& final(self).pool()[at].account.quota == Some(quota)
                    &&& final(self).pool()[at].account.id == old(self).pool()[at].account.id
                    &&& final(self).pool()[at].account.email == old(self).pool()[at].account.email
                    &&& final(self).pool()[at].account.name == old(self).pool()[at].account.name
                    &&& final(self).pool()[at].account.token == old(self).pool()[at].account.token
                    &&& final(self).pool()[at].last_used == old(self).pool()[at].last_used
                    &&& forall|k: int|
                        0 <= k < old(self).pool().len() && k != at ==> (#[trigger] final(self).pool()[k]) == old(self).pool()[k]
                },
    {
        match self.position(id) {
            None => false,
            Some(at) => {
                self.entries[at].account.quota = Some(quota);
                assert(old(self).pool()[at as int].account.id@ == id@);
                true
            },
        }
    }

    /// Closes a quota fetch for the account `id`. A fetched snapshot
    /// replaces the old one. A fetch that failed for good is reported, and
    /// the old snapshot stays: a stale quota is better than none.
    pub fn settle_quota_fetch(&mut self, id: &str, fetched: Option<Quota>) -> (settled: Result<
        bool,
        GatewayError,
    >)
        ensures
            final(self).ticks() == old(self).ticks(),
            final(self).selection_count() == old(self).selection_count(),
            final(self).policy() == old(self).policy(),
            final(self).pool().len() == old(self).pool().len(),
            match settled {
                Err(error) => {
                    &&& fetched is None
                    &&& error == GatewayError::QuotaFetchFailed
                    &&& final(self).pool() == old(self).pool()
                },
                Ok(known) => {
                    &&& fetched is Some
                    &&& known == exists|k: int|
                        0 <= k < old(self).pool().len() && (#[trigger] old(self).pool()[k]).account.id@ == id@
                    &&& !known ==> final(self).pool() == old(self).pool()
                    &&& known ==> exists|at: int|
                        {
                            &&& 0 <= at < old(self).pool().len()
                            &&& (#[trigger] old(self).pool()[at]).account.id@ == id@
                            &&& forall|k: int|
                                0 <= k < at ==> (#[trigger] old(self).pool()[k]).account.id@ != id@
                            &&& final(self).pool()[at].account.quota == fetched
                            &&& final(self).pool()[at].account.token == old(self).pool()[at].account.token
                            &&& final(self).pool()[at].last_used == old(self).pool()[at].last_used
                            &&& forall|k: int|
                                0 <= k < old(self).pool().len() && k != at ==> (#[trigger] final(self).pool()[k]) == old(self).pool()[k]
                        }
                },
            },
    {
        match fetched {
            None => Err(GatewayError::QuotaFetchFailed),
            Some(quota) => Ok(self.update_quota(id, quota)),
        }
    }

    /// Installs a renewed access token, obtained at `now` and valid for
    /// `expires_in` seconds, on the account `id`. Token and expiry are
    /// replaced together. Answers whether the pool knows the account.
    pub fn apply_token_refresh(
        &mut self,
        id: &str,
        access_token: String,
        expires_in: u64,
        now: u64,
    ) -> (known: bool)
        ensures
            final(self).ticks() == old(self).ticks(),
            final(self).selection_count() == old(self).selection_count(),
            final(self).policy() == old(self).policy(),
            final(self).pool().len() == old(self).pool().len(),
            known == exists|k: int|
                0 <= k < old(self).pool().len() && (#[trigger] old(self).pool()[k]).account.id@ == id@,
            !known ==> final(self).pool() == old(self).pool(),
            known ==> exists|at: int|
                {
                    &&& 0 <= at < old(self).pool().len()
                    &&& (#[trigger] old(self).pool()[at]).account.id@ == id@
                    &&& forall|k: int|
                        0 <= k < at ==> (#[trigger] old(self).pool()[k]).account.id@ != id@
                    &&& token_renewed(
                        old(self).pool()[at].account.token,
                        final(self).pool()[at].account.token,
                        access_token@,
                        expires_in,
                        now,
                    )
                    &&& final(self).pool()[at].account.id == old(self).pool()[at].account.id
                    &&& final(self).pool()[at].account.email == old(self).pool()[at].account.email
                    &&& final(self).pool()[at].account.name == old(self).pool()[at].account.name
                    &&& final(self).pool()[at].account.quota == old(self).pool()[at].account.quota
                    &&& final(self).pool()[at].last_used == old(self).pool()[at].last_used
                    &&& forall|k: int|
                        0 <= k < old(self).pool().len() && k != at ==> (#[trigger] final(self).pool()[k]) == old(self).pool()[k]
                },
    {
        match self.position(id) {
            None => false,
            Some(at) => {
                self.entries[at].account.token.replace_access(access_token, expires_in, now);
                assert(old(self).pool()[at as int].account.id@ == id@);
                true
            },
        }
    }

    /// Picks the account for a call to `model`, leaving out barred accounts
    /// and those listed in `tried`. Accounts known to have allowance left
    /// for `model` are preferred; among equals the least recently used one
    /// wins, and among those the one loaded first. The pick is stamped as
    /// the most recently used. With no account to pick, nothing changes.
    pub fn select_excluding(&mut self, model: &str, tried: &Vec<String>) -> (picked: Result<
        Selection,
        GatewayError,
    >)
        ensures
            old(self).selection_made(*final(self), model@, tried@, picked),
    {
        let mut best: Option<usize> = None;
        let mut best_preferred: bool = false;
        let mut best_weight: u64 = 0;
        let weighing = match self.tie_break {
            TieBreak::LeastRecentlyUsed => false,
            TieBreak::HighestRemaining => true,
        };
        let mut i: usize = 0;
        while i < self.entries.len()
            invariant
                *self == *old(self),
                weighing == (self.tie_break == TieBreak::HighestRemaining),
                i <= self.entries.len(),
                match best {
                    None => forall|j: int| j < i ==> !is_candidate(self.entries@, tried@, j),
                    Some(b) => {
                        &&& b < i
                        &&& is_candidate(self.entries@, tried@, b as int)
                        &&& best_preferred == self.entries@[b as int].account.unconsumed_for(model@)
                        &&& best_weight == weight(self.entries@[b as int], model@, self.tie_break)
                        &&& forall|j: int|
                            j < i && #[trigger] is_candidate(self.entries@, tried@, j)
                                ==> ranks_before(self.entries@, model@, self.tie_break, b as int, j)
                    },
                },
            decreases self.entries.len() - i,
        {
            let entry = &self.entries[i];
            if !entry.account.is_forbidden() && !is_listed(tried, entry.account.id.as_str()) {
                let left = entry.account.remaining(model);
                let preferred = left > 0;
                let heavy = if weighing {
                    left
                } else {
                    0
                };
                let better = match best {
                    None => true,
                    Some(b) => (preferred && !best_preferred) || (preferred == best_preferred && (
                    heavy > best_weight || (heavy == best_weight && entry.last_used
                        < self.entries[b].last_used))),
                };
                if better {
                    best = Some(i);
                    best_preferred = preferred;
                    best_weight = heavy;
                }
            }
            i += 1;
        }
        match best {
            None => Err(GatewayError::NoEligibleAccount),
            Some(b) => {
                let stamp = if self.clock == u64::MAX {
                    self.clock
                } else {
                    self.clock + 1
                };
                let selection = Selection {
                    index: b,
                    account_id: self.entries[b].account.id.clone(),
                    access_token: self.entries[b].account.token.access_token().clone(),
                };
                self.entries[b].last_used = stamp;
                self.clock = stamp;
                self.selections = if self.selections == u64::MAX {
                    self.selections
                } else {
                    self.selections + 1
                };
                Ok(selection)
            },
        }
    }

    /// Picks the account for a call to `model` among all accounts that are
    /// not barred.
    pub fn select(&mut self, model: &str) -> (picked: Result<Selection, GatewayError>)
        ensures
            old(self).selection_made(*final(self), model@, Seq::<String>::empty(), picked),
            picked is Ok ==> !old(self).pool()[picked->Ok_0.index as int].account.forbidden(),
            picked is Err ==> forall|j: int|
                0 <= j < old(self).pool().len() ==> (#[trigger] old(self).pool()[j]).account.forbidden(),
    {
        let nobody: Vec<String> = Vec::new();
        let picked = self.select_excluding(model, &nobody);
        proof {
            if picked is Err {
                assert forall|j: int| 0 <= j < old(self).pool().len() implies (#[trigger] old(self).pool()[j]).account.forbidden() by {
                    assert(!is_candidate(old(self).pool(), nobody@, j));
                }
            }
        }
        picked
    }
}

} // verus!
