//! Accounts, their tokens and quotas, and the rules that sit on them.

use crate::text::same_text;
use vstd::prelude::*;

verus! {

/// An independent copy of an optional text.
pub fn copy_optional_text(text: &Option<String>) -> (copy: Option<String>)
    ensures
        copy == *text,
{
    match text {
        Some(inner) => Some(inner.clone()),
        None => None,
    }
}

/// What is left of one model's allowance on an account.
#[derive(Debug)]
pub struct ModelQuota {
    pub name: String,
    pub remaining: u64,
    pub limit: u64,
}

impl ModelQuota {
    pub fn duplicate(&self) -> (copy: ModelQuota)
        ensures
            copy == *self,
    {
        ModelQuota { name: self.name.clone(), remaining: self.remaining, limit: self.limit }
    }
}

/// The last known entitlement of an account.
#[derive(Debug)]
pub struct Quota {
    pub subscription_tier: Option<String>,
    pub is_forbidden: bool,
    pub models: Vec<ModelQuota>,
}

impl Quota {
    /// Some entry for `model` still has allowance left.
    pub open spec fn unconsumed_for(self, model: Seq<char>) -> bool {
        exists|i: int|
            0 <= i < self.models@.len() && (#[trigger] self.models@[i]).name@ == model
                && self.models@[i].remaining > 0
    }

    pub fn duplicate(&self) -> (copy: Quota)
        ensures
            copy.subscription_tier == self.subscription_tier,
            copy.is_forbidden == self.is_forbidden,
            copy.models@ == self.models@,
    {
        let mut models: Vec<ModelQuota> = Vec::new();
        let mut i: usize = 0;
        while i < self.models.len()
            invariant
                i <= self.models.len(),
                models@ == self.models@.subrange(0, i as int),
            decreases self.models.len() - i,
        {
            models.push(self.models[i].duplicate());
            assert(models@ == self.models@.subrange(0, i + 1));
            i += 1;
        }
        assert(self.models@.subrange(0, self.models@.len() as int) == self.models@);
        Quota {
            subscription_tier: copy_optional_text(&self.subscription_tier),
            is_forbidden: self.is_forbidden,
            models,
        }
    }
}

/// The instant `lifetime` seconds after `now`, held at the largest
/// representable instant if it would lie beyond it.
pub open spec fn expiry_after(now: u64, lifetime: u64) -> u64 {
    if now + lifetime > u64::MAX {
        u64::MAX
    } else {
        (now + lifetime) as u64
    }
}

/// The credentials of one account. The access token and its expiry can only
/// be replaced together.
#[derive(Debug)]
pub struct TokenData {
    access_token: String,
    refresh_token: String,
    expires_in: u64,
    expiry_timestamp: u64,
    email: Option<String>,
    project_id: Option<String>,
    session_id: Option<String>,
}

impl TokenData {
    pub closed spec fn access(self) -> Seq<char> {
        self.access_token@
    }

    pub closed spec fn refresh(self) -> Seq<char> {
        self.refresh_token@
    }

    pub closed spec fn lifetime(self) -> u64 {
        self.expires_in
    }

    pub closed spec fn expiry(self) -> u64 {
        self.expiry_timestamp
    }

    pub closed spec fn owner(self) -> Option<String> {
        self.email
    }

    pub closed spec fn project(self) -> Option<String> {
        self.project_id
    }

    pub closed spec fn session(self) -> Option<String> {
        self.session_id
    }

    /// Credentials obtained at instant `now` that last `expires_in` seconds.
    pub fn new(
        access_token: String,
        refresh_token: String,
        expires_in: u64,
        now: u64,
        email: Option<String>,
        project_id: Option<String>,
        session_id: Option<String>,
    ) -> (token: TokenData)
        ensures
            token.access() == access_token@,
            token.refresh() == refresh_token@,
            token.lifetime() == expires_in,
            token.expiry() == expiry_after(now, expires_in),
            token.owner() == email,
            token.project() == project_id,
            token.session() == session_id,
    {
        let expiry_timestamp = if expires_in > u64::MAX - now {
            u64::MAX
        } else {
            now + expires_in
        };
        TokenData {
            access_token,
            refresh_token,
            expires_in,
            expiry_timestamp,
            email,
            project_id,
            session_id,
        }
    }

    /// Credentials as they were stored, expiry included.
    pub fn from_stored(
        access_token: String,
        refresh_token: String,
        expires_in: u64,
        expiry_timestamp: u64,
        email: Option<String>,
        project_id: Option<String>,
        session_id: Option<String>,
    ) -> (token: TokenData)
        ensures
            token.access() == access_token@,
            token.refresh() == refresh_token@,
            token.lifetime() == expires_in,
            token.expiry() == expiry_timestamp,
            token.owner() == email,
            token.project() == project_id,
            token.session() == session_id,
    {
        TokenData {
            access_token,
            refresh_token,
            expires_in,
            expiry_timestamp,
            email,
            project_id,
            session_id,
        }
    }

    pub fn access_token(&self) -> (text: &String)
        ensures
            text@ == self.access(),
    {
        &self.access_token
    }

    pub fn refresh_token(&self) -> (text: &String)
        ensures
            text@ == self.refresh(),
    {
        &self.refresh_token
    }

    pub fn expires_in(&self) -> (seconds: u64)
        ensures
            seconds == self.lifetime(),
    {
        self.expires_in
    }

    pub fn expiry_timestamp(&self) -> (instant: u64)
        ensures
            instant == self.expiry(),
    {
        self.expiry_timestamp
    }

    pub fn email(&self) -> (email: &Option<String>)
        ensures
            *email == self.owner(),
    {
        &self.email
    }

    pub fn project_id(&self) -> (project: &Option<String>)
        ensures
            *project == self.project(),
    {
        &self.project_id
    }

    pub fn session_id(&self) -> (session: &Option<String>)
        ensures
            *session == self.session(),
    {
        &self.session_id
    }

    /// The access token is no longer valid at instant `now`.
    pub fn is_expired(&self, now: u64) -> (expired: bool)
        ensures
            expired == (self.expiry() <= now),
    {
        self.expiry_timestamp <= now
    }

    /// Installs a fresh access token together with its expiry. Nothing else
    /// changes.
    pub fn replace_access(&mut self, access_token: String, expires_in: u64, now: u64)
        ensures
            final(self).access() == access_token@,
            final(self).lifetime() == expires_in,
            final(self).expiry() == expiry_after(now, expires_in),
            final(self).refresh() == old(self).refresh(),
            final(self).owner() == old(self).owner(),
            final(self).project() == old(self).project(),
            final(self).session() == old(self).session(),
    {
        let expiry_timestamp = if expires_in > u64::MAX - now {
            u64::MAX
        } else {
            now + expires_in
        };
        self.access_token = access_token;
        self.expires_in = expires_in;
        self.expiry_timestamp = expiry_timestamp;
    }

    pub fn duplicate(&self) -> (copy: TokenData)
        ensures
            copy == *self,
    {
        TokenData {
            access_token: self.access_token.clone(),
            refresh_token: self.refresh_token.clone(),
            expires_in: self.expires_in,
            expiry_timestamp: self.expiry_timestamp,
            email: copy_optional_text(&self.email),
            project_id: copy_optional_text(&self.project_id),
            session_id: copy_optional_text(&self.session_id),
        }
    }
}

/// The most that any entry for `model` has left; nothing if there is no
/// such entry.
pub open spec fn allowance(models: Seq<ModelQuota>, model: Seq<char>) -> nat
    decreases models.len(),
{
    if models.len() == 0 {
        0
    } else {
        let before = allowance(models.drop_last(), model);
        if models.last().name@ == model && models.last().remaining > before {
            models.last().remaining as nat
        } else {
            before
        }
    }
}

/// Some entry for `model` has something left exactly if the most that any
/// entry for it has left is more than nothing.
pub proof fn lemma_allowance_is_positive_iff_unconsumed(models: Seq<ModelQuota>, model: Seq<char>)
    ensures
        allowance(models, model) > 0 <==> exists|i: int|
            0 <= i < models.len() && (#[trigger] models[i]).name@ == model && models[i].remaining
                > 0,
        allowance(models, model) <= u64::MAX,
    decreases models.len(),
{
    if models.len() > 0 {
        let shorter = models.drop_last();
        lemma_allowance_is_positive_iff_unconsumed(shorter, model);
        if exists|i: int|
            0 <= i < models.len() && (#[trigger] models[i]).name@ == model && models[i].remaining
                > 0 {
            let i = choose|i: int|
                0 <= i < models.len() && (#[trigger] models[i]).name@ == model
                    && models[i].remaining > 0;
            if i < shorter.len() {
                assert(shorter[i].name@ == model && shorter[i].remaining > 0);
            }
        }
        if allowance(shorter, model) > 0 {
            let i = choose|i: int|
                0 <= i < shorter.len() && (#[trigger] shorter[i]).name@ == model
                    && shorter[i].remaining > 0;
            assert(models[i].name@ == model && models[i].remaining > 0);
        } else if allowance(models, model) > 0 {
            assert(models[models.len() - 1].name@ == model);
        }
    }
}

/// The quota entries with every entry for `model` set to nothing left.
pub open spec fn exhausted(models: Seq<ModelQuota>, model: Seq<char>) -> Seq<ModelQuota> {
    Seq::new(
        models.len(),
        |k: int|
            if models[k].name@ == model {
                ModelQuota { name: models[k].name, remaining: 0, limit: models[k].limit }
            } else {
                models[k]
            },
    )
}

/// `after` is `before` with the allowance for `model` used up, and nothing
/// else changed. An account without a quota snapshot stays as it is.
pub open spec fn marked_exhausted(before: Account, after: Account, model: Seq<char>) -> bool {
    &&& after.id == before.id
    &&& after.email == before.email
    &&& after.name == before.name
    &&& after.token == before.token
    &&& match before.quota {
        None => after.quota is None,
        Some(quota) => {
            &&& after.quota matches Some(left)
            &&& left.subscription_tier == quota.subscription_tier
            &&& left.is_forbidden == quota.is_forbidden
            &&& left.models@ == exhausted(quota.models@, model)
        },
    }
}

/// `after` is `before` with a new access token that was obtained at `now`
/// and lasts `expires_in` seconds. Token and expiry change together; the
/// rest of the credentials stays.
pub open spec fn token_renewed(
    before: TokenData,
    after: TokenData,
    access_token: Seq<char>,
    expires_in: u64,
    now: u64,
) -> bool {
    &&& after.access() == access_token
    &&& after.lifetime() == expires_in
    &&& after.expiry() == expiry_after(now, expires_in)
    &&& after.refresh() == before.refresh()
    &&& after.owner() == before.owner()
    &&& after.project() == before.project()
    &&& after.session() == before.session()
}

/// An account marked as exhausted for a model shows no allowance left for
/// it, and is barred exactly if it was barred before.
pub proof fn lemma_marked_exhausted(before: Account, after: Account, model: Seq<char>)
    requires
        marked_exhausted(before, after, model),
    ensures
        !after.unconsumed_for(model),
        after.forbidden() == before.forbidden(),
        forall|other: Seq<char>|
            other != model ==> after.unconsumed_for(other) == before.unconsumed_for(other),
{
    match before.quota {
        None => {},
        Some(quota) => {
            let left = after.quota->0;
            assert forall|other: Seq<char>| other != model implies after.unconsumed_for(other)
                == before.unconsumed_for(other) by {
                if before.unconsumed_for(other) {
                    let i = choose|i: int|
                        0 <= i < quota.models@.len() && (#[trigger] quota.models@[i]).name@ == other
                            && quota.models@[i].remaining > 0;
                    assert(left.models@[i].name@ == other);
                }
                if after.unconsumed_for(other) {
                    let i = choose|i: int|
                        0 <= i < left.models@.len() && (#[trigger] left.models@[i]).name@ == other
                            && left.models@[i].remaining > 0;
                    assert(quota.models@[i].name@ == other);
                }
            }
        },
    }
}

/// One authenticated identity that can call the backend.
#[derive(Debug)]
pub struct Account {
    pub id: String,
    pub email: String,
    pub name: Option<String>,
    pub token: TokenData,
    pub quota: Option<Quota>,
}

impl Account {
    /// The account is barred from use, whatever its per-model allowance says.
    pub open spec fn forbidden(self) -> bool {
        self.quota matches Some(quota) && quota.is_forbidden
    }

    /// The last known quota shows allowance left for `model`.
    pub open spec fn unconsumed_for(self, model: Seq<char>) -> bool {
        self.quota matches Some(quota) && quota.unconsumed_for(model)
    }

    /// The most that the last known quota shows as left for `model`.
    pub open spec fn remaining_for(self, model: Seq<char>) -> nat {
        match self.quota {
            Some(quota) => allowance(quota.models@, model),
            None => 0,
        }
    }

    /// The most that the last known quota shows as left for `model`:
    /// nothing if there is no quota or no entry for `model`.
    pub fn remaining(&self, model: &str) -> (left: u64)
        ensures
            left == self.remaining_for(model@),
            left > 0 <==> self.unconsumed_for(model@),
    {
        match &self.quota {
            None => 0,
            Some(quota) => {
                let mut left: u64 = 0;
                let mut i: usize = 0;
                while i < quota.models.len()
                    invariant
                        i <= quota.models.len(),
                        left == allowance(quota.models@.subrange(0, i as int), model@),
                    decreases quota.models.len() - i,
                {
                    proof {
                        let longer = quota.models@.subrange(0, i + 1);
                        assert(longer.drop_last() == quota.models@.subrange(0, i as int));
                        assert(longer.last() == quota.models@[i as int]);
                    }
                    if quota.models[i].remaining > left && same_text(
                        quota.models[i].name.as_str(),
                        model,
                    ) {
                        left = quota.models[i].remaining;
                    }
                    i += 1;
                }
                proof {
                    assert(quota.models@.subrange(0, quota.models@.len() as int) == quota.models@);
                    lemma_allowance_is_positive_iff_unconsumed(quota.models@, model@);
                }
                left
            },
        }
    }

    /// Whether the last known quota shows allowance left for `model`.
    pub fn has_unconsumed(&self, model: &str) -> (unconsumed: bool)
        ensures
            unconsumed == self.unconsumed_for(model@),
    {
        match &self.quota {
            None => false,
            Some(quota) => {
                let mut i: usize = 0;
                while i < quota.models.len()
                    invariant
                        self.quota == Some(*quota),
                        i <= quota.models.len(),
                        forall|k: int|
                            0 <= k < i ==> !((#[trigger] quota.models@[k]).name@ == model@
                                && quota.models@[k].remaining > 0),
                    decreases quota.models.len() - i,
                {
                    if quota.models[i].remaining > 0 && same_text(
                        quota.models[i].name.as_str(),
                        model,
                    ) {
                        assert(quota.models@[i as int].name@ == model@);
                        return true;
                    }
                    i += 1;
                }
                false
            },
        }
    }

    pub fn is_forbidden(&self) -> (forbidden: bool)
        ensures
            forbidden == self.forbidden(),
    {
        match &self.quota {
            Some(quota) => quota.is_forbidden,
            None => false,
        }
    }

    /// Records that the backend refused `model` for want of quota: every
    /// quota entry for `model` is set to nothing left.
    pub fn mark_exhausted(&mut self, model: &str)
        ensures
            marked_exhausted(*old(self), *final(self), model@),
    {
        let taken = self.quota.take();
        match taken {
            None => {},
            Some(quota) => {
                let mut quota = quota;
                let ghost before = quota.models@;
                let ghost tier = quota.subscription_tier;
                let ghost barred = quota.is_forbidden;
                let mut k: usize = 0;
                while k < quota.models.len()
                    invariant
                        quota.subscription_tier == tier,
                        quota.is_forbidden == barred,
                        k <= quota.models.len(),
                        quota.models@.len() == before.len(),
                        forall|n: int|
                            0 <= n < k ==> (#[trigger] quota.models@[n]) == exhausted(
                                before,
                                model@,
                            )[n],
                        forall|n: int| k <= n < before.len() ==> (#[trigger] quota.models@[n]) == before[n],
                    decreases quota.models.len() - k,
                {
                    if same_text(quota.models[k].name.as_str(), model) {
                        quota.models[k].remaining = 0;
                    }
                    k += 1;
                }
                assert(quota.models@ =~= exhausted(before, model@));
                self.quota = Some(quota);
            },
        }
    }

    /// Replaces the quota snapshot with a fresh one.
    pub fn update_quota(&mut self, quota: Quota)
        ensures
            final(self).quota == Some(quota),
            final(self).id == old(self).id,
            final(self).email == old(self).email,
            final(self).name == old(self).name,
            final(self).token == old(self).token,
    {
        self.quota = Some(quota);
    }
}

/// What a listing shows about an account's quota.
#[derive(Clone, Copy, Debug, PartialEq, Eq, Structural)]
pub enum QuotaStatus {
    /// No quota has been fetched yet.
    NotQueried,
    /// The account is barred.
    Forbidden,
    /// The account is usable and its quota lists this many models.
    Models(usize),
}

pub open spec fn quota_status_of(quota: Option<Quota>) -> QuotaStatus {
    match quota {
        None => QuotaStatus::NotQueried,
        Some(quota) => if quota.is_forbidden {
            QuotaStatus::Forbidden
        } else {
            QuotaStatus::Models(quota.models@.len() as usize)
        },
    }
}

pub fn quota_status(quota: &Option<Quota>) -> (status: QuotaStatus)
    ensures
        status == quota_status_of(*quota),
{
    match quota {
        None => QuotaStatus::NotQueried,
        Some(quota) => if quota.is_forbidden {
            QuotaStatus::Forbidden
        } else {
            QuotaStatus::Models(quota.models.len())
        },
    }
}

/// How many of `accounts` are not barred. An account whose quota was never
/// fetched counts as usable.
pub open spec fn usable_count(accounts: Seq<Account>) -> nat {
    accounts.filter(is_usable()).len()
}

/// The test that `usable_count` applies to each account.
pub open spec fn is_usable() -> spec_fn(Account) -> bool {
    |account: Account| !account.forbidden()
}

pub fn count_usable(accounts: &Vec<Account>) -> (count: usize)
    ensures
        count == usable_count(accounts@),
        count <= accounts.len(),
{
    let mut count: usize = 0;
    let mut i: usize = 0;
    while i < accounts.len()
        invariant
            i <= accounts.len(),
            count <= i,
            count == accounts@.subrange(0, i as int).filter(is_usable()).len(),
        decreases accounts.len() - i,
    {
        proof {
            let before = accounts@.subrange(0, i as int);
            assert(accounts@.subrange(0, i + 1) == before.push(accounts@[i as int]));
            assert(before.push(accounts@[i as int]).drop_last() == before);
            reveal(Seq::filter);
        }
        if !accounts[i].is_forbidden() {
            count += 1;
        }
        i += 1;
    }
    assert(accounts@.subrange(0, accounts@.len() as int) == accounts@);
    count
}

} // verus!
