//! Renewal of tokens and quotas: who may start a token refresh and who has
//! to wait for one that is under way, and how often and how patiently a
//! quota fetch is repeated.

use crate::account::copy_optional_text;
use crate::sequences::lemma_filter_push;
use crate::text::same_text;
use vstd::arithmetic::power2::{lemma_pow2_unfold, pow2};
use vstd::prelude::*;

verus! {

/// A caller that waits for the refresh of an account's token.
#[derive(Debug)]
pub struct Waiter {
    pub account_id: String,
    pub caller: u64,
}

/// What a caller that asks for a refresh has to do.
#[derive(Clone, Copy, Debug, PartialEq, Eq, Structural)]
pub enum RefreshTicket {
    /// No refresh of this account is under way: perform it.
    Start,
    /// A refresh of this account is under way: wait for its result.
    Join,
}

/// The result of a refresh as one waiting caller receives it. Without a
/// token the refresh has failed.
#[derive(Debug)]
pub struct Delivery {
    pub caller: u64,
    pub access_token: Option<String>,
}

/// A refresh of the account `id` is under way.
pub open spec fn in_flight(waiting: Seq<Waiter>, id: Seq<char>) -> bool {
    exists|k: int| 0 <= k < waiting.len() && (#[trigger] waiting[k]).account_id@ == id
}

/// The test "this caller waits for the account `id`".
pub open spec fn waits_for(id: Seq<char>) -> spec_fn(Waiter) -> bool {
    |waiter: Waiter| waiter.account_id@ == id
}

/// The test "this caller waits for another account than `id`".
pub open spec fn waits_for_another(id: Seq<char>) -> spec_fn(Waiter) -> bool {
    |waiter: Waiter| waiter.account_id@ != id
}

/// The ticket a request for `id` gets when `waiting` are the callers
/// already waiting.
pub open spec fn ticket_for(waiting: Seq<Waiter>, id: Seq<char>) -> RefreshTicket {
    if in_flight(waiting, id) {
        RefreshTicket::Join
    } else {
        RefreshTicket::Start
    }
}

/// The tickets handed to `arrivals`, who ask one after the other while
/// `waiting` are already there and no refresh completes in between.
pub open spec fn tickets(waiting: Seq<Waiter>, arrivals: Seq<Waiter>) -> Seq<RefreshTicket> {
    Seq::new(
        arrivals.len(),
        |k: int| ticket_for(waiting + arrivals.take(k), arrivals[k].account_id@),
    )
}

/// However many callers ask for a refresh of one account before it
/// completes, and whatever requests for other accounts arrive in between,
/// only the first of them is told to perform it; all the others join.
pub proof fn lemma_one_refresh_per_account(
    waiting: Seq<Waiter>,
    arrivals: Seq<Waiter>,
    id: Seq<char>,
)
    requires
        !in_flight(waiting, id),
    ensures
        forall|k: int|
            0 <= k < arrivals.len() && (#[trigger] arrivals[k]).account_id@ == id ==> (tickets(
                waiting,
                arrivals,
            )[k] == RefreshTicket::Start <==> forall|m: int|
                0 <= m < k ==> (#[trigger] arrivals[m]).account_id@ != id),
{
    assert forall|k: int|
        0 <= k < arrivals.len() && (#[trigger] arrivals[k]).account_id@ == id implies (tickets(
        waiting,
        arrivals,
    )[k] == RefreshTicket::Start <==> forall|m: int|
        0 <= m < k ==> (#[trigger] arrivals[m]).account_id@ != id) by {
        let before = waiting + arrivals.take(k);
        if in_flight(before, id) {
            let n = choose|n: int| 0 <= n < before.len() && (#[trigger] before[n]).account_id@ == id;
            if n < waiting.len() {
                assert(waiting[n].account_id@ == id);
            } else {
                assert(arrivals[n - waiting.len()].account_id@ == id);
            }
        } else {
            assert forall|m: int| 0 <= m < k implies (#[trigger] arrivals[m]).account_id@ != id by {
                assert(before[waiting.len() + m].account_id@ == arrivals[m].account_id@);
            }
        }
    }
}

/// The callers that wait on token refreshes, in the order they asked.
#[derive(Debug)]
pub struct RefreshRegistry {
    pending: Vec<Waiter>,
}

impl RefreshRegistry {
    /// Everyone who waits, in the order they asked.
    pub closed spec fn waiting(self) -> Seq<Waiter> {
        self.pending@
    }

    /// A registry in which nobody waits.
    pub fn new() -> (registry: RefreshRegistry)
        ensures
            registry.waiting() == Seq::<Waiter>::empty(),
    {
        RefreshRegistry { pending: Vec::new() }
    }

    /// Whether a refresh of the account `id` is under way.
    pub fn is_in_flight(&self, id: &str) -> (busy: bool)
        ensures
            busy == in_flight(self.waiting(), id@),
    {
        let mut k: usize = 0;
        while k < self.pending.len()
            invariant
                k <= self.pending.len(),
                forall|n: int| 0 <= n < k ==> (#[trigger] self.pending@[n]).account_id@ != id@,
            decreases self.pending.len() - k,
        {
            if same_text(self.pending[k].account_id.as_str(), id) {
                return true;
            }
            k += 1;
        }
        false
    }

    /// Registers `caller` as waiting for a refresh of the account `id`, and
    /// tells it whether to perform the refresh or to wait for the one that
    /// is under way.
    pub fn request(&mut self, id: &str, caller: u64) -> (ticket: RefreshTicket)
        ensures
            ticket == ticket_for(old(self).waiting(), id@),
            final(self).waiting().len() == old(self).waiting().len() + 1,
            final(self).waiting().drop_last() == old(self).waiting(),
            final(self).waiting().last().account_id@ == id@,
            final(self).waiting().last().caller == caller,
    {
        let ticket = if self.is_in_flight(id) {
            RefreshTicket::Join
        } else {
            RefreshTicket::Start
        };
        self.pending.push(Waiter { account_id: id.to_owned(), caller });
        assert(self.pending@.drop_last() == old(self).pending@);
        ticket
    }

    /// Closes the refresh of the account `id`: everyone who waited for it
    /// receives the same result, in the order they asked, and stops
    /// waiting. Callers that wait for other accounts are not touched.
    pub fn complete(&mut self, id: &str, access_token: &Option<String>) -> (deliveries: Vec<
        Delivery,
    >)
        ensures
            final(self).waiting() == old(self).waiting().filter(waits_for_another(id@)),
            !in_flight(final(self).waiting(), id@),
            deliveries@.len() == old(self).waiting().filter(waits_for(id@)).len(),
            forall|k: int|
                0 <= k < deliveries@.len() ==> (#[trigger] deliveries@[k]).caller == old(
                    self,
                ).waiting().filter(waits_for(id@))[k].caller && deliveries@[k].access_token
                    == *access_token,
    {
        let mut kept: Vec<Waiter> = Vec::new();
        let mut deliveries: Vec<Delivery> = Vec::new();
        let mut i: usize = 0;
        while i < self.pending.len()
            invariant
                *self == *old(self),
                i <= self.pending.len(),
                kept@ == self.pending@.subrange(0, i as int).filter(waits_for_another(id@)),
                deliveries@.len() == self.pending@.subrange(0, i as int).filter(
                    waits_for(id@),
                ).len(),
                forall|k: int|
                    0 <= k < deliveries@.len() ==> (#[trigger] deliveries@[k]).caller
                        == self.pending@.subrange(0, i as int).filter(waits_for(id@))[k].caller
                        && deliveries@[k].access_token == *access_token,
            decreases self.pending.len() - i,
        {
            proof {
                let seen = self.pending@.subrange(0, i as int);
                assert(self.pending@.subrange(0, i + 1) == seen.push(self.pending@[i as int]));
                lemma_filter_push(seen, self.pending@[i as int], waits_for(id@));
                lemma_filter_push(seen, self.pending@[i as int], waits_for_another(id@));
            }
            let waiter = &self.pending[i];
            if same_text(waiter.account_id.as_str(), id) {
                deliveries.push(
                    Delivery {
                        caller: waiter.caller,
                        access_token: copy_optional_text(access_token),
                    },
                );
            } else {
                kept.push(Waiter { account_id: waiter.account_id.clone(), caller: waiter.caller });
            }
            i += 1;
        }
        assert(self.pending@.subrange(0, self.pending@.len() as int) == self.pending@);
        self.pending = kept;
        proof {
            let left = self.pending@;
            if in_flight(left, id@) {
                let n = choose|n: int| 0 <= n < left.len() && (#[trigger] left[n]).account_id@ == id@;
                old(self).pending@.lemma_filter_pred(waits_for_another(id@), n);
            }
        }
        deliveries
    }
}

/// How often a quota fetch is tried, and how long the first pause is.
#[derive(Clone, Copy, Debug, PartialEq, Eq, Structural)]
pub struct RetryPolicy {
    /// The most attempts one fetch makes.
    pub max_attempts: u32,
    /// The pause, in milliseconds, before the second attempt.
    pub base_delay_ms: u64,
}

/// What to do next in a quota fetch.
#[derive(Clone, Copy, Debug, PartialEq, Eq, Structural)]
pub enum FetchStep {
    /// Wait this long, then try.
    Attempt { delay_ms: u64 },
    /// Stop trying: the fetch has failed.
    GiveUp,
}

/// The pause before the attempt that follows `failures` failed ones: none
/// before the first attempt, then the base pause, doubled after every
/// further failure, and held at the largest representable pause.
pub open spec fn backoff_delay(base_delay_ms: u64, failures: nat) -> u64 {
    if failures == 0 {
        0
    } else if base_delay_ms * pow2((failures - 1) as nat) > u64::MAX {
        u64::MAX
    } else {
        (base_delay_ms * pow2((failures - 1) as nat)) as u64
    }
}

/// The next step of a fetch that has failed `failures` times.
pub open spec fn fetch_step(policy: RetryPolicy, failures: u32) -> FetchStep {
    if failures < policy.max_attempts {
        FetchStep::Attempt { delay_ms: backoff_delay(policy.base_delay_ms, failures as nat) }
    } else {
        FetchStep::GiveUp
    }
}

/// A fetch never makes more attempts than the cap allows: another attempt
/// is due exactly while the failures are fewer than the cap, and before
/// the first attempt there is no pause.
pub proof fn lemma_fetch_attempts_are_capped(policy: RetryPolicy, failures: u32)
    ensures
        fetch_step(policy, failures) is Attempt <==> failures < policy.max_attempts,
        fetch_step(policy, failures) is GiveUp <==> failures >= policy.max_attempts,
        policy.max_attempts > 0 ==> fetch_step(policy, 0) == (FetchStep::Attempt { delay_ms: 0 }),
{
}

/// Pauses never get shorter: after every further failure the pause is at
/// least what it was, and twice that unless it is held at the largest
/// representable pause.
pub proof fn lemma_backoff_grows(base_delay_ms: u64, failures: nat)
    requires
        failures >= 1,
    ensures
        backoff_delay(base_delay_ms, failures) <= backoff_delay(base_delay_ms, failures + 1),
        backoff_delay(base_delay_ms, failures + 1) == if 2 * backoff_delay(base_delay_ms, failures)
            > u64::MAX {
            u64::MAX
        } else {
            (2 * backoff_delay(base_delay_ms, failures)) as u64
        },
{
    let exact = base_delay_ms * pow2((failures - 1) as nat);
    lemma_pow2_unfold(failures);
    assert(base_delay_ms * pow2(failures) == 2 * exact) by (nonlinear_arith)
        requires
            pow2(failures) == 2 * pow2((failures - 1) as nat),
            exact == base_delay_ms * pow2((failures - 1) as nat),
    ;
    assert(exact >= 0) by (nonlinear_arith)
        requires
            exact == base_delay_ms * pow2((failures - 1) as nat),
    ;
}

impl RetryPolicy {
    /// The next step of a fetch that has failed `failures` times: another
    /// attempt after the pause that is due, or no more attempts once the
    /// cap is reached.
    pub fn next_fetch_step(&self, failures: u32) -> (step: FetchStep)
        ensures
            step == fetch_step(*self, failures),
    {
        if failures >= self.max_attempts {
            return FetchStep::GiveUp;
        }
        if failures == 0 {
            return FetchStep::Attempt { delay_ms: 0 };
        }
        let mut delay: u64 = self.base_delay_ms;
        let mut doubled: u32 = 1;
        proof {
            lemma_pow2_unfold(1);
            assert(pow2(0) == 1) by {
                vstd::arithmetic::power2::lemma2_to64();
            }
            assert(self.base_delay_ms * pow2(0) == self.base_delay_ms);
        }
        while doubled < failures
            invariant
                1 <= doubled <= failures,
                delay == backoff_delay(self.base_delay_ms, doubled as nat),
            decreases failures - doubled,
        {
            proof {
                let exact = self.base_delay_ms * pow2((doubled - 1) as nat);
                lemma_pow2_unfold(doubled as nat);
                assert(self.base_delay_ms * pow2(doubled as nat) == 2 * exact) by (nonlinear_arith)
                    requires
                        pow2(doubled as nat) == 2 * pow2((doubled - 1) as nat),
                        exact == self.base_delay_ms * pow2((doubled - 1) as nat),
                ;
            }
            delay = if delay > u64::MAX / 2 {
                u64::MAX
            } else {
                delay * 2
            };
            doubled += 1;
        }
        FetchStep::Attempt { delay_ms: delay }
    }
}

} // verus!
