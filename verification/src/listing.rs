//! What the listings and summaries of accounts show.

use crate::account::{copy_optional_text, quota_status, quota_status_of, Account, QuotaStatus};
use crate::sequences::lemma_filter_push;
use crate::text::same_text;
use vstd::prelude::*;
use vstd::string::StringSliceAdditionalSpecFns;
use vstd::utf8::{encode_utf8, is_char_boundary};

verus! {

/// How many bytes of an identifier a listing shows.
pub const SHORT_ID_BYTES: usize = 8;

/// The identifier can be cut after its first eight bytes: it has that
/// many, and the cut does not split a character.
pub open spec fn can_shorten(id: Seq<char>) -> bool {
    is_char_boundary(encode_utf8(id), SHORT_ID_BYTES as int)
}

/// `short` is the text of the first eight bytes of `id`.
pub open spec fn is_short_form(id: Seq<char>, short: Seq<char>) -> bool {
    encode_utf8(short) == encode_utf8(id).subrange(0, SHORT_ID_BYTES as int)
}

/// The first eight bytes of an identifier, where it can be cut there.
pub fn short_id(id: &str) -> (short: Option<&str>)
    ensures
        match short {
            Some(short) => can_shorten(id@) && is_short_form(id@, short@),
            None => !can_shorten(id@),
        },
{
    if id.is_char_boundary(SHORT_ID_BYTES) {
        let (head, _) = id.split_at(SHORT_ID_BYTES);
        Some(head)
    } else {
        None
    }
}

/// One line of the listing of accounts.
#[derive(Debug)]
pub struct AccountRow {
    /// The account is the current one; its line is marked and set off.
    pub is_current: bool,
    pub short_id: String,
    pub email: String,
    pub name: Option<String>,
    pub subscription: Option<String>,
    pub status: QuotaStatus,
}

/// The text of an optional string.
pub open spec fn optional_text(text: Option<String>) -> Option<Seq<char>> {
    match text {
        Some(text) => Some(text@),
        None => None,
    }
}

/// The subscription a listing shows for an account: that of its quota, if
/// it has a quota and the quota names one.
pub open spec fn subscription_of(account: Account) -> Option<String> {
    match account.quota {
        Some(quota) => quota.subscription_tier,
        None => None,
    }
}

/// `row` is the line for `account` in a listing in which `current` is the
/// identifier of the current account.
pub open spec fn is_row_of(row: AccountRow, account: Account, current: Option<Seq<char>>) -> bool {
    &&& row.is_current == (current == Some(account.id@))
    &&& is_short_form(account.id@, row.short_id@)
    &&& row.email == account.email
    &&& row.name == account.name
    &&& row.subscription == subscription_of(account)
    &&& row.status == quota_status_of(account.quota)
}

/// Every identifier among `accounts` can be cut to its short form.
pub open spec fn all_shortenable(accounts: Seq<Account>) -> bool {
    forall|i: int| 0 <= i < accounts.len() ==> can_shorten((#[trigger] accounts[i]).id@)
}

/// Whether a listing of `accounts` can be made.
pub fn can_list(accounts: &Vec<Account>) -> (possible: bool)
    ensures
        possible == all_shortenable(accounts@),
{
    let mut i: usize = 0;
    while i < accounts.len()
        invariant
            i <= accounts.len(),
            forall|k: int| 0 <= k < i ==> can_shorten((#[trigger] accounts@[k]).id@),
        decreases accounts.len() - i,
    {
        if !accounts[i].id.as_str().is_char_boundary(SHORT_ID_BYTES) {
            return false;
        }
        i += 1;
    }
    true
}

/// The line for one account.
pub fn account_row(account: &Account, current: &Option<String>) -> (row: AccountRow)
    requires
        can_shorten(account.id@),
    ensures
        is_row_of(row, *account, optional_text(*current)),
{
    let is_current = match current {
        Some(id) => same_text(id.as_str(), account.id.as_str()),
        None => false,
    };
    let (head, _) = account.id.as_str().split_at(SHORT_ID_BYTES);
    let subscription = match &account.quota {
        Some(quota) => copy_optional_text(&quota.subscription_tier),
        None => None,
    };
    AccountRow {
        is_current,
        short_id: head.to_owned(),
        email: account.email.clone(),
        name: copy_optional_text(&account.name),
        subscription,
        status: quota_status(&account.quota),
    }
}

/// The listing of `accounts`, one line each, in their order.
pub fn account_rows(accounts: &Vec<Account>, current: &Option<String>) -> (rows: Vec<AccountRow>)
    requires
        all_shortenable(accounts@),
    ensures
        rows@.len() == accounts@.len(),
        forall|i: int|
            0 <= i < accounts@.len() ==> is_row_of(
                #[trigger] rows@[i],
                accounts@[i],
                optional_text(*current),
            ),
{
    let mut rows: Vec<AccountRow> = Vec::new();
    let mut i: usize = 0;
    while i < accounts.len()
        invariant
            all_shortenable(accounts@),
            i <= accounts.len(),
            rows@.len() == i,
            forall|k: int|
                0 <= k < i ==> is_row_of(#[trigger] rows@[k], accounts@[k], optional_text(*current)),
        decreases accounts.len() - i,
    {
        rows.push(account_row(&accounts[i], current));
        i += 1;
    }
    rows
}

/// How the refresh of one account's quota ended.
#[derive(Clone, Copy, Debug, PartialEq, Eq, Structural)]
pub enum RefreshOutcome {
    /// The quota was fetched and stored.
    Saved,
    /// The quota was fetched, but could not be stored.
    SaveFailed,
    /// The quota could not be fetched.
    FetchFailed,
}

/// The result of refreshing a list of accounts, in all.
#[derive(Clone, Copy, Debug, PartialEq, Eq, Structural)]
pub struct RefreshTally {
    pub succeeded: usize,
    pub failed: usize,
}

/// The test "this refresh succeeded".
pub open spec fn succeeded() -> spec_fn(RefreshOutcome) -> bool {
    |outcome: RefreshOutcome| outcome == RefreshOutcome::Saved
}

/// Every account counts once: as a success if its quota was fetched and
/// stored, as a failure otherwise. One account's failure does not touch
/// the count of the others.
pub open spec fn tally_of(outcomes: Seq<RefreshOutcome>) -> RefreshTally {
    let good = outcomes.filter(succeeded()).len();
    RefreshTally { succeeded: good as usize, failed: (outcomes.len() - good) as usize }
}

/// Sums up the refresh of a list of accounts.
pub fn tally_refresh(outcomes: &Vec<RefreshOutcome>) -> (tally: RefreshTally)
    ensures
        tally == tally_of(outcomes@),
        tally.succeeded + tally.failed == outcomes@.len(),
{
    let mut tally = RefreshTally { succeeded: 0, failed: 0 };
    let mut i: usize = 0;
    while i < outcomes.len()
        invariant
            i <= outcomes.len(),
            tally.succeeded == outcomes@.subrange(0, i as int).filter(succeeded()).len(),
            tally.succeeded + tally.failed == i,
        decreases outcomes.len() - i,
    {
        proof {
            let seen = outcomes@.subrange(0, i as int);
            assert(outcomes@.subrange(0, i + 1) == seen.push(outcomes@[i as int]));
            lemma_filter_push(seen, outcomes@[i as int], succeeded());
        }
        match outcomes[i] {
            RefreshOutcome::Saved => {
                tally.succeeded += 1;
            },
            _ => {
                tally.failed += 1;
            },
        }
        i += 1;
    }
    assert(outcomes@.subrange(0, outcomes@.len() as int) == outcomes@);
    tally
}

} // verus!
