//! The index of known accounts: who exists, and which one is current.

use crate::account::copy_optional_text;
use crate::sequences::lemma_filter_push;
use crate::text::{is_prefix_of, same_text, starts_with};
use vstd::prelude::*;

verus! {

/// The index's entry for one account.
#[derive(Debug)]
pub struct AccountSummary {
    pub id: String,
    pub email: String,
    pub name: Option<String>,
}

impl AccountSummary {
    pub fn duplicate(&self) -> (copy: AccountSummary)
        ensures
            copy == *self,
    {
        AccountSummary {
            id: self.id.clone(),
            email: self.email.clone(),
            name: copy_optional_text(&self.name),
        }
    }
}

/// Why a user-supplied identifier could not be resolved.
#[derive(Clone, Copy, Debug, PartialEq, Eq, Structural)]
pub enum ResolveError {
    /// No identifier equals it or begins with it.
    NotFound,
    /// It is not an identifier itself, and several identifiers begin with it.
    Ambiguous,
}

/// Some entry carries exactly the identifier `id`.
pub open spec fn has_id(entries: Seq<AccountSummary>, id: Seq<char>) -> bool {
    exists|i: int| 0 <= i < entries.len() && (#[trigger] entries[i]).id@ == id
}

/// No two entries carry the same identifier.
pub open spec fn distinct_ids(entries: Seq<AccountSummary>) -> bool {
    forall|i: int, j: int|
        0 <= i < j < entries.len() ==> (#[trigger] entries[i]).id@ != (#[trigger] entries[j]).id@
}

/// The test "this entry's identifier begins with `wanted`".
pub open spec fn begins_with(wanted: Seq<char>) -> spec_fn(AccountSummary) -> bool {
    |entry: AccountSummary| is_prefix_of(wanted, entry.id@)
}

/// The identifier that `wanted` stands for: itself if it is a known
/// identifier; otherwise the one known identifier that begins with it.
pub open spec fn resolution(entries: Seq<AccountSummary>, wanted: Seq<char>) -> Result<
    Seq<char>,
    ResolveError,
> {
    let candidates = entries.filter(begins_with(wanted));
    if has_id(entries, wanted) {
        Ok(wanted)
    } else if candidates.len() == 0 {
        Err(ResolveError::NotFound)
    } else if candidates.len() == 1 {
        Ok(candidates[0].id@)
    } else {
        Err(ResolveError::Ambiguous)
    }
}

/// Resolves a full identifier or an unambiguous beginning of one.
pub fn resolve_among(entries: &Vec<AccountSummary>, wanted: &str) -> (resolved: Result<
    String,
    ResolveError,
>)
    ensures
        match resolved {
            Ok(id) => resolution(entries@, wanted@) == Ok::<Seq<char>, ResolveError>(id@),
            Err(error) => resolution(entries@, wanted@) == Err::<Seq<char>, ResolveError>(error),
        },
{
    let mut i: usize = 0;
    while i < entries.len()
        invariant
            i <= entries.len(),
            !has_id(entries@.subrange(0, i as int), wanted@),
        decreases entries.len() - i,
    {
        if same_text(entries[i].id.as_str(), wanted) {
            assert(has_id(entries@, wanted@));
            return Ok(entries[i].id.clone());
        }
        proof {
            let longer = entries@.subrange(0, i + 1);
            if has_id(longer, wanted@) {
                let k = choose|k: int| 0 <= k < longer.len() && (#[trigger] longer[k]).id@ == wanted@;
                if k < i {
                    assert(entries@.subrange(0, i as int)[k].id@ == wanted@);
                }
            }
        }
        i += 1;
    }
    assert(entries@.subrange(0, entries@.len() as int) == entries@);
    let mut count: usize = 0;
    let mut first: usize = 0;
    let mut j: usize = 0;
    while j < entries.len()
        invariant
            j <= entries.len(),
            count <= j,
            count == entries@.subrange(0, j as int).filter(begins_with(wanted@)).len(),
            count > 0 ==> first < j && entries@.subrange(0, j as int).filter(
                begins_with(wanted@),
            )[0] == entries@[first as int],
        decreases entries.len() - j,
    {
        proof {
            let before = entries@.subrange(0, j as int);
            assert(entries@.subrange(0, j + 1) == before.push(entries@[j as int]));
            lemma_filter_push(before, entries@[j as int], begins_with(wanted@));
        }
        if starts_with(entries[j].id.as_str(), wanted) {
            if count == 0 {
                first = j;
            }
            count += 1;
        }
        j += 1;
    }
    assert(entries@.subrange(0, entries@.len() as int) == entries@);
    if count == 0 {
        Err(ResolveError::NotFound)
    } else if count == 1 {
        Ok(entries[first].id.clone())
    } else {
        Err(ResolveError::Ambiguous)
    }
}

/// Every known account, and which of them is current.
#[derive(Debug)]
pub struct AccountIndex {
    accounts: Vec<AccountSummary>,
    current_account_id: Option<String>,
}

/// The current selection, if any, names one of the entries, and no
/// identifier occurs twice.
pub open spec fn consistent(entries: Seq<AccountSummary>, current: Option<Seq<char>>) -> bool {
    &&& distinct_ids(entries)
    &&& current matches Some(id) ==> has_id(entries, id)
}

/// The position of the entry that carries `id`, searched from the front.
fn find_entry(entries: &Vec<AccountSummary>, id: &str) -> (found: Option<usize>)
    ensures
        match found {
            Some(at) => at < entries.len() && entries@[at as int].id@ == id@,
            None => !has_id(entries@, id@),
        },
{
    let mut i: usize = 0;
    while i < entries.len()
        invariant
            i <= entries.len(),
            forall|k: int| 0 <= k < i ==> (#[trigger] entries@[k]).id@ != id@,
        decreases entries.len() - i,
    {
        if same_text(entries[i].id.as_str(), id) {
            return Some(i);
        }
        i += 1;
    }
    None
}

/// Whether no identifier occurs twice among `entries`.
fn all_distinct(entries: &Vec<AccountSummary>) -> (distinct: bool)
    ensures
        distinct == distinct_ids(entries@),
{
    let mut j: usize = 0;
    while j < entries.len()
        invariant
            j <= entries.len(),
            distinct_ids(entries@.subrange(0, j as int)),
        decreases entries.len() - j,
    {
        let mut i: usize = 0;
        while i < j
            invariant
                i <= j < entries.len(),
                forall|k: int| 0 <= k < i ==> (#[trigger] entries@[k]).id@ != entries@[j as int].id@,
            decreases j - i,
        {
            if same_text(entries[i].id.as_str(), entries[j].id.as_str()) {
                return false;
            }
            i += 1;
        }
        proof {
            let shorter = entries@.subrange(0, j as int);
            let longer = entries@.subrange(0, j + 1);
            assert forall|a: int, b: int| 0 <= a < b < longer.len() implies (#[trigger] longer[a]).id@
                != (#[trigger] longer[b]).id@ by {
                if b < j {
                    assert(shorter[a].id@ != shorter[b].id@);
                }
            }
        }
        j += 1;
    }
    assert(entries@.subrange(0, entries@.len() as int) == entries@);
    true
}

impl AccountIndex {
    /// The entries, in the order they were added.
    pub closed spec fn entries(self) -> Seq<AccountSummary> {
        self.accounts@
    }

    /// The identifier of the current account, if one is selected.
    pub closed spec fn current(self) -> Option<Seq<char>> {
        match self.current_account_id {
            Some(id) => Some(id@),
            None => None,
        }
    }

    pub open spec fn well_formed(self) -> bool {
        consistent(self.entries(), self.current())
    }

    /// An index without accounts.
    pub fn new() -> (index: AccountIndex)
        ensures
            index.well_formed(),
            index.entries() == Seq::<AccountSummary>::empty(),
            index.current() is None,
    {
        AccountIndex { accounts: Vec::new(), current_account_id: None }
    }

    /// An index made of stored parts, or nothing if the parts contradict
    /// each other: an identifier listed twice, or a current selection that
    /// names no entry.
    pub fn from_parts(accounts: Vec<AccountSummary>, current_account_id: Option<String>) -> (index:
        Option<AccountIndex>)
        ensures
            match index {
                Some(index) => index.well_formed() && index.entries() == accounts@ && index.current()
                    == match current_account_id {
                    Some(id) => Some(id@),
                    None => None,
                },
                None => !consistent(
                    accounts@,
                    match current_account_id {
                        Some(id) => Some(id@),
                        None => None,
                    },
                ),
            },
    {
        if !all_distinct(&accounts) {
            return None;
        }
        let named = match &current_account_id {
            Some(id) => find_entry(&accounts, id.as_str()).is_some(),
            None => true,
        };
        if !named {
            return None;
        }
        Some(AccountIndex { accounts, current_account_id })
    }

    pub fn accounts(&self) -> (accounts: &Vec<AccountSummary>)
        ensures
            accounts@ == self.entries(),
    {
        &self.accounts
    }

    pub fn current_account_id(&self) -> (current: &Option<String>)
        ensures
            match *current {
                Some(id) => self.current() == Some(id@),
                None => self.current() is None,
            },
    {
        &self.current_account_id
    }

    pub fn len(&self) -> (count: usize)
        ensures
            count == self.entries().len(),
    {
        self.accounts.len()
    }

    pub fn contains(&self, id: &str) -> (present: bool)
        ensures
            present == has_id(self.entries(), id@),
    {
        find_entry(&self.accounts, id).is_some()
    }

    /// Resolves a full identifier or an unambiguous beginning of one against
    /// this index.
    pub fn resolve_account_id(&self, wanted: &str) -> (resolved: Result<String, ResolveError>)
        ensures
            match resolved {
                Ok(id) => resolution(self.entries(), wanted@) == Ok::<Seq<char>, ResolveError>(id@),
                Err(error) => resolution(self.entries(), wanted@) == Err::<
                    Seq<char>,
                    ResolveError,
                >(error),
            },
    {
        resolve_among(&self.accounts, wanted)
    }

    /// Makes `id` the current account if the index knows it; otherwise
    /// changes nothing and answers `false`.
    pub fn set_current(&mut self, id: &str) -> (changed: bool)
        requires
            old(self).well_formed(),
        ensures
            final(self).well_formed(),
            final(self).entries() == old(self).entries(),
            changed == has_id(old(self).entries(), id@),
            final(self).current() == if changed {
                Some(id@)
            } else {
                old(self).current()
            },
    {
        match find_entry(&self.accounts, id) {
            Some(at) => {
                self.current_account_id = Some(self.accounts[at].id.clone());
                true
            },
            None => false,
        }
    }

    /// Adds an entry, or replaces the entry that carries the same
    /// identifier. Answers whether the identifier was new.
    pub fn upsert(&mut self, entry: AccountSummary) -> (added: bool)
        requires
            old(self).well_formed(),
        ensures
            final(self).well_formed(),
            final(self).current() == old(self).current(),
            added == !has_id(old(self).entries(), entry.id@),
            added ==> final(self).entries() == old(self).entries().push(entry),
            !added ==> exists|at: int|
                0 <= at < old(self).entries().len() && (#[trigger] old(self).entries()[at]).id@
                    == entry.id@ && final(self).entries() == old(self).entries().update(at, entry),
    {
        let ghost before = self.accounts@;
        match find_entry(&self.accounts, entry.id.as_str()) {
            Some(at) => {
                self.accounts.set(at, entry);
                proof {
                    let after = self.accounts@;
                    assert(after == before.update(at as int, entry));
                    assert forall|a: int, b: int| 0 <= a < b < after.len() implies (
                    #[trigger] after[a]).id@ != (#[trigger] after[b]).id@ by {
                        assert(before[a].id@ != before[b].id@);
                    }
                    if let Some(id) = self.current() {
                        let k = choose|k: int| 0 <= k < before.len() && (#[trigger] before[k]).id@ == id;
                        assert(after[k].id@ == id);
                    }
                    assert(before[at as int].id@ == entry.id@);
                }
                false
            },
            None => {
                self.accounts.push(entry);
                proof {
                    let after = self.accounts@;
                    assert forall|a: int, b: int| 0 <= a < b < after.len() implies (
                    #[trigger] after[a]).id@ != (#[trigger] after[b]).id@ by {
                        if b < before.len() {
                            assert(before[a].id@ != before[b].id@);
                        } else {
                            assert(before[a].id@ != entry.id@);
                        }
                    }
                    if let Some(id) = self.current() {
                        let k = choose|k: int| 0 <= k < before.len() && (#[trigger] before[k]).id@ == id;
                        assert(after[k].id@ == id);
                    }
                }
                true
            },
        }
    }

    /// Removes the entry that carries `id`, if there is one. When the
    /// removed account was the current one, the first remaining account
    /// becomes current, or none if the index is now empty.
    pub fn remove(&mut self, id: &str) -> (removed: Option<AccountSummary>)
        requires
            old(self).well_formed(),
        ensures
            final(self).well_formed(),
            match removed {
                None => {
                    &&& !has_id(old(self).entries(), id@)
                    &&& final(self).entries() == old(self).entries()
                    &&& final(self).current() == old(self).current()
                },
                Some(entry) => {
                    &&& entry.id@ == id@
                    &&& exists|at: int|
                        0 <= at < old(self).entries().len() && #[trigger] old(self).entries()[at]
                            == entry && final(self).entries() == old(self).entries().remove(at)
                    &&& final(self).current() == if old(self).current() == Some(id@) {
                        if final(self).entries().len() > 0 {
                            Some(final(self).entries()[0].id@)
                        } else {
                            None
                        }
                    } else {
                        old(self).current()
                    }
                },
            },
    {
        let ghost before = self.accounts@;
        let ghost selected = self.current();
        match find_entry(&self.accounts, id) {
            None => None,
            Some(at) => {
                let was_current = match &self.current_account_id {
                    Some(current) => same_text(current.as_str(), id),
                    None => false,
                };
                let entry = self.accounts.remove(at);
                proof {
                    let after = self.accounts@;
                    assert(after == before.remove(at as int));
                    assert forall|a: int, b: int| 0 <= a < b < after.len() implies (
                    #[trigger] after[a]).id@ != (#[trigger] after[b]).id@ by {
                        let a0 = if a < at { a } else { a + 1 };
                        let b0 = if b < at { b } else { b + 1 };
                        assert(before[a0].id@ != before[b0].id@);
                    }
                    if !was_current {
                        if let Some(kept) = selected {
                            let k = choose|k: int|
                                0 <= k < before.len() && (#[trigger] before[k]).id@ == kept;
                            assert(k != at);
                            let k1 = if k < at { k } else { k - 1 };
                            assert(after[k1].id@ == kept);
                        }
                    }
                    assert(before[at as int] == entry);
                }
                if was_current {
                    if self.accounts.len() > 0 {
                        self.current_account_id = Some(self.accounts[0].id.clone());
                    } else {
                        self.current_account_id = None;
                    }
                }
                Some(entry)
            },
        }
    }
}

} // verus!
