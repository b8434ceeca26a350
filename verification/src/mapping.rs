//! Tables that translate the model names clients use into the names the
//! backend knows.

use crate::monitor::Protocol;
use crate::text::same_text;
use vstd::prelude::*;

verus! {

/// One line of a mapping table.
#[derive(Debug)]
pub struct MappingEntry {
    pub from: String,
    pub to: String,
}

/// What the first entry for `name` maps it to, if any entry is for `name`.
pub open spec fn first_match(entries: Seq<MappingEntry>, name: Seq<char>) -> Option<Seq<char>>
    decreases entries.len(),
{
    if entries.len() == 0 {
        None
    } else if entries[0].from@ == name {
        Some(entries[0].to@)
    } else {
        first_match(entries.drop_first(), name)
    }
}

/// The name that `table` gives for `name`: the mapped name where the table
/// has one, else `name` itself.
pub open spec fn mapped_name(table: Map<Seq<char>, Seq<char>>, name: Seq<char>) -> Seq<char> {
    if table.contains_key(name) {
        table[name]
    } else {
        name
    }
}

proof fn lemma_first_match_skip(entries: Seq<MappingEntry>, name: Seq<char>, upto: int)
    requires
        0 <= upto <= entries.len(),
        forall|k: int| 0 <= k < upto ==> (#[trigger] entries[k]).from@ != name,
    ensures
        first_match(entries, name) == first_match(entries.subrange(upto, entries.len() as int), name),
    decreases upto,
{
    if upto == 0 {
        assert(entries.subrange(0, entries.len() as int) == entries);
    } else {
        lemma_first_match_skip(entries, name, upto - 1);
        let tail = entries.subrange(upto - 1, entries.len() as int);
        assert(tail[0] == entries[upto - 1]);
        assert(tail.drop_first() == entries.subrange(upto, entries.len() as int));
    }
}

proof fn lemma_first_match_push(entries: Seq<MappingEntry>, last: MappingEntry, name: Seq<char>)
    ensures
        first_match(entries.push(last), name) == match first_match(entries, name) {
            Some(to) => Some(to),
            None => if last.from@ == name {
                Some(last.to@)
            } else {
                None
            },
        },
    decreases entries.len(),
{
    if entries.len() == 0 {
        assert(entries.push(last).drop_first() == entries);
    } else {
        assert(entries.push(last).drop_first() == entries.drop_first().push(last));
        lemma_first_match_push(entries.drop_first(), last, name);
    }
}

proof fn lemma_first_match_update(
    entries: Seq<MappingEntry>,
    at: int,
    entry: MappingEntry,
    name: Seq<char>,
)
    requires
        0 <= at < entries.len(),
        entries[at].from@ == entry.from@,
        forall|k: int| 0 <= k < at ==> (#[trigger] entries[k]).from@ != entry.from@,
    ensures
        first_match(entries.update(at, entry), name) == if name == entry.from@ {
            Some(entry.to@)
        } else {
            first_match(entries, name)
        },
    decreases at,
{
    let updated = entries.update(at, entry);
    if at == 0 {
        assert(updated.drop_first() == entries.drop_first());
    } else {
        assert(updated.drop_first() == entries.drop_first().update(at - 1, entry));
        assert forall|k: int| 0 <= k < at - 1 implies (#[trigger] entries.drop_first()[k]).from@
            != entry.from@ by {
            assert(entries[k + 1].from@ != entry.from@);
        }
        lemma_first_match_update(entries.drop_first(), at - 1, entry, name);
        assert(entries[0].from@ != entry.from@);
    }
}

/// A table from client-side model names to backend model names.
#[derive(Debug)]
pub struct MappingTable {
    entries: Vec<MappingEntry>,
}

impl View for MappingTable {
    type V = Map<Seq<char>, Seq<char>>;

    closed spec fn view(&self) -> Map<Seq<char>, Seq<char>> {
        Map::new(
            |name: Seq<char>| first_match(self.entries@, name) is Some,
            |name: Seq<char>| first_match(self.entries@, name)->0,
        )
    }
}

impl MappingTable {
    /// A table that maps nothing.
    pub fn new() -> (table: MappingTable)
        ensures
            table@ == Map::<Seq<char>, Seq<char>>::empty(),
    {
        let table = MappingTable { entries: Vec::new() };
        assert(table@ =~= Map::<Seq<char>, Seq<char>>::empty());
        table
    }

    /// The position of the first entry for `name`.
    fn position(&self, name: &str) -> (found: Option<usize>)
        ensures
            match found {
                Some(at) => {
                    &&& at < self.entries@.len()
                    &&& self.entries@[at as int].from@ == name@
                    &&& forall|k: int| 0 <= k < at ==> (#[trigger] self.entries@[k]).from@ != name@
                    &&& first_match(self.entries@, name@) == Some(self.entries@[at as int].to@)
                },
                None => first_match(self.entries@, name@) is None,
            },
    {
        let mut i: usize = 0;
        while i < self.entries.len()
            invariant
                i <= self.entries.len(),
                forall|k: int| 0 <= k < i ==> (#[trigger] self.entries@[k]).from@ != name@,
            decreases self.entries.len() - i,
        {
            if same_text(self.entries[i].from.as_str(), name) {
                proof {
                    lemma_first_match_skip(self.entries@, name@, i as int);
                }
                return Some(i);
            }
            i += 1;
        }
        proof {
            lemma_first_match_skip(self.entries@, name@, self.entries@.len() as int);
        }
        None
    }

    /// The backend name the table holds for `name`, if it holds one.
    pub fn get(&self, name: &str) -> (mapped: Option<&String>)
        ensures
            match mapped {
                Some(to) => self@.contains_key(name@) && self@[name@] == to@,
                None => !self@.contains_key(name@),
            },
    {
        match self.position(name) {
            Some(at) => Some(&self.entries[at].to),
            None => None,
        }
    }

    /// Translates `name`: a name the table holds becomes its backend name,
    /// any other name passes through unchanged.
    pub fn map_model(&self, name: &str) -> (mapped: String)
        ensures
            mapped@ == mapped_name(self@, name@),
    {
        match self.position(name) {
            Some(at) => self.entries[at].to.clone(),
            None => name.to_owned(),
        }
    }

    /// Makes the table map `from` to `to`, replacing what it held for
    /// `from` before.
    pub fn insert(&mut self, from: String, to: String)
        ensures
            final(self)@ == old(self)@.insert(from@, to@),
    {
        let ghost before = self.entries@;
        let entry = MappingEntry { from, to };
        match self.position(entry.from.as_str()) {
            Some(at) => {
                self.entries.set(at, entry);
                proof {
                    assert forall|name: Seq<char>|
                        first_match(self.entries@, name) == if name == entry.from@ {
                            Some(entry.to@)
                        } else {
                            first_match(before, name)
                        } by {
                        lemma_first_match_update(before, at as int, entry, name);
                    }
                }
            },
            None => {
                self.entries.push(entry);
                proof {
                    assert forall|name: Seq<char>|
                        first_match(self.entries@, name) == if name == entry.from@ {
                            Some(entry.to@)
                        } else {
                            first_match(before, name)
                        } by {
                        lemma_first_match_push(before, entry, name);
                    }
                }
            },
        }
        assert(self@ =~= old(self)@.insert(entry.from@, entry.to@));
    }
}

/// The three tables a gateway is configured with.
#[derive(Debug)]
pub struct MappingTables {
    pub anthropic: MappingTable,
    pub openai: MappingTable,
    pub custom: MappingTable,
}

/// The backend name for `name` on a request in `protocol`: a custom
/// mapping wins; then the table of the protocol applies; a name that
/// neither holds passes through unchanged.
pub open spec fn backend_model(
    protocol: Protocol,
    anthropic: Map<Seq<char>, Seq<char>>,
    openai: Map<Seq<char>, Seq<char>>,
    custom: Map<Seq<char>, Seq<char>>,
    name: Seq<char>,
) -> Seq<char> {
    if custom.contains_key(name) {
        custom[name]
    } else {
        match protocol {
            Protocol::Anthropic => mapped_name(anthropic, name),
            Protocol::OpenAi => mapped_name(openai, name),
            _ => name,
        }
    }
}

impl MappingTables {
    /// Translates the model name of a request that arrived in `protocol`.
    pub fn resolve_model(&self, protocol: Protocol, name: &str) -> (mapped: String)
        ensures
            mapped@ == backend_model(protocol, self.anthropic@, self.openai@, self.custom@, name@),
    {
        match self.custom.get(name) {
            Some(to) => to.clone(),
            None => match protocol {
                Protocol::Anthropic => self.anthropic.map_model(name),
                Protocol::OpenAi => self.openai.map_model(name),
                _ => name.to_owned(),
            },
        }
    }
}

/// A name that the table holds is translated to what the table holds for
/// it, and a name that the table does not hold is left as it is.
pub proof fn lemma_mapping_round_trip(table: Map<Seq<char>, Seq<char>>, name: Seq<char>)
    ensures
        table.contains_key(name) ==> mapped_name(table, name) == table[name],
        !table.contains_key(name) ==> mapped_name(table, name) == name,
        forall|to: Seq<char>| mapped_name(table.insert(name, to), name) == to,
{
}

} // verus!
