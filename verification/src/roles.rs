use crate::identity::AccountId;
use vstd::prelude::*;

verus! {

/// What an identity may do. The two roles are unrelated: neither implies the other.
#[derive(Debug, Clone, Copy, PartialEq, Eq, Structural)]
pub enum PowerLevel {
    /// May append questions, and is what the owner grants to others.
    Educator,
    /// Holds a role without write access.
    User,
}

/// One granted role.
struct RoleEntry {
    id: AccountId,
    level: PowerLevel,
}

/// Whether some entry is keyed by `id`.
spec fn has_key(entries: Seq<RoleEntry>, id: Seq<u8>) -> bool {
    exists|i: int| 0 <= i < entries.len() && #[trigger] entries[i].id@ == id
}

/// The position of an entry keyed by `id`, if there is one.
spec fn key_position(entries: Seq<RoleEntry>, id: Seq<u8>) -> int {
    choose|i: int| 0 <= i < entries.len() && #[trigger] entries[i].id@ == id
}

/// No two entries share a key.
spec fn distinct_keys(entries: Seq<RoleEntry>) -> bool {
    forall|i: int, j: int|
        0 <= i < j < entries.len() ==> #[trigger] entries[i].id@ != #[trigger] entries[j].id@
}

/// The mapping that a list of entries with distinct keys stands for.
spec fn as_map(entries: Seq<RoleEntry>) -> Map<Seq<u8>, PowerLevel> {
    Map::new(
        |id: Seq<u8>| has_key(entries, id),
        |id: Seq<u8>| entries[key_position(entries, id)].level,
    )
}

/// With distinct keys, the entry at position `i` is the one its key maps to.
proof fn lemma_entry_is_mapped(entries: Seq<RoleEntry>, i: int)
    requires
        distinct_keys(entries),
        0 <= i < entries.len(),
    ensures
        as_map(entries).contains_key(entries[i].id@),
        as_map(entries)[entries[i].id@] == entries[i].level,
{
    let id = entries[i].id@;
    assert(has_key(entries, id));
    let p = key_position(entries, id);
    assert(0 <= p < entries.len() && entries[p].id@ == id);
    if p < i {
        assert(entries[p].id@ != entries[i].id@);
    } else if i < p {
        assert(entries[i].id@ != entries[p].id@);
    }
}

/// The roles granted so far: a mapping from identity to role with unique keys.
pub struct RoleTable {
    entries: Vec<RoleEntry>,
}

impl View for RoleTable {
    type V = Map<Seq<u8>, PowerLevel>;

    closed spec fn view(&self) -> Map<Seq<u8>, PowerLevel> {
        as_map(self.entries@)
    }
}

impl RoleTable {
    #[verifier::type_invariant]
    spec fn well_formed(&self) -> bool {
        distinct_keys(self.entries@)
    }

    /// A table in which nobody has a role.
    pub fn new() -> (table: Self)
        ensures
            table@ == Map::<Seq<u8>, PowerLevel>::empty(),
    {
        let table = RoleTable { entries: Vec::new() };
        assert(table@ =~= Map::<Seq<u8>, PowerLevel>::empty());
        table
    }

    /// The position of the entry keyed by `id`, or the number of entries if there is none.
    fn find(&self, id: &AccountId) -> (at: usize)
        ensures
            at <= self.entries@.len(),
            at < self.entries@.len() ==> self.entries@[at as int].id@ == id@,
            at == self.entries@.len() ==> !has_key(self.entries@, id@),
    {
        let mut i: usize = 0;
        while i < self.entries.len()
            invariant
                i <= self.entries@.len(),
                forall|j: int| 0 <= j < i ==> self.entries@[j].id@ != id@,
            decreases self.entries@.len() - i,
        {
            if self.entries[i].id == *id {
                return i;
            }
            i += 1;
        }
        i
    }

    /// The role granted to `id`, if any.
    pub fn get(&self, id: &AccountId) -> (level: Option<PowerLevel>)
        ensures
            level == (if self@.contains_key(id@) {
                Some(self@[id@])
            } else {
                None
            }),
    {
        proof {
            use_type_invariant(self);
        }
        let at = self.find(id);
        if at < self.entries.len() {
            proof {
                lemma_entry_is_mapped(self.entries@, at as int);
            }
            Some(self.entries[at].level)
        } else {
            None
        }
    }

    /// Grants `level` to `id`, replacing any role that `id` had.
    pub fn insert(&mut self, id: AccountId, level: PowerLevel)
        ensures
            final(self)@ == old(self)@.insert(id@, level),
    {
        proof {
            use_type_invariant(&*self);
        }
        let at = self.find(&id);
        let ghost before = self.entries@;
        let mut entries: Vec<RoleEntry> = Vec::new();
        std::mem::swap(&mut entries, &mut self.entries);
        if at < entries.len() {
            entries[at] = RoleEntry { id, level };
            proof {
                let after = entries@;
                assert(forall|i: int| 0 <= i < after.len() ==> after[i].id@ == before[i].id@);
                assert(distinct_keys(after));
                assert forall|key: Seq<u8>| has_key(after, key) == has_key(before, key) by {
                    if has_key(before, key) {
                        let p = key_position(before, key);
                        assert(after[p].id@ == key);
                    }
                    if has_key(after, key) {
                        let p = key_position(after, key);
                        assert(before[p].id@ == key);
                    }
                }
                assert forall|key: Seq<u8>| has_key(after, key) implies as_map(after)[key] == (
                if key == id@ {
                    level
                } else {
                    as_map(before)[key]
                }) by {
                    let p = key_position(after, key);
                    lemma_entry_is_mapped(after, p);
                    lemma_entry_is_mapped(before, p);
                }
                assert(as_map(after) =~= as_map(before).insert(id@, level));
            }
        } else {
            entries.push(RoleEntry { id, level });
            proof {
                let after = entries@;
                let last = before.len() as int;
                assert(after[last].id@ == id@);
                assert forall|i: int, j: int| 0 <= i < j < after.len() implies after[i].id@
                    != after[j].id@ by {
                    if j < last {
                        assert(before[i].id@ != before[j].id@);
                    } else {
                        assert(before[i].id@ == after[i].id@);
                    }
                }
                assert forall|key: Seq<u8>| has_key(after, key) == (has_key(before, key) || key
                    == id@) by {
                    if has_key(before, key) {
                        let p = key_position(before, key);
                        assert(after[p].id@ == key);
                    }
                    if has_key(after, key) {
                        let p = key_position(after, key);
                        if p < last {
                            assert(before[p].id@ == key);
                        }
                    }
                }
                assert forall|key: Seq<u8>| has_key(after, key) implies as_map(after)[key] == (
                if key == id@ {
                    level
                } else {
                    as_map(before)[key]
                }) by {
                    let p = key_position(after, key);
                    lemma_entry_is_mapped(after, p);
                    if p < last {
                        assert(before[p].id@ == key);
                        lemma_entry_is_mapped(before, p);
                    }
                }
                assert(as_map(after) =~= as_map(before).insert(id@, level));
            }
        }
        self.entries = entries;
    }
}

} // verus!
