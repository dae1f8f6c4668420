use crate::erase::{AnyValue, WatchGuard};
use crate::types::ConfigId;
use vstd::map::*;
use vstd::prelude::*;

verus! {

/// Registration as it acts on the mapping a registry stands for: the cell
/// is inserted only if the identifier is absent, and an existing entry is
/// never overwritten.
pub open spec fn spec_register(
    m: Map<Seq<char>, StoredConfig>,
    id: Seq<char>,
    config: StoredConfig,
) -> Map<Seq<char>, StoredConfig> {
    if m.contains_key(id) {
        m
    } else {
        m.insert(id, config)
    }
}

/// Registering under an identifier that is already registered never
/// replaces the stored cell, whatever the duplicate registration brings:
/// once an identifier is present, every further registration under it
/// leaves the mapping exactly as it was.
pub proof fn lemma_duplicate_registration_is_no_op(
    m: Map<Seq<char>, StoredConfig>,
    id: Seq<char>,
    first: StoredConfig,
    second: StoredConfig,
)
    ensures
        spec_register(spec_register(m, id, first), id, second) == spec_register(m, id, first),
{
    if !m.contains_key(id) {
        assert(m.insert(id, first).contains_key(id));
    }
}

/// One registered configuration as the registry stores it: the current
/// value, type-erased, and the watcher that keeps change events coming.
/// The watcher lives exactly as long as this cell; replacing the value
/// never touches the watcher.
pub struct StoredConfig {
    pub value: AnyValue,
    pub watcher: WatchGuard,
}

/// One registry slot: an identifier and the cell stored under it.
pub struct RegistryEntry {
    pub id: ConfigId,
    pub config: StoredConfig,
}

/// The mapping from configuration identifier to stored cell. Kept as a
/// vector of entries whose identifiers are pairwise distinct, so that an
/// identifier maps to at most one cell at any time.
pub struct Registry {
    pub entries: Vec<RegistryEntry>,
}

impl Registry {
    /// Well-formedness: no identifier occurs twice.
    pub open spec fn wf(self) -> bool {
        forall|i: int, j: int|
            0 <= i < j < self.entries@.len() ==> self.entries@[i].id@ != self.entries@[j].id@
    }

    /// Whether some entry is registered under `id`.
    pub open spec fn has_id(self, id: Seq<char>) -> bool {
        exists|i: int| 0 <= i < self.entries@.len() && self.entries@[i].id@ == id
    }

    /// The position of the entry registered under `id`, meaningful only
    /// when `has_id(id)` holds; unique in a well-formed registry.
    pub open spec fn idx_of(self, id: Seq<char>) -> int {
        choose|i: int| 0 <= i < self.entries@.len() && self.entries@[i].id@ == id
    }

    /// The registry as the mapping it stands for: each identifier of an
    /// entry mapped to that entry's cell. A later entry under an identifier
    /// would shadow an earlier one, but well-formedness rules that out, so
    /// every identifier maps to at most one cell.
    pub open spec fn as_map(self) -> Map<Seq<char>, StoredConfig> {
        Registry::map_of(self.entries@)
    }

    /// The mapping a sequence of entries stands for.
    pub open spec fn map_of(entries: Seq<RegistryEntry>) -> Map<Seq<char>, StoredConfig>
        decreases entries.len(),
    {
        if entries.len() == 0 {
            Map::empty()
        } else {
            Registry::map_of(entries.drop_last()).insert(
                entries.last().id@,
                entries.last().config,
            )
        }
    }

    /// An identifier is in the mapping's domain exactly when some entry
    /// carries it.
    pub proof fn lemma_map_of_dom(entries: Seq<RegistryEntry>, id: Seq<char>)
        ensures
            Registry::map_of(entries).contains_key(id) <==> (exists|i: int|
                0 <= i < entries.len() && entries[i].id@ == id),
        decreases entries.len(),
    {
        if entries.len() > 0 {
            Registry::lemma_map_of_dom(entries.drop_last(), id);
            if entries.last().id@ == id {
                assert(entries[entries.len() - 1].id@ == id);
            } else if exists|i: int| 0 <= i < entries.len() && entries[i].id@ == id {
                let i = choose|i: int| 0 <= i < entries.len() && entries[i].id@ == id;
                assert(entries.drop_last()[i].id@ == id);
            }
        }
    }

    /// With pairwise-distinct identifiers, the mapping sends each entry's
    /// identifier to that entry's cell.
    pub proof fn lemma_map_of_at(entries: Seq<RegistryEntry>, i: int)
        requires
            forall|p: int, q: int|
                0 <= p < q < entries.len() ==> entries[p].id@ != entries[q].id@,
            0 <= i < entries.len(),
        ensures
            Registry::map_of(entries).contains_key(entries[i].id@),
            Registry::map_of(entries)[entries[i].id@] == entries[i].config,
        decreases entries.len(),
    {
        if i < entries.len() - 1 {
            Registry::lemma_map_of_at(entries.drop_last(), i);
            assert(entries[i].id@ != entries.last().id@);
        }
    }

    /// Replacing the cell stored at one position, with the identifier kept,
    /// is insertion over the mapping.
    pub proof fn lemma_map_of_update(entries: Seq<RegistryEntry>, i: int, entry: RegistryEntry)
        requires
            forall|p: int, q: int|
                0 <= p < q < entries.len() ==> entries[p].id@ != entries[q].id@,
            0 <= i < entries.len(),
            entry.id@ == entries[i].id@,
        ensures
            Registry::map_of(entries.update(i, entry)) == Registry::map_of(entries).insert(
                entry.id@,
                entry.config,
            ),
        decreases entries.len(),
    {
        let updated = entries.update(i, entry);
        if i == entries.len() - 1 {
            assert(updated.drop_last() =~= entries.drop_last());
            assert(updated.last() == entry);
            assert_maps_equal!(
                Registry::map_of(updated),
                Registry::map_of(entries).insert(entry.id@, entry.config)
            );
        } else {
            Registry::lemma_map_of_update(entries.drop_last(), i, entry);
            assert(updated.drop_last() =~= entries.drop_last().update(i, entry));
            assert(updated.last() == entries.last());
            assert(entry.id@ != entries.last().id@);
            assert_maps_equal!(
                Registry::map_of(updated),
                Registry::map_of(entries).insert(entry.id@, entry.config)
            );
        }
    }

    /// An identifier maps to at most one cell at any time: in a well-formed
    /// registry, two entries carrying the same identifier are one and the
    /// same entry.
    pub proof fn lemma_at_most_one_cell(self, i: int, j: int)
        requires
            self.wf(),
            0 <= i < self.entries@.len(),
            0 <= j < self.entries@.len(),
            self.entries@[i].id@ == self.entries@[j].id@,
        ensures
            i == j,
    {
    }

    /// In a well-formed registry, `idx_of` recovers exactly the position an
    /// entry stands at.
    pub proof fn lemma_idx_of(self, i: int)
        requires
            self.wf(),
            0 <= i < self.entries@.len(),
        ensures
            self.has_id(self.entries@[i].id@),
            self.idx_of(self.entries@[i].id@) == i,
    {
        let id = self.entries@[i].id@;
        assert(self.has_id(id));
        let j = self.idx_of(id);
        assert(0 <= j < self.entries@.len() && self.entries@[j].id@ == id);
    }

    /// An empty registry, in which nothing is registered.
    pub fn new() -> (r: Registry)
        ensures
            r.wf(),
            r.entries@.len() == 0,
            forall|id: Seq<char>| !r.has_id(id),
            r.as_map() == Map::<Seq<char>, StoredConfig>::empty(),
    {
        Registry { entries: Vec::new() }
    }

    /// Finds the position of the entry registered under `id`, or reports
    /// that no entry is.
    fn find(&self, id: &ConfigId) -> (r: Option<usize>)
        ensures
            match r {
                Some(i) => i < self.entries@.len() && self.entries@[i as int].id@ == id@,
                None => !self.has_id(id@),
            },
    {
        let n = self.entries.len();
        let mut i: usize = 0;
        while i < n
            invariant
                n == self.entries@.len(),
                i <= n,
                forall|j: int| 0 <= j < i ==> self.entries@[j].id@ != id@,
            decreases n - i,
        {
            if self.entries[i].id == *id {
                return Some(i);
            }
            i = i + 1;
        }
        None
    }

    /// Inserts a cell under `id` only if `id` is absent: an existing entry
    /// is never overwritten by a second registration under the same
    /// identifier, and in that case the registry is left exactly as it was.
    pub fn insert_if_absent(&mut self, id: ConfigId, config: StoredConfig) -> (inserted: bool)
        requires
            old(self).wf(),
        ensures
            final(self).wf(),
            inserted == !old(self).has_id(id@),
            !inserted ==> *final(self) == *old(self),
            inserted ==> final(self).entries@ == old(self).entries@.push(
                (RegistryEntry { id, config }),
            ),
            inserted ==> final(self).as_map() == old(self).as_map().insert(id@, config),
            final(self).as_map() == spec_register(old(self).as_map(), id@, config),
            final(self).has_id(id@),
            final(self).as_map().contains_key(id@),
    {
        match self.find(&id) {
            Some(_) => {
                proof {
                    Registry::lemma_map_of_dom(self.entries@, id@);
                }
                false
            },
            None => {
                let ghost prior = self.entries@;
                self.entries.push(RegistryEntry { id, config });
                proof {
                    let n = prior.len() as int;
                    assert forall|k: int| 0 <= k < n implies prior[k].id@
                        != self.entries@[n].id@ by {
                        if prior[k].id@ == self.entries@[n].id@ {
                            assert(old(self).has_id(self.entries@[n].id@));
                        }
                    }
                    assert(self.entries@[n].id@ == id@);
                    assert(self.entries@.drop_last() =~= prior);
                    assert(self.entries@.last() == (RegistryEntry { id, config }));
                    Registry::lemma_map_of_dom(prior, id@);
                }
                true
            },
        }
    }

    /// Replaces the value stored under `id` in place, leaving its watcher
    /// and every other entry untouched; silently a no-op when `id` is not
    /// registered, so that a reload racing a removal has nobody to report
    /// to.
    pub fn update_value(&mut self, id: &ConfigId, value: AnyValue) -> (updated: bool)
        requires
            old(self).wf(),
        ensures
            final(self).wf(),
            updated == old(self).has_id(id@),
            !updated ==> *final(self) == *old(self),
            updated ==> ({
                let i = old(self).idx_of(id@);
                &&& 0 <= i < old(self).entries@.len()
                &&& old(self).entries@[i].id@ == id@
                &&& final(self).entries@ == old(self).entries@.update(
                    i,
                    (RegistryEntry {
                        id: old(self).entries@[i].id,
                        config: (StoredConfig {
                            value,
                            watcher: old(self).entries@[i].config.watcher,
                        }),
                    }),
                )
            }),
            updated ==> final(self).as_map() == old(self).as_map().insert(
                id@,
                (StoredConfig { value, watcher: old(self).as_map()[id@].watcher }),
            ),
    {
        match self.find(id) {
            None => false,
            Some(i) => {
                proof {
                    old(self).lemma_idx_of(i as int);
                    Registry::lemma_map_of_at(old(self).entries@, i as int);
                }
                let slot = &mut self.entries[i];
                slot.config.value = value;
                proof {
                    let replaced = (RegistryEntry {
                        id: old(self).entries@[i as int].id,
                        config: (StoredConfig {
                            value,
                            watcher: old(self).entries@[i as int].config.watcher,
                        }),
                    });
                    assert(self.entries@ == old(self).entries@.update(i as int, replaced));
                    Registry::lemma_map_of_update(old(self).entries@, i as int, replaced);
                }
                true
            },
        }
    }

    /// Hands out the value stored under `id`, or reports that `id` is not
    /// registered: `None` exactly when no entry carries `id`.
    pub fn get_value(&self, id: &ConfigId) -> (r: Option<&AnyValue>)
        requires
            self.wf(),
        ensures
            r is Some <==> self.has_id(id@),
            r is Some <==> self.as_map().contains_key(id@),
            r matches Some(v) ==> *v == self.entries@[self.idx_of(id@)].config.value,
            r matches Some(v) ==> *v == self.as_map()[id@].value,
    {
        match self.find(id) {
            None => {
                proof {
                    Registry::lemma_map_of_dom(self.entries@, id@);
                }
                None
            },
            Some(i) => {
                proof {
                    self.lemma_idx_of(i as int);
                    Registry::lemma_map_of_at(self.entries@, i as int);
                }
                Some(&self.entries[i].config.value)
            },
        }
    }
}

} // verus!
