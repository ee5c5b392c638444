//! The registry: the id counter, the giveaway records and the participation
//! flags, behind one owner.

use vstd::prelude::*;
use crate::types::{DataKey, Giveaway, Identity};

verus! {

/// What a registry holds, as mathematics.
pub struct RegistryState {
    /// The contract's own custodial address.
    pub custody: Identity,
    /// The last id issued; 0 before the first giveaway.
    pub count: nat,
    /// The record of each giveaway, by id.
    pub giveaways: Map<u64, Giveaway>,
    /// The pairs of giveaway id and participant for which a flag is written.
    pub entered: Set<(u64, Identity)>,
}

impl RegistryState {
    /// The state before any giveaway exists.
    pub open spec fn empty(custody: Identity) -> RegistryState {
        RegistryState { custody, count: 0, giveaways: Map::empty(), entered: Set::empty() }
    }

    /// Whether a giveaway is recorded under `id`.
    pub open spec fn has_giveaway(self, id: u64) -> bool {
        self.giveaways.dom().contains(id)
    }

    /// What the store holds under the id of a giveaway.
    pub open spec fn record(self, id: u64) -> Option<Giveaway> {
        if self.has_giveaway(id) {
            Some(self.giveaways[id])
        } else {
            None
        }
    }

    /// Whether `participant` holds a flag for giveaway `id`.
    pub open spec fn has_entered(self, id: u64, participant: Identity) -> bool {
        self.entered.contains((id, participant))
    }

    /// Whether the store holds a value under `key`.
    pub open spec fn holds(self, key: DataKey) -> bool {
        match key {
            DataKey::GiveawayCount => self.count > 0,
            DataKey::Giveaway(id) => self.has_giveaway(id),
            DataKey::Participant(id, participant) => self.has_entered(id, participant),
        }
    }

    /// Those who have entered giveaway `id`.
    pub open spec fn entrants(self, id: u64) -> Set<Identity> {
        Set::new(|participant: Identity| self.entered.contains((id, participant)))
    }

    /// The ids issued so far are exactly 1 up to the counter, each record is
    /// stored under its own id, flags exist only for giveaways on record, and
    /// the participant count of a giveaway is the number of those who have
    /// entered it.
    pub open spec fn well_formed(self) -> bool {
        &&& self.count <= u64::MAX
        &&& forall|id: u64| #[trigger] self.has_giveaway(id) <==> 1 <= id <= self.count
        &&& forall|id: u64| #[trigger] self.has_giveaway(id) ==> self.giveaways[id].id == id
        &&& forall|id: u64, participant: Identity| #[trigger]
            self.has_entered(id, participant) ==> self.has_giveaway(id)
        &&& forall|id: u64| #[trigger]
            self.has_giveaway(id) ==> self.entrants(id).finite() && self.entrants(id).len()
                == self.giveaways[id].participant_count
    }
}

/// One participation flag.
#[derive(Clone, Copy, Debug, PartialEq, Eq, Structural)]
struct Entry {
    giveaway_id: u64,
    participant: Identity,
}

/// The registry. Records are kept in the order of their ids, flags in the
/// order in which they were written.
pub struct Registry {
    custody: Identity,
    records: Vec<Giveaway>,
    entries: Vec<Entry>,
}

impl View for Registry {
    type V = RegistryState;

    closed spec fn view(&self) -> RegistryState {
        RegistryState {
            custody: self.custody,
            count: self.records@.len(),
            giveaways: Map::new(
                |id: u64| 1 <= id <= self.records@.len(),
                |id: u64| self.records@[id - 1],
            ),
            entered: Set::new(
                |pair: (u64, Identity)|
                    self.entries@.contains(Entry { giveaway_id: pair.0, participant: pair.1 }),
            ),
        }
    }
}

impl Registry {
    /// The representation invariant: the record at position `i` has id
    /// `i + 1`, the ids fit the counter's type, and no flag is written twice.
    pub closed spec fn rep_ok(&self) -> bool {
        &&& self.records@.len() <= u64::MAX
        &&& forall|i: int| 0 <= i < self.records@.len() ==> (#[trigger] self.records@[i]).id == i + 1
        &&& self.entries@.no_duplicates()
    }

    /// Validity: the representation invariant holds and the state is well
    /// formed.
    pub open spec fn wf(&self) -> bool {
        self.rep_ok() && self@.well_formed()
    }

    /// An empty registry for the contract whose custodial address is
    /// `custody`.
    pub fn new(custody: Identity) -> (registry: Registry)
        ensures
            registry.wf(),
            registry@ == RegistryState::empty(custody),
    {
        let registry = Registry { custody, records: Vec::new(), entries: Vec::new() };
        proof {
            assert(registry@.giveaways =~= Map::empty());
            assert(registry@.entered =~= Set::empty());
        }
        registry
    }

    /// The contract's own custodial address.
    pub fn custody(&self) -> (custody: Identity)
        ensures
            custody == self@.custody,
    {
        self.custody
    }

    /// The last id issued.
    pub fn count(&self) -> (count: u64)
        requires
            self.wf(),
        ensures
            count == self@.count,
    {
        self.records.len() as u64
    }

    /// The record of giveaway `id`, if there is one.
    pub fn get(&self, id: u64) -> (record: Option<Giveaway>)
        requires
            self.wf(),
        ensures
            record == self@.record(id),
    {
        if id >= 1 && id <= self.records.len() as u64 {
            Some(self.records[(id - 1) as usize])
        } else {
            None
        }
    }

    /// Whether `participant` has entered giveaway `id`.
    pub fn has_entered(&self, id: u64, participant: Identity) -> (found: bool)
        ensures
            found == self@.has_entered(id, participant),
    {
        let wanted = Entry { giveaway_id: id, participant };
        let mut i: usize = 0;
        while i < self.entries.len()
            invariant
                i <= self.entries@.len(),
                wanted == (Entry { giveaway_id: id, participant }),
                forall|j: int| 0 <= j < i ==> self.entries@[j] != wanted,
            decreases self.entries@.len() - i,
        {
            if self.entries[i] == wanted {
                assert(self.entries@[i as int] == wanted);
                return true;
            }
            i += 1;
        }
        false
    }

    /// Whether the store holds a value under `key`.
    pub fn has(&self, key: &DataKey) -> (found: bool)
        requires
            self.wf(),
        ensures
            found == self@.holds(*key),
    {
        match *key {
            DataKey::GiveawayCount => self.records.len() > 0,
            DataKey::Giveaway(id) => id >= 1 && id <= self.records.len() as u64,
            DataKey::Participant(id, participant) => self.has_entered(id, participant),
        }
    }

    /// Issues the next id and stores `record` under it.
    pub(crate) fn append(&mut self, record: Giveaway)
        requires
            old(self).rep_ok(),
            old(self)@.count < u64::MAX,
            record.id == old(self)@.count + 1,
        ensures
            final(self).rep_ok(),
            final(self)@ == (RegistryState {
                count: old(self)@.count + 1,
                giveaways: old(self)@.giveaways.insert(record.id, record),
                ..old(self)@
            }),
    {
        self.records.push(record);
        proof {
            assert(final(self)@.giveaways =~= old(self)@.giveaways.insert(record.id, record));
            assert(final(self)@.entered =~= old(self)@.entered);
        }
    }

    /// Replaces the record of an existing giveaway.
    pub(crate) fn replace(&mut self, record: Giveaway)
        requires
            old(self).rep_ok(),
            old(self)@.has_giveaway(record.id),
        ensures
            final(self).rep_ok(),
            final(self)@ == (RegistryState {
                giveaways: old(self)@.giveaways.insert(record.id, record),
                ..old(self)@
            }),
    {
        let len: usize = self.records.len();
        assert(1 <= record.id <= len) by {
            assert(self@.giveaways.dom().contains(record.id));
        }
        let index: usize = (record.id - 1) as usize;
        self.records.set(index, record);
        proof {
            assert(final(self)@.giveaways =~= old(self)@.giveaways.insert(record.id, record));
            assert(final(self)@.entered =~= old(self)@.entered);
        }
    }

    /// Writes the flag of `participant` for giveaway `id`.
    pub(crate) fn flag(&mut self, id: u64, participant: Identity)
        requires
            old(self).rep_ok(),
            !old(self)@.has_entered(id, participant),
        ensures
            final(self).rep_ok(),
            final(self)@ == (RegistryState {
                entered: old(self)@.entered.insert((id, participant)),
                ..old(self)@
            }),
    {
        let entry = Entry { giveaway_id: id, participant };
        self.entries.push(entry);
        proof {
            let before = old(self).entries@;
            let after = final(self).entries@;
            assert(after == before.push(entry));
            assert forall|pair: (u64, Identity)|
                final(self)@.entered.contains(pair) <==> old(self)@.entered.insert(
                    (id, participant),
                ).contains(pair) by {
                let e = Entry { giveaway_id: pair.0, participant: pair.1 };
                if before.contains(e) {
                    let k = choose|k: int| 0 <= k < before.len() && before[k] == e;
                    assert(after[k] == e);
                }
                if e == entry {
                    assert(after[before.len() as int] == e);
                }
            }
            assert(final(self)@.entered =~= old(self)@.entered.insert((id, participant)));
            assert(final(self)@.giveaways =~= old(self)@.giveaways);
        }
    }
}

} // verus!
