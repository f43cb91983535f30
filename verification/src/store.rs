//! The counters that schedules and layers share.
//!
//! Copies of a schedule count into one recorder, and copies of a layer number
//! their calls from one counter. What is shared lives in a [`ChaosStore`];
//! schedules and layers hold the name of their slot in it, which a copy keeps.

use crate::fault::FaultKind;
use crate::recorder::{counted, no_counts, ChaosRecorder};
use vstd::prelude::*;

verus! {

/// The name of a recorder in a [`ChaosStore`].
#[derive(Debug, Clone, Copy)]
pub struct RecorderId {
    slot: usize,
}

impl RecorderId {
    /// The recorder's place in the store.
    pub closed spec fn slot(self) -> nat {
        self.slot as nat
    }
}

/// The name of a call counter in a [`ChaosStore`].
#[derive(Debug, Clone, Copy)]
pub struct CounterId {
    slot: usize,
}

impl CounterId {
    /// The counter's place in the store.
    pub closed spec fn slot(self) -> nat {
        self.slot as nat
    }
}

/// Recorders and call counters, each reached through its name.
#[derive(Debug)]
pub struct ChaosStore {
    recorders: Vec<ChaosRecorder>,
    counters: Vec<u64>,
}

/// What a [`ChaosStore`] holds.
#[verifier::ext_equal]
pub struct StoreView {
    /// The counts of every recorder.
    pub recorders: Seq<Map<FaultKind, usize>>,
    /// The next call index of every counter.
    pub counters: Seq<u64>,
}

impl StoreView {
    /// The store with these counts in recorder `slot`.
    pub open spec fn with_counts(self, slot: nat, counts: Map<FaultKind, usize>) -> StoreView {
        StoreView {
            recorders: self.recorders.update(slot as int, counts),
            counters: self.counters,
        }
    }

    /// The store with one more fault of `kind` counted in recorder `slot`.
    pub open spec fn with_record(self, slot: nat, kind: FaultKind) -> StoreView {
        self.with_counts(slot, counted(self.recorders[slot as int], kind))
    }

    /// The store with one index taken from counter `slot`.
    pub open spec fn with_index_taken(self, slot: nat) -> StoreView {
        StoreView {
            recorders: self.recorders,
            counters: self.counters.update(
                slot as int,
                self.counters[slot as int].wrapping_add(1),
            ),
        }
    }

    /// Every slot of this store is one of `later`.
    pub open spec fn grows_to(self, later: StoreView) -> bool {
        &&& self.recorders.len() <= later.recorders.len()
        &&& self.counters.len() <= later.counters.len()
    }
}

impl View for ChaosStore {
    type V = StoreView;

    closed spec fn view(&self) -> StoreView {
        StoreView {
            recorders: self.recorders@.map_values(|recorder: ChaosRecorder| recorder@),
            counters: self.counters@,
        }
    }
}

impl ChaosStore {
    /// A store with nothing in it.
    pub fn new() -> (store: Self)
        ensures
            store@ == (StoreView { recorders: Seq::empty(), counters: Seq::empty() }),
    {
        let store = ChaosStore { recorders: Vec::new(), counters: Vec::new() };
        assert(store@.recorders =~= Seq::empty());
        store
    }

    /// Add a recorder with all counters at zero.
    pub fn open_recorder(&mut self) -> (id: RecorderId)
        ensures
            id.slot() == old(self)@.recorders.len(),
            final(self)@ == (StoreView {
                recorders: old(self)@.recorders.push(no_counts()),
                counters: old(self)@.counters,
            }),
    {
        let slot: usize = self.recorders.len();
        self.recorders.push(ChaosRecorder::new());
        assert(self@.recorders =~= old(self)@.recorders.push(no_counts()));
        RecorderId { slot }
    }

    /// Add a call counter that starts at index zero.
    pub fn open_counter(&mut self) -> (id: CounterId)
        ensures
            id.slot() == old(self)@.counters.len(),
            final(self)@ == (StoreView {
                recorders: old(self)@.recorders,
                counters: old(self)@.counters.push(0),
            }),
    {
        let slot: usize = self.counters.len();
        self.counters.push(0);
        CounterId { slot }
    }

    /// The recorder of the given name.
    pub fn recorder(&self, id: RecorderId) -> (recorder: &ChaosRecorder)
        requires
            id.slot() < self@.recorders.len(),
        ensures
            recorder@ == self@.recorders[id.slot() as int],
    {
        &self.recorders[id.slot]
    }

    /// The recorder of the given name, to be changed in place.
    pub fn recorder_mut(&mut self, id: RecorderId) -> (recorder: &mut ChaosRecorder)
        requires
            id.slot() < old(self)@.recorders.len(),
        ensures
            recorder@ == old(self)@.recorders[id.slot() as int],
            final(self)@ == old(self)@.with_counts(id.slot(), final(recorder)@),
    {
        &mut self.recorders[id.slot]
    }

    /// The index that the next call numbered by this counter gets.
    pub fn next_index(&self, id: CounterId) -> (index: u64)
        requires
            id.slot() < self@.counters.len(),
        ensures
            index == self@.counters[id.slot() as int],
    {
        self.counters[id.slot]
    }

    /// Take the next index of a counter and move the counter on, wrapping to
    /// zero past `u64::MAX`.
    pub fn take_index(&mut self, id: CounterId) -> (index: u64)
        requires
            id.slot() < old(self)@.counters.len(),
        ensures
            index == old(self)@.counters[id.slot() as int],
            final(self)@ == old(self)@.with_index_taken(id.slot()),
    {
        let index: u64 = self.counters[id.slot];
        self.counters[id.slot] = index.wrapping_add(1);
        index
    }
}

} // verus!
