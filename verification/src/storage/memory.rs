//! A store that keeps its readings in memory.
use crate::nucleo::clock::now;
use crate::nucleo::traits::storage::{Storage, StorageError};
use crate::nucleo::types::{OutputView, SensorOutput};
use std::time::SystemTime;
use vstd::prelude::*;

verus! {

/// The values of a run of readings, in order.
pub open spec fn views(readings: Seq<SensorOutput>) -> Seq<OutputView> {
    readings.map_values(|reading: SensorOutput| reading@)
}

/// Readings kept in memory, each with the moment at which it was saved, and
/// lost when the store is dropped.
pub struct MemoryStorage {
    data: Vec<(SystemTime, SensorOutput)>,
}

impl View for MemoryStorage {
    type V = Seq<OutputView>;

    /// The readings kept, oldest first.
    closed spec fn view(&self) -> Seq<OutputView> {
        self.data@.map_values(|entry: (SystemTime, SensorOutput)| entry.1@)
    }
}

impl MemoryStorage {
    /// An empty store.
    pub fn new() -> (store: Self)
        ensures
            store@ == Seq::<OutputView>::empty(),
    {
        let store = MemoryStorage { data: Vec::new() };
        assert(store@ =~= Seq::<OutputView>::empty());
        store
    }
}

impl Storage for MemoryStorage {
    /// Keeps one more reading, after all that are kept. Never fails.
    fn save(&mut self, data: SensorOutput) -> (outcome: Result<(), StorageError>)
        ensures
            outcome is Ok,
            final(self)@ == old(self)@.push(data@),
    {
        let moment = now();
        self.data.push((moment, data));
        assert(self@ =~= old(self)@.push(data@));
        Ok(())
    }

    /// Hands out a copy of every reading kept, oldest first. Never fails.
    fn list(&self) -> (outcome: Result<Vec<SensorOutput>, StorageError>)
        ensures
            outcome matches Ok(readings) && views(readings@) == self@,
    {
        let mut readings: Vec<SensorOutput> = Vec::new();
        let mut i: usize = 0;
        while i < self.data.len()
            invariant
                i <= self.data@.len(),
                readings@.len() == i,
                forall|k: int| 0 <= k < i ==> (#[trigger] readings@[k])@ == self.data@[k].1@,
            decreases self.data@.len() - i,
        {
            readings.push(self.data[i].1.clone());
            i += 1;
        }
        assert(views(readings@) =~= self@);
        Ok(readings)
    }

    /// Forgets every reading kept. Never fails.
    fn clear(&mut self) -> (outcome: Result<(), StorageError>)
        ensures
            outcome is Ok,
            final(self)@ == Seq::<OutputView>::empty(),
    {
        self.data.clear();
        assert(self@ =~= Seq::<OutputView>::empty());
        Ok(())
    }
}

/// The store after one save for each value of `saved`, in turn.
pub open spec fn after_saves(kept: Seq<OutputView>, saved: Seq<OutputView>) -> Seq<OutputView>
    decreases saved.len(),
{
    if saved.len() == 0 {
        kept
    } else {
        after_saves(kept, saved.drop_last()).push(saved.last())
    }
}

/// An empty store holds, after any number of saves, exactly what was saved,
/// as many entries and in the order of the saves; and so does a store that
/// was cleared before them, whatever it held.
pub proof fn lemma_saves_are_kept_in_order(saved: Seq<OutputView>)
    ensures
        after_saves(Seq::<OutputView>::empty(), saved) == saved,
        after_saves(Seq::<OutputView>::empty(), saved).len() == saved.len(),
    decreases saved.len(),
{
    if saved.len() > 0 {
        lemma_saves_are_kept_in_order(saved.drop_last());
        assert(saved.drop_last().push(saved.last()) =~= saved);
    }
}

} // verus!
