//! The running worker bots, by bot id: at most one worker per bot.

use std::collections::HashMap;
use vstd::prelude::*;

verus! {

/// The workers that run, each with the handle it was started under, by
/// bot id.
pub struct WorkerRegistry<H> {
    workers: HashMap<i32, H>,
}

impl<H> View for WorkerRegistry<H> {
    type V = Map<i32, H>;

    closed spec fn view(&self) -> Map<i32, H> {
        self.workers@
    }
}

impl<H> WorkerRegistry<H> {
    /// No worker runs.
    pub fn new() -> (res: WorkerRegistry<H>)
        ensures
            res@ == Map::<i32, H>::empty(),
    {
        WorkerRegistry { workers: HashMap::new() }
    }

    /// Whether the worker of bot `id` runs.
    pub fn is_running(&self, id: i32) -> (r: bool)
        ensures
            r == self@.contains_key(id),
    {
        broadcast use vstd::std_specs::hash::group_hash_axioms;

        self.workers.contains_key(&id)
    }

    /// Records the worker of bot `id` under `handle`, unless one runs
    /// already: then nothing changes and `handle` is given back.
    pub fn add(&mut self, id: i32, handle: H) -> (res: Option<H>)
        ensures
            old(self)@.contains_key(id) ==> final(self)@ == old(self)@ && res == Some(handle),
            !old(self)@.contains_key(id) ==> final(self)@ == old(self)@.insert(id, handle)
                && res is None,
    {
        broadcast use vstd::std_specs::hash::group_hash_axioms;

        if self.workers.contains_key(&id) {
            return Some(handle);
        }
        let _ = self.workers.insert(id, handle);
        None
    }

    /// Forgets the worker of bot `id` and gives back its handle; none when
    /// it does not run.
    pub fn remove(&mut self, id: i32) -> (res: Option<H>)
        ensures
            res == old(self)@.get(id),
            final(self)@ == old(self)@.remove(id),
    {
        broadcast use vstd::std_specs::hash::group_hash_axioms;

        let ghost before = self@;
        let res = self.workers.remove(&id);
        proof {
            if !before.contains_key(id) {
                assert(before.remove(id) =~= before);
            }
        }
        res
    }
}

/// A bot's worker is started once: after a worker was added for a bot, the
/// bot runs, and a second worker for it is refused; after its worker was
/// removed, the bot no longer runs.
pub proof fn law_one_worker_per_bot<H>(s: Map<i32, H>, id: i32, h: H)
    ensures
        s.insert(id, h).contains_key(id),
        !s.remove(id).contains_key(id),
        !s.contains_key(id) ==> s.insert(id, h)[id] == h,
{
}

} // verus!
