//! The record store: the durable table of run records, modelled in memory.
//!
//! Records are queryable by external id and by a state pair, inserted once
//! and updated whole; they are never deleted, so a record's store identity is
//! its position.  The surrounding application decides how the table is
//! persisted; this module is the table's verified contract.

use vstd::prelude::*;

use crate::models::{run_wf, NewRun, Run, RunState, SRCState};
use crate::utils::str_eq;
use vstd::pervasive::VecAdditionalExecFns;

verus! {

/// The table of run records.
pub struct RecordStore {
    runs: Vec<Run>,
}

impl View for RecordStore {
    type V = Seq<Run>;

    closed spec fn view(&self) -> Seq<Run> {
        self.runs@
    }
}

/// The predicate a record must meet to be a sweep candidate: our side
/// effects are done but the verification outcome is still pending.
pub open spec fn state_matches(r: Run, state: RunState, src_state: SRCState) -> bool {
    r.state == state && r.src_state == src_state
}

impl RecordStore {
    /// The table's invariant: every record is well formed, a record's store
    /// identity is its position, and external ids never repeat.
    pub closed spec fn wf(self) -> bool {
        &&& forall|i: int|
            0 <= i < self.runs@.len() ==> run_wf(#[trigger] self.runs@[i]) && self.runs@[i].id
                == i
        &&& forall|i: int, j: int|
            0 <= i < j < self.runs@.len() ==> self.runs@[i].run_id@ != self.runs@[j].run_id@
    }

    /// What the invariant gives every reader: all records are well formed
    /// (each carries a thread reference exactly from `ThreadCreated` onward),
    /// ids are positions, and external ids are unique.
    pub proof fn lemma_wf(self)
        requires
            self.wf(),
        ensures
            forall|i: int|
                0 <= i < self@.len() ==> run_wf(#[trigger] self@[i]) && self@[i].id == i,
            forall|i: int, j: int|
                0 <= i < j < self@.len() ==> self@[i].run_id@ != self@[j].run_id@,
    {
    }

    /// An empty table.
    pub fn new() -> (r: RecordStore)
        ensures
            r.wf(),
            r@ == Seq::<Run>::empty(),
    {
        let r = RecordStore { runs: Vec::new() };
        proof {
            assert(r@ =~= Seq::<Run>::empty());
        }
        r
    }

    /// How many records the table holds.
    pub fn len(&self) -> (n: usize)
        ensures
            n == self@.len(),
    {
        self.runs.len()
    }

    /// Inserts a record for an external id not yet present, assigning it the
    /// next store identity.  Intake checks presence first: this is what keeps
    /// external ids unique.
    pub fn insert(&mut self, new_run: NewRun) -> (r: Run)
        requires
            old(self).wf(),
            forall|i: int|
                0 <= i < old(self)@.len() ==> (#[trigger] old(self)@[i]).run_id@
                    != new_run.run_id@,
            new_run.thread_id is Some <==> new_run.state != RunState::Unstarted,
        ensures
            final(self).wf(),
            r == (Run {
                id: old(self)@.len() as u64,
                submitted: new_run.submitted,
                thread_id: new_run.thread_id,
                state: new_run.state,
                src_state: new_run.src_state,
                run_id: new_run.run_id,
            }),
            final(self)@ == old(self)@.push(r),
    {
        let id = self.runs.len() as u64;
        let rec = Run {
            id,
            submitted: new_run.submitted,
            thread_id: new_run.thread_id,
            state: new_run.state,
            src_state: new_run.src_state,
            run_id: new_run.run_id,
        };
        let copy = rec.clone();
        self.runs.push(rec);
        copy
    }

    /// Replaces the record with the given store identity.  The external id is
    /// immutable, and the replacement must be well formed.
    pub fn update(&mut self, rec: Run)
        requires
            old(self).wf(),
            rec.id < old(self)@.len(),
            run_wf(rec),
            rec.run_id@ == old(self)@[rec.id as int].run_id@,
        ensures
            final(self).wf(),
            final(self)@ == old(self)@.update(rec.id as int, rec),
    {
        proof {
            broadcast use vstd::std_specs::vec::axiom_spec_len;

            assert(self.runs@.len() == self.runs.len());
            assert(rec.id as int <= usize::MAX as int);
        }
        let i = rec.id as usize;
        self.runs.set(i, rec);
        proof {
            assert(self@ =~= old(self)@.update(rec.id as int, rec));
            assert forall|p: int, q: int|
                0 <= p < q < self.runs@.len() implies self.runs@[p].run_id@
                != self.runs@[q].run_id@ by {
                assert(old(self).runs@[p].run_id@ != old(self).runs@[q].run_id@);
            }
        }
    }

    /// All records, in store order.
    pub fn load_all(&self) -> (r: Vec<Run>)
        ensures
            r@ == self@,
    {
        let mut out: Vec<Run> = Vec::new();
        let mut i: usize = 0;
        while i < self.runs.len()
            invariant
                i <= self.runs@.len(),
                out@ == self.runs@.subrange(0, i as int),
            decreases self.runs@.len() - i,
        {
            out.push(self.runs[i].clone());
            proof {
                assert(out@ =~= self.runs@.subrange(0, i + 1 as int));
            }
            i += 1;
        }
        proof {
            assert(self.runs@.subrange(0, self.runs@.len() as int) =~= self.runs@);
        }
        out
    }

    /// The records whose two states match the given pair, in store order.
    /// A finalized record never matches a query for a non-terminal pair: in
    /// particular the sweep's candidate query excludes it.
    pub fn load_where(&self, state: RunState, src_state: SRCState) -> (r: Vec<Run>)
        ensures
            r@ == self@.filter(|x: Run| state_matches(x, state, src_state)),
    {
        let ghost pred = |x: Run| state_matches(x, state, src_state);
        let mut out: Vec<Run> = Vec::new();
        let mut i: usize = 0;
        proof {
            reveal(Seq::filter);
            assert(self.runs@.subrange(0, 0).filter(pred) =~= Seq::<Run>::empty());
        }
        while i < self.runs.len()
            invariant
                i <= self.runs@.len(),
                out@ == self.runs@.subrange(0, i as int).filter(pred),
                pred == (|x: Run| state_matches(x, state, src_state)),
            decreases self.runs@.len() - i,
        {
            let rec = &self.runs[i];
            proof {
                reveal(Seq::filter);
                let pre = self.runs@.subrange(0, i as int);
                let post = self.runs@.subrange(0, i + 1 as int);
                assert(post.drop_last() =~= pre);
                assert(post.last() == self.runs@[i as int]);
            }
            if rec.state == state && rec.src_state == src_state {
                out.push(rec.clone());
            }
            i += 1;
        }
        proof {
            assert(self.runs@.subrange(0, self.runs@.len() as int) =~= self.runs@);
        }
        out
    }

    /// Looks a record up by its external id: the record when the id is
    /// present, nothing when it is not.
    pub fn load_by_external_id(&self, run_id: &str) -> (r: Option<Run>)
        requires
            self.wf(),
        ensures
            match r {
                Some(rec) => 0 <= rec.id < self@.len() && self@[rec.id as int] == rec
                    && rec.run_id@ == run_id@,
                None => forall|i: int|
                    0 <= i < self@.len() ==> (#[trigger] self@[i]).run_id@ != run_id@,
            },
    {
        let mut i: usize = 0;
        while i < self.runs.len()
            invariant
                self.wf(),
                i <= self.runs@.len(),
                forall|k: int| 0 <= k < i ==> (#[trigger] self.runs@[k]).run_id@ != run_id@,
            decreases self.runs@.len() - i,
        {
            let rec = &self.runs[i];
            if str_eq(rec.run_id.as_str(), run_id) {
                proof {
                    self.lemma_wf();
                }
                return Some(rec.clone());
            }
            i += 1;
        }
        None
    }
}

} // verus!
