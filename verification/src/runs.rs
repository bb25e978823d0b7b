use vstd::prelude::*;

use crate::json::strs;
use crate::session::{RunState, RunStateV, SessionError};
use crate::text::{copy_string, owned, str_eq};

verus! {

/// A run the daemon keeps: its connection to the app-server and its state.
pub struct RunEntry<S> {
    pub server: S,
    pub state: RunState,
}

/// The runs of a session daemon, by run id.
pub struct RunTable<S> {
    runs: Vec<RunEntry<S>>,
}

/// The run ids of a list of runs, in order.
pub open spec fn entry_ids<S>(runs: Seq<RunEntry<S>>) -> Seq<Seq<char>> {
    runs.map_values(|e: RunEntry<S>| e.state.run_id@)
}

/// No run id occurs twice.
pub open spec fn distinct_ids(ids: Seq<Seq<char>>) -> bool {
    forall|i: int, j: int| 0 <= i < j < ids.len() ==> ids[i] != ids[j]
}

/// The runs as a map from run id to server and state.
pub open spec fn entries_map<S>(runs: Seq<RunEntry<S>>) -> Map<Seq<char>, (S, RunStateV)>
    decreases runs.len(),
{
    if runs.len() == 0 {
        Map::empty()
    } else {
        entries_map(runs.drop_last()).insert(
            runs.last().state.run_id@,
            (runs.last().server, runs.last().state.model()),
        )
    }
}

proof fn lemma_entries_dom<S>(runs: Seq<RunEntry<S>>, id: Seq<char>)
    ensures
        entries_map(runs).contains_key(id) <==> exists|i: int|
            0 <= i < runs.len() && (#[trigger] runs[i]).state.run_id@ == id,
    decreases runs.len(),
{
    if runs.len() > 0 {
        let init = runs.drop_last();
        lemma_entries_dom(init, id);
        if entries_map(init).contains_key(id) {
            let i = choose|i: int| 0 <= i < init.len() && (#[trigger] init[i]).state.run_id@ == id;
            assert(runs[i] == init[i]);
        }
        if exists|i: int| 0 <= i < runs.len() && (#[trigger] runs[i]).state.run_id@ == id {
            let i = choose|i: int| 0 <= i < runs.len() && (#[trigger] runs[i]).state.run_id@ == id;
            if i < runs.len() - 1 {
                assert(init[i] == runs[i]);
            }
        }
    }
}

proof fn lemma_entries_at<S>(runs: Seq<RunEntry<S>>, i: int)
    requires
        distinct_ids(entry_ids(runs)),
        0 <= i < runs.len(),
    ensures
        entries_map(runs).contains_key(runs[i].state.run_id@),
        entries_map(runs)[runs[i].state.run_id@] == (runs[i].server, runs[i].state.model()),
    decreases runs.len(),
{
    let init = runs.drop_last();
    if i < runs.len() - 1 {
        assert(distinct_ids(entry_ids(init))) by {
            assert forall|a: int, b: int| 0 <= a < b < entry_ids(init).len() implies entry_ids(
                init,
            )[a] != entry_ids(init)[b] by {
                assert(entry_ids(init)[a] == entry_ids(runs)[a]);
                assert(entry_ids(init)[b] == entry_ids(runs)[b]);
            }
        }
        lemma_entries_at(init, i);
        assert(init[i] == runs[i]);
        assert(entry_ids(runs)[i] != entry_ids(runs)[runs.len() - 1]);
    }
}

proof fn lemma_entries_remove<S>(runs: Seq<RunEntry<S>>, i: int)
    requires
        distinct_ids(entry_ids(runs)),
        0 <= i < runs.len(),
    ensures
        entries_map(runs.remove(i)) == entries_map(runs).remove(runs[i].state.run_id@),
    decreases runs.len(),
{
    let init = runs.drop_last();
    let id = runs[i].state.run_id@;
    assert(distinct_ids(entry_ids(init))) by {
        assert forall|a: int, b: int| 0 <= a < b < entry_ids(init).len() implies entry_ids(init)[a]
            != entry_ids(init)[b] by {
            assert(entry_ids(init)[a] == entry_ids(runs)[a]);
            assert(entry_ids(init)[b] == entry_ids(runs)[b]);
        }
    }
    if i == runs.len() - 1 {
        assert(runs.remove(i) =~= init);
        assert(!entries_map(init).contains_key(id)) by {
            lemma_entries_dom(init, id);
            if entries_map(init).contains_key(id) {
                let k = choose|k: int| 0 <= k < init.len() && (#[trigger] init[k]).state.run_id@ == id;
                assert(entry_ids(runs)[k] == id && entry_ids(runs)[i] == id);
            }
        }
        assert(entries_map(runs).remove(id) =~= entries_map(init));
    } else {
        lemma_entries_remove(init, i);
        let r = runs.remove(i);
        assert(r.drop_last() =~= init.remove(i));
        assert(r.last() == runs.last());
        assert(runs.last().state.run_id@ != id) by {
            assert(entry_ids(runs)[i] != entry_ids(runs)[runs.len() - 1]);
        }
        assert(entries_map(r) =~= entries_map(runs).remove(id));
    }
}

impl<S> RunTable<S> {
    #[verifier::type_invariant]
    spec fn distinct(&self) -> bool {
        distinct_ids(entry_ids(self.runs@))
    }

    /// The runs by run id.
    pub closed spec fn view(&self) -> Map<Seq<char>, (S, RunStateV)> {
        entries_map(self.runs@)
    }

    /// An empty table.
    pub fn new() -> (r: RunTable<S>)
        ensures
            r@ == Map::<Seq<char>, (S, RunStateV)>::empty(),
    {
        RunTable { runs: Vec::new() }
    }

    /// The number of runs.
    pub fn len(&self) -> (r: usize)
        ensures
            r == self@.len(),
    {
        proof {
            use_type_invariant(self);
            lemma_ids_of(self.runs@);
        }
        self.runs.len()
    }

    /// The run ids, each once.
    pub fn run_ids(&self) -> (r: Vec<String>)
        ensures
            distinct_ids(strs(r@)),
            forall|id: Seq<char>| self@.contains_key(id) <==> strs(r@).contains(id),
    {
        proof {
            use_type_invariant(self);
            lemma_ids_of(self.runs@);
        }
        let mut out: Vec<String> = Vec::new();
        let mut i: usize = 0;
        while i < self.runs.len()
            invariant
                i <= self.runs.len(),
                strs(out@) == entry_ids(self.runs@).take(i as int),
            decreases self.runs.len() - i,
        {
            let ghost before = strs(out@);
            let id = copy_string(&self.runs[i].state.run_id);
            assert(entry_ids(self.runs@)[i as int] == id@);
            out.push(id);
            assert(strs(out@) =~= before.push(id@));
            i = i + 1;
            assert(strs(out@) =~= entry_ids(self.runs@).take(i as int));
        }
        assert(entry_ids(self.runs@).take(i as int) =~= entry_ids(self.runs@));
        out
    }

    fn position(&self, run_id: &str) -> (r: Option<usize>)
        ensures
            match r {
                Some(i) => i < self.runs.len() && self.runs@[i as int].state.run_id@ == run_id@,
                None => !self@.contains_key(run_id@),
            },
    {
        let mut i: usize = 0;
        while i < self.runs.len()
            invariant
                i <= self.runs.len(),
                forall|k: int| 0 <= k < i ==> (#[trigger] self.runs@[k]).state.run_id@ != run_id@,
            decreases self.runs.len() - i,
        {
            if str_eq(self.runs[i].state.run_id.as_str(), run_id) {
                return Some(i);
            }
            i = i + 1;
        }
        proof { lemma_entries_dom(self.runs@, run_id@); }
        None
    }

    /// The state of a run.
    pub fn get(&self, run_id: &str) -> (r: Result<&RunState, SessionError>)
        ensures
            match r {
                Ok(s) => self@.contains_key(run_id@) && s.model() == self@[run_id@].1,
                Err(e) => !self@.contains_key(run_id@) && (e matches SessionError::UnknownRun(k)
                    && k@ == run_id@),
            },
    {
        proof { use_type_invariant(self); }
        match self.position(run_id) {
            Some(i) => {
                proof { lemma_entries_at(self.runs@, i as int); }
                Ok(&self.runs[i].state)
            },
            None => Err(SessionError::UnknownRun(owned(run_id))),
        }
    }

    /// Takes a run out of the table.
    pub fn take(&mut self, run_id: &str) -> (r: Result<RunEntry<S>, SessionError>)
        ensures
            match r {
                Ok(e) => old(self)@.contains_key(run_id@) && (e.server, e.state.model()) == old(
                    self,
                )@[run_id@] && e.state.run_id@ == run_id@ && final(self)@ == old(self)@.remove(
                    run_id@,
                ),
                Err(e) => !old(self)@.contains_key(run_id@) && final(self)@ == old(self)@ && (
                e matches SessionError::UnknownRun(k) && k@ == run_id@),
            },
    {
        proof { use_type_invariant(&*self); }
        match self.position(run_id) {
            Some(i) => {
                let ghost before = self.runs@;
                proof {
                    lemma_entries_at(before, i as int);
                    lemma_entries_remove(before, i as int);
                    assert(distinct_ids(entry_ids(before.remove(i as int)))) by {
                        let after = before.remove(i as int);
                        assert forall|a: int, b: int|
                            0 <= a < b < entry_ids(after).len() implies entry_ids(after)[a]
                            != entry_ids(after)[b] by {
                            let a2 = if a < i { a } else { a + 1 };
                            let b2 = if b < i { b } else { b + 1 };
                            assert(entry_ids(after)[a] == entry_ids(before)[a2]);
                            assert(entry_ids(after)[b] == entry_ids(before)[b2]);
                        }
                    }
                }
                let mut runs: Vec<RunEntry<S>> = Vec::new();
                std::mem::swap(&mut runs, &mut self.runs);
                let e = runs.remove(i);
                self.runs = runs;
                Ok(e)
            },
            None => Err(SessionError::UnknownRun(owned(run_id))),
        }
    }

    /// Removes a run; whether it was there.
    pub fn remove(&mut self, run_id: &str) -> (r: bool)
        ensures
            r == old(self)@.contains_key(run_id@),
            final(self)@ == old(self)@.remove(run_id@),
    {
        match self.take(run_id) {
            Ok(_) => true,
            Err(_) => {
                assert(old(self)@.remove(run_id@) =~= old(self)@);
                false
            },
        }
    }

    /// Adds a run under its run id, replacing a run with the same id.
    pub fn insert(&mut self, server: S, state: RunState)
        ensures
            final(self)@ == old(self)@.insert(state.run_id@, (server, state.model())),
    {
        let _ = self.remove(state.run_id.as_str());
        proof { use_type_invariant(&*self); }
        let ghost before = self.runs@;
        let ghost id = state.run_id@;
        proof {
            lemma_entries_dom(before, id);
        }
        let ghost e = RunEntry { server, state };
        assert(distinct_ids(entry_ids(before.push(e)))) by {
            let after = before.push(e);
            assert forall|a: int, b: int| 0 <= a < b < entry_ids(after).len() implies entry_ids(
                after,
            )[a] != entry_ids(after)[b] by {
                if b == before.len() {
                    assert(entry_ids(after)[a] == before[a].state.run_id@);
                } else {
                    assert(entry_ids(after)[a] == entry_ids(before)[a]);
                    assert(entry_ids(after)[b] == entry_ids(before)[b]);
                }
            }
        }
        let mut runs: Vec<RunEntry<S>> = Vec::new();
        std::mem::swap(&mut runs, &mut self.runs);
        runs.push(RunEntry { server, state });
        self.runs = runs;
        proof {
            assert(self.runs@.drop_last() =~= before);
        }
    }
}

proof fn lemma_ids_of<S>(runs: Seq<RunEntry<S>>)
    requires
        distinct_ids(entry_ids(runs)),
    ensures
        forall|id: Seq<char>| entries_map(runs).contains_key(id) <==> entry_ids(runs).contains(id),
        entries_map(runs).len() == runs.len(),
{
    assert forall|id: Seq<char>| entries_map(runs).contains_key(id) <==> entry_ids(runs).contains(id) by {
        lemma_entries_dom(runs, id);
        if entries_map(runs).contains_key(id) {
            let i = choose|i: int| 0 <= i < runs.len() && (#[trigger] runs[i]).state.run_id@ == id;
            assert(entry_ids(runs)[i] == id);
        }
        if entry_ids(runs).contains(id) {
            let i = choose|i: int| 0 <= i < entry_ids(runs).len() && entry_ids(runs)[i] == id;
            assert(runs[i].state.run_id@ == id);
        }
    }
    lemma_map_len(runs);
}

proof fn lemma_map_len<S>(runs: Seq<RunEntry<S>>)
    requires
        distinct_ids(entry_ids(runs)),
    ensures
        entries_map(runs).len() == runs.len(),
        entries_map(runs).dom().finite(),
    decreases runs.len(),
{
    if runs.len() > 0 {
        let init = runs.drop_last();
        assert(distinct_ids(entry_ids(init))) by {
            assert forall|a: int, b: int| 0 <= a < b < entry_ids(init).len() implies entry_ids(
                init,
            )[a] != entry_ids(init)[b] by {
                assert(entry_ids(init)[a] == entry_ids(runs)[a]);
                assert(entry_ids(init)[b] == entry_ids(runs)[b]);
            }
        }
        lemma_map_len(init);
        let id = runs.last().state.run_id@;
        lemma_entries_dom(init, id);
        if entries_map(init).contains_key(id) {
            let k = choose|k: int| 0 <= k < init.len() && (#[trigger] init[k]).state.run_id@ == id;
            assert(entry_ids(runs)[k] == id && entry_ids(runs)[runs.len() - 1] == id);
        }
    }
}

} // verus!
