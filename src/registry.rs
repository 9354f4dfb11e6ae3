//! The registry of in-flight traces, keyed by artifact name.
//!
//! The registry owns each running tracer's handle. It is one value; a
//! service that shares it between tasks guards it with a lock, so that
//! every insertion, removal, kill and listing sees whole entries.

use vstd::prelude::*;

verus! {

/// A live tracer process that can be told to stop.
pub trait ProcessHandle {
    /// Asks the process to terminate. Best effort: a process that has
    /// already exited, or a signal that cannot be delivered, is ignored.
    fn terminate(&mut self);
}

/// A trace whose tracer is running.
pub struct RunningTrace<H> {
    /// When the tracer was spawned, in milliseconds since the Unix epoch.
    pub start_time: i64,
    /// The definition the run was started from.
    pub trace_id: i32,
    /// The tracer process, owned by the registry entry.
    pub child: H,
}

impl<H: ProcessHandle> RunningTrace<H> {
    /// Signals the tracer to stop; the record of the run stays as it was.
    pub fn kill(&mut self)
        ensures
            final(self).start_time == old(self).start_time,
            final(self).trace_id == old(self).trace_id,
    {
        self.child.terminate();
    }
}

/// What a listing reports of one running trace.
pub struct RunningTraceInfo {
    pub file_path: String,
    pub start_time: i64,
    pub trace_id: i32,
}

/// Running traces by artifact name.
pub struct Registry<H> {
    entries: Vec<(String, RunningTrace<H>)>,
    model: Ghost<Map<Seq<char>, RunningTrace<H>>>,
}

impl<H> View for Registry<H> {
    type V = Map<Seq<char>, RunningTrace<H>>;

    closed spec fn view(&self) -> Map<Seq<char>, RunningTrace<H>> {
        self.model@
    }
}

impl<H> Registry<H> {
    /// Each name appears once, and the entries are exactly the map.
    pub closed spec fn wf(&self) -> bool {
        &&& forall|i: int, j: int|
            0 <= i < j < self.entries@.len() ==> #[trigger] self.entries@[i].0@
                != #[trigger] self.entries@[j].0@
        &&& forall|i: int|
            0 <= i < self.entries@.len() ==> self.model@.contains_key(
                #[trigger] self.entries@[i].0@,
            ) && self.model@[self.entries@[i].0@] == self.entries@[i].1
        &&& forall|k: Seq<char>|
            #[trigger] self.model@.contains_key(k) ==> exists|i: int|
                0 <= i < self.entries@.len() && #[trigger] self.entries@[i].0@ == k
    }

    /// An empty registry.
    pub fn new() -> (r: Self)
        ensures
            r.wf(),
            r@ == Map::<Seq<char>, RunningTrace<H>>::empty(),
    {
        Registry { entries: Vec::new(), model: Ghost(Map::empty()) }
    }

    fn find(&self, name: &str) -> (r: Option<usize>)
        requires
            self.wf(),
        ensures
            match r {
                Some(i) => i < self.entries@.len() && self.entries@[i as int].0@ == name@,
                None => !self@.contains_key(name@),
            },
    {
        let key = String::from_str(name);
        let n = self.entries.len();
        let mut i: usize = 0;
        while i < n
            invariant
                n == self.entries@.len(),
                i <= n,
                key@ == name@,
                forall|j: int| 0 <= j < i ==> self.entries@[j].0@ != name@,
            decreases n - i,
        {
            if self.entries[i].0 == key {
                return Some(i);
            }
            i = i + 1;
        }
        None
    }

    /// Whether a trace runs under `name`.
    pub fn contains(&self, name: &str) -> (r: bool)
        requires
            self.wf(),
        ensures
            r == self@.contains_key(name@),
    {
        match self.find(name) {
            Some(_) => true,
            None => false,
        }
    }

    fn remove_at(&mut self, i: usize) -> (r: RunningTrace<H>)
        requires
            old(self).wf(),
            i < old(self).entries@.len(),
        ensures
            final(self).wf(),
            r == old(self)@[old(self).entries@[i as int].0@],
            final(self)@ == old(self)@.remove(old(self).entries@[i as int].0@),
    {
        let ghost key = self.entries@[i as int].0@;
        let ghost old_entries = self.entries@;
        let entry = self.entries.remove(i);
        self.model = Ghost(self.model@.remove(key));
        assert forall|j: int| 0 <= j < self.entries@.len() implies self.entries@[j].0@ != key by {
            if j < i {
                assert(self.entries@[j] == old_entries[j]);
            } else {
                assert(self.entries@[j] == old_entries[j + 1]);
            }
        }
        assert forall|k: Seq<char>| #[trigger] self.model@.contains_key(k) implies exists|j: int|
            0 <= j < self.entries@.len() && #[trigger] self.entries@[j].0@ == k by {
            let j0 = choose|j: int| 0 <= j < old_entries.len() && #[trigger] old_entries[j].0@ == k;
            if j0 < i {
                assert(self.entries@[j0] == old_entries[j0]);
            } else {
                assert(j0 != i);
                assert(self.entries@[j0 - 1] == old_entries[j0]);
            }
        }
        entry.1
    }

    /// Kills the tracer running under `name` and removes its entry.
    /// Returns whether there was one; where there was none, nothing
    /// changes. Either way `name` is absent afterwards.
    pub fn kill(&mut self, name: &str) -> (r: bool)
        where
            H: ProcessHandle,
        requires
            old(self).wf(),
        ensures
            final(self).wf(),
            r == old(self)@.contains_key(name@),
            final(self)@ == old(self)@.remove(name@),
            !final(self)@.contains_key(name@),
            !r ==> final(self)@ == old(self)@,
    {
        match self.find(name) {
            Some(i) => {
                let mut trace = self.remove_at(i);
                trace.kill();
                true
            },
            None => {
                assert(self@.remove(name@) =~= self@);
                false
            },
        }
    }

    /// A snapshot of every running trace, in the order they were put.
    pub fn list(&self) -> (r: Vec<RunningTraceInfo>)
        requires
            self.wf(),
        ensures
            forall|i: int|
                0 <= i < r@.len() ==> #[trigger] self@.contains_key(r@[i].file_path@)
                    && self@[r@[i].file_path@].start_time == r@[i].start_time
                    && self@[r@[i].file_path@].trace_id == r@[i].trace_id,
            forall|k: Seq<char>|
                #[trigger] self@.contains_key(k) ==> exists|i: int|
                    0 <= i < r@.len() && #[trigger] r@[i].file_path@ == k,
            forall|i: int, j: int|
                0 <= i < j < r@.len() ==> #[trigger] r@[i].file_path@ != #[trigger] r@[j].file_path@,
    {
        let mut out: Vec<RunningTraceInfo> = Vec::new();
        let n = self.entries.len();
        let mut i: usize = 0;
        while i < n
            invariant
                self.wf(),
                n == self.entries@.len(),
                i <= n,
                out@.len() == i,
                forall|j: int|
                    0 <= j < i ==> #[trigger] out@[j].file_path@ == self.entries@[j].0@
                        && out@[j].start_time == self.entries@[j].1.start_time
                        && out@[j].trace_id == self.entries@[j].1.trace_id,
            decreases n - i,
        {
            let entry = &self.entries[i];
            out.push(
                RunningTraceInfo {
                    file_path: entry.0.clone(),
                    start_time: entry.1.start_time,
                    trace_id: entry.1.trace_id,
                },
            );
            i = i + 1;
        }
        assert forall|k: Seq<char>| #[trigger] self@.contains_key(k) implies exists|i: int|
            0 <= i < out@.len() && #[trigger] out@[i].file_path@ == k by {
            let j = choose|j: int| 0 <= j < self.entries@.len() && #[trigger] self.entries@[j].0@ == k;
            assert(out@[j].file_path@ == k);
        }
        assert forall|a: int, b: int| 0 <= a < b < out@.len() implies #[trigger] out@[a].file_path@
            != #[trigger] out@[b].file_path@ by {
            assert(out@[a].file_path@ == self.entries@[a].0@);
            assert(out@[b].file_path@ == self.entries@[b].0@);
        }
        out
    }
}

/// Records `trace` as running under `name`, replacing any entry of that
/// name.
pub fn put_running<H>(registry: &mut Registry<H>, name: &str, trace: RunningTrace<H>)
    requires
        old(registry).wf(),
    ensures
        final(registry).wf(),
        final(registry)@ == old(registry)@.insert(name@, trace),
{
    match registry.find(name) {
        Some(i) => {
            registry.remove_at(i);
        },
        None => {},
    }
    let ghost before = registry.entries@;
    let ghost key = name@;
    assert(!registry@.contains_key(key));
    registry.entries.push((String::from_str(name), trace));
    registry.model = Ghost(registry.model@.insert(key, trace));
    assert forall|i: int, j: int| 0 <= i < j < registry.entries@.len() implies #[trigger]
        registry.entries@[i].0@ != #[trigger] registry.entries@[j].0@ by {
        if j == before.len() {
            assert(registry.entries@[i] == before[i]);
        } else {
            assert(registry.entries@[i] == before[i]);
            assert(registry.entries@[j] == before[j]);
        }
    }
    assert forall|k: Seq<char>| #[trigger] registry.model@.contains_key(k) implies exists|i: int|
        0 <= i < registry.entries@.len() && #[trigger] registry.entries@[i].0@ == k by {
        if k == key {
            assert(registry.entries@[before.len() as int].0@ == k);
        } else {
            let j = choose|j: int| 0 <= j < before.len() && #[trigger] before[j].0@ == k;
            assert(registry.entries@[j] == before[j]);
        }
    }
}

/// Removes the entry of `name`, if there is one.
pub fn remove_running<H>(registry: &mut Registry<H>, name: &str)
    requires
        old(registry).wf(),
    ensures
        final(registry).wf(),
        final(registry)@ == old(registry)@.remove(name@),
{
    match registry.find(name) {
        Some(i) => {
            registry.remove_at(i);
        },
        None => {
            assert(registry@.remove(name@) =~= registry@);
        },
    }
}

} // verus!
