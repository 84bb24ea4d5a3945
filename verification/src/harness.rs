//! The scheduler that bounds metadata requests to two in flight.

use vstd::prelude::*;

verus! {

/// The most requests the harness allows in flight at once.
pub const IN_FLIGHT_BOUND: usize = 2;

/// The scheduling state of one run: every dependency name, how many fetches
/// have been launched (a prefix of `names`), how many of those are still in
/// flight, and how many completed — `failures` of them unsuccessfully.
pub struct Harness {
    pub names: Vec<String>,
    pub launched: usize,
    pub in_flight: usize,
    pub completed: usize,
    pub failures: usize,
}

impl Harness {
    /// The scheduling invariant. In particular, at no instant are more than
    /// two requests in flight.
    pub open spec fn wf(self) -> bool {
        &&& self.launched <= self.names@.len()
        &&& self.in_flight <= IN_FLIGHT_BOUND
        &&& self.completed + self.in_flight == self.launched
        &&& self.failures <= self.completed
    }

    /// Every dependency has reached a terminal state.
    pub open spec fn spec_done(self) -> bool {
        self.completed == self.names@.len()
    }

    /// A harness over the given dependency names, nothing launched yet.
    pub fn new(names: Vec<String>) -> (h: Harness)
        ensures
            h.wf(),
            h.names == names,
            h.launched == 0,
            h.in_flight == 0,
            h.completed == 0,
            h.failures == 0,
    {
        Harness { names, launched: 0, in_flight: 0, completed: 0, failures: 0 }
    }

    /// Whether a further fetch may be launched now: a name remains and the
    /// in-flight bound leaves room.
    pub fn can_launch(&self) -> (r: bool)
        ensures
            r == (self.launched < self.names@.len() && self.in_flight < IN_FLIGHT_BOUND),
    {
        self.launched < self.names.len() && self.in_flight < IN_FLIGHT_BOUND
    }

    /// Launch the fetch of the next dependency, returning its name. Each of
    /// the run's launches takes a distinct entry of `names`, so a finished
    /// run has made exactly one request per name.
    pub fn launch(&mut self) -> (name: String)
        requires
            old(self).wf(),
            old(self).launched < old(self).names@.len(),
            old(self).in_flight < IN_FLIGHT_BOUND,
        ensures
            final(self).wf(),
            name == old(self).names@[old(self).launched as int],
            final(self).names == old(self).names,
            final(self).launched == old(self).launched + 1,
            final(self).in_flight == old(self).in_flight + 1,
            final(self).completed == old(self).completed,
            final(self).failures == old(self).failures,
    {
        let n = self.names.len();
        assert(self.launched < n);
        let name = self.names[self.launched].clone();
        self.launched += 1;
        self.in_flight += 1;
        name
    }

    /// Record that one in-flight fetch reached a terminal state, `ok` saying
    /// whether it succeeded.
    pub fn complete(&mut self, ok: bool)
        requires
            old(self).wf(),
            old(self).in_flight > 0,
        ensures
            final(self).wf(),
            *final(self) == after_complete(*old(self), ok),
    {
        self.in_flight -= 1;
        self.completed += 1;
        if !ok {
            self.failures += 1;
        }
    }

    /// Whether every dependency has reached a terminal state.
    pub fn is_done(&self) -> (r: bool)
        ensures
            r == self.spec_done(),
    {
        self.completed == self.names.len()
    }
}

/// The scheduling state after one completion with outcome `ok`.
pub open spec fn after_complete(h: Harness, ok: bool) -> Harness {
    Harness {
        in_flight: (h.in_flight - 1) as usize,
        completed: (h.completed + 1) as usize,
        failures: if ok {
            h.failures
        } else {
            (h.failures + 1) as usize
        },
        ..h
    }
}

/// Law: at no instant are more than two requests in flight.
pub proof fn lemma_in_flight_bounded(h: Harness)
    requires
        h.wf(),
    ensures
        h.in_flight <= 2,
{
}

/// Law: a finished run has launched exactly one fetch per manifest entry —
/// as many requests as there are names, all of them completed — and since
/// the manifest's names are distinct, one request per distinct dependency.
pub proof fn lemma_finished_run_fetched_every_name(h: Harness)
    requires
        h.wf(),
        h.spec_done(),
    ensures
        h.launched == h.names@.len(),
        h.in_flight == 0,
{
}

/// Law: a finished run over a manifest's names — pairwise distinct, as the
/// keys of a manifest's dependency table are — has made exactly as many
/// requests as there are distinct dependency names.
pub proof fn lemma_one_request_per_distinct_name(h: Harness)
    requires
        h.wf(),
        h.spec_done(),
        h.names@.map_values(|n: String| n@).no_duplicates(),
    ensures
        h.launched == h.names@.map_values(|n: String| n@).to_set().len(),
{
    h.names@.map_values(|n: String| n@).unique_seq_to_set();
}

/// Law: a per-dependency failure never blocks the others. The outcome of a
/// completion touches only the failure count: the names, the launch cursor
/// and the in-flight room — everything launching decisions read — are the
/// same whether the dependency succeeded or failed.
pub proof fn lemma_failure_does_not_block_others(h: Harness)
    ensures
        after_complete(h, true).names == after_complete(h, false).names,
        after_complete(h, true).launched == after_complete(h, false).launched,
        after_complete(h, true).in_flight == after_complete(h, false).in_flight,
        after_complete(h, true).completed == after_complete(h, false).completed,
{
}

} // verus!
