//! The benchmark orchestrator, as a step machine: it walks the registry in
//! declared order, asking the caller to invoke one available backend at a
//! time and collecting exactly one outcome for it, and emits a notice for
//! each disabled registration. The caller performs the outside work (reading,
//! subprocesses, native calls) between steps; the decisions and the
//! bookkeeping are verified here, so one backend's failure can only ever be
//! recorded, never skip or abort the rest of the walk.

use vstd::prelude::*;
use crate::outcome::BackendOutcome;
use crate::registry::BackendRegistration;
use crate::registry::distinct_names;
use crate::render::disabled_notice;
use crate::render::spec_disabled_notice;

verus! {

/// The names of the available registrations, in registry order.
pub open spec fn avail_names(regs: Seq<BackendRegistration>) -> Seq<Seq<char>>
    decreases regs.len(),
{
    if regs.len() == 0 {
        Seq::empty()
    } else {
        avail_names(regs.drop_last()) + if regs.last().available {
            seq![regs.last().name@]
        } else {
            Seq::empty()
        }
    }
}

/// The backend names of a sequence of outcomes, in order.
pub open spec fn outcome_names(outs: Seq<BackendOutcome>) -> Seq<Seq<char>>
    decreases outs.len(),
{
    if outs.len() == 0 {
        Seq::empty()
    } else {
        outcome_names(outs.drop_last()).push(outs.last().backend_name@)
    }
}

/// What the orchestrator asks the caller to do next.
pub enum NextStep {
    /// Invoke the available backend at this registry index and record its
    /// outcome.
    Invoke(usize),
    /// The registration at this index is disabled; emit its notice.
    Disabled(usize),
    /// Every registration has been handled.
    Finished,
}

/// One benchmark run in progress: the registry, a cursor over it, and the
/// outcomes collected so far.
pub struct Orchestrator {
    pub regs: Vec<BackendRegistration>,
    pub next: usize,
    pub outcomes: Vec<BackendOutcome>,
}

impl Orchestrator {
    /// The cursor never passes the registry, and the outcomes collected so
    /// far are exactly one per available registration already passed, in
    /// registry order, under that registration's name.
    pub open spec fn wf(self) -> bool {
        &&& self.next <= self.regs@.len()
        &&& outcome_names(self.outcomes@) == avail_names(self.regs@.take(self.next as int))
    }

    /// Starts a run over the given registry, before any backend has been
    /// attempted.
    pub fn new(regs: Vec<BackendRegistration>) -> (o: Orchestrator)
        ensures
            o.wf(),
            o.regs@ == regs@,
            o.next == 0,
            o.outcomes@ == Seq::<BackendOutcome>::empty(),
    {
        let o = Orchestrator { regs, next: 0, outcomes: Vec::new() };
        proof {
            assert(o.regs@.take(0) =~= Seq::<BackendRegistration>::empty());
        }
        o
    }

    /// Decides what to do next from the cursor alone: invoke the next
    /// registration if it is available, notice it if it is disabled, finish
    /// when the registry is exhausted.
    pub fn next_step(&self) -> (s: NextStep)
        requires
            self.wf(),
        ensures
            match s {
                NextStep::Invoke(i) => i == self.next && i < self.regs@.len()
                    && self.regs@[i as int].available,
                NextStep::Disabled(i) => i == self.next && i < self.regs@.len()
                    && !self.regs@[i as int].available,
                NextStep::Finished => self.next == self.regs@.len(),
            },
    {
        if self.next < self.regs.len() {
            if self.regs[self.next].available {
                NextStep::Invoke(self.next)
            } else {
                NextStep::Disabled(self.next)
            }
        } else {
            NextStep::Finished
        }
    }

    /// Records the outcome of invoking the available registration under the
    /// cursor, and moves past it.
    pub fn record_outcome(&mut self, outcome: BackendOutcome)
        requires
            old(self).wf(),
            old(self).next < old(self).regs@.len(),
            old(self).regs@[old(self).next as int].available,
            outcome.backend_name@ == old(self).regs@[old(self).next as int].name@,
        ensures
            final(self).wf(),
            final(self).regs@ == old(self).regs@,
            final(self).next == old(self).next + 1,
            final(self).outcomes@ == old(self).outcomes@.push(outcome),
    {
        proof {
            vstd::std_specs::vec::axiom_spec_len(&self.regs);
            let r = self.regs@;
            let n = self.next as int;
            assert(r.take(n + 1).drop_last() =~= r.take(n));
            assert(self.outcomes@.push(outcome).drop_last() =~= self.outcomes@);
            assert(avail_names(r.take(n)) + seq![r[n].name@] =~= avail_names(r.take(n)).push(
                r[n].name@,
            ));
        }
        self.outcomes.push(outcome);
        self.next = self.next + 1;
    }

    /// Moves past the disabled registration under the cursor, handing back
    /// the notice to emit for it; no outcome is recorded.
    pub fn skip_disabled(&mut self) -> (notice: String)
        requires
            old(self).wf(),
            old(self).next < old(self).regs@.len(),
            !old(self).regs@[old(self).next as int].available,
        ensures
            final(self).wf(),
            final(self).regs@ == old(self).regs@,
            final(self).next == old(self).next + 1,
            final(self).outcomes@ == old(self).outcomes@,
            notice@ == spec_disabled_notice(old(self).regs@[old(self).next as int].name@),
    {
        proof {
            vstd::std_specs::vec::axiom_spec_len(&self.regs);
            let r = self.regs@;
            let n = self.next as int;
            assert(r.take(n + 1).drop_last() =~= r.take(n));
            assert(avail_names(r.take(n)) + Seq::<Seq<char>>::empty() =~= avail_names(r.take(n)));
        }
        let notice = disabled_notice(&self.regs[self.next].name);
        self.next = self.next + 1;
        notice
    }
}

proof fn lemma_outcome_names_len(outs: Seq<BackendOutcome>)
    ensures
        outcome_names(outs).len() == outs.len(),
    decreases outs.len(),
{
    if outs.len() > 0 {
        lemma_outcome_names_len(outs.drop_last());
    }
}

/// Law: a completed run has produced exactly the outcomes of the available
/// registrations — as many outcomes as available registrations, one each, in
/// registry order and under their names — and every recorded elapsed time is
/// nonnegative.
pub proof fn lemma_completed_run_outcomes(o: Orchestrator)
    requires
        o.wf(),
        o.next == o.regs@.len(),
    ensures
        outcome_names(o.outcomes@) == avail_names(o.regs@),
        o.outcomes@.len() == avail_names(o.regs@).len(),
        forall|k: int| 0 <= k < o.outcomes@.len() ==> o.outcomes@[k].duration_nanos >= 0,
{
    assert(o.regs@.take(o.regs@.len() as int) =~= o.regs@);
    lemma_outcome_names_len(o.outcomes@);
}

proof fn lemma_avail_names_excludes(regs: Seq<BackendRegistration>, nm: Seq<char>)
    requires
        forall|i: int| 0 <= i < regs.len() && regs[i].available ==> regs[i].name@ != nm,
    ensures
        !avail_names(regs).contains(nm),
    decreases regs.len(),
{
    if regs.len() > 0 {
        lemma_avail_names_excludes(regs.drop_last(), nm);
        if avail_names(regs).contains(nm) {
            let j = choose|j: int|
                0 <= j < avail_names(regs).len() && avail_names(regs)[j] == nm;
            let head = avail_names(regs.drop_last());
            if j < head.len() {
                assert(head[j] == nm);
            } else {
                assert(regs.last().available && regs.last().name@ == nm);
            }
        }
    }
}

proof fn lemma_avail_names_includes(regs: Seq<BackendRegistration>, k: int)
    requires
        0 <= k < regs.len(),
        regs[k].available,
    ensures
        avail_names(regs).contains(regs[k].name@),
    decreases regs.len(),
{
    if k == regs.len() - 1 {
        let names = avail_names(regs);
        assert(names[names.len() - 1] == regs[k].name@);
    } else {
        lemma_avail_names_includes(regs.drop_last(), k);
        let head = avail_names(regs.drop_last());
        let j = choose|j: int| 0 <= j < head.len() && head[j] == regs.drop_last()[k].name@;
        assert(avail_names(regs)[j] == regs[k].name@);
    }
}

/// Law: in a completed run over a registry with distinct names, a disabled
/// registration's name stands in no outcome, while an available
/// registration's name stands in one.
pub proof fn lemma_outcome_present_iff_available(o: Orchestrator, k: int)
    requires
        o.wf(),
        o.next == o.regs@.len(),
        distinct_names(o.regs@),
        0 <= k < o.regs@.len(),
    ensures
        outcome_names(o.outcomes@).contains(o.regs@[k].name@) == o.regs@[k].available,
{
    lemma_completed_run_outcomes(o);
    if o.regs@[k].available {
        lemma_avail_names_includes(o.regs@, k);
    } else {
        lemma_avail_names_excludes(o.regs@, o.regs@[k].name@);
    }
}

} // verus!
