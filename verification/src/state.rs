use vstd::prelude::*;

verus! {

/// Progress of one split module's load. `L` is the load routine (or an
/// opaque token standing for it) that `Deferred` still holds.
///
/// Transitions run strictly forward, `Deferred -> Pending -> Completed`,
/// and a `Completed` state is terminal: the success flag never changes
/// afterwards, so a failed load stays failed.
#[derive(Clone, Copy)]
pub enum SplitLoaderState<L> {
    /// The load routine has not been invoked yet.
    Deferred(L),
    /// The load routine was invoked; its callback has not fired yet.
    Pending,
    /// The callback fired with this success flag.
    Completed(bool),
}

/// What one poll of the loader asks its driver to do.
#[derive(Clone, Copy)]
pub enum PollOutcome<L> {
    /// First poll: invoke this load routine exactly once, then suspend.
    Issue(L),
    /// A load is already in flight: suspend.
    NotReady,
    /// The load finished with this success flag.
    Ready(bool),
}

/// The success flag of a finished load, or `None` while it is still owed.
pub open spec fn resolved<L>(s: SplitLoaderState<L>) -> Option<bool> {
    match s {
        SplitLoaderState::Completed(b) => Some(b),
        _ => None,
    }
}

/// One poll step: the state afterwards and what the poller must do.
pub open spec fn poll_transition<L>(s: SplitLoaderState<L>) -> (SplitLoaderState<L>, PollOutcome<
    L,
>) {
    match s {
        SplitLoaderState::Deferred(load) => (SplitLoaderState::Pending, PollOutcome::Issue(load)),
        SplitLoaderState::Pending => (SplitLoaderState::Pending, PollOutcome::NotReady),
        SplitLoaderState::Completed(b) => (SplitLoaderState::Completed(b), PollOutcome::Ready(b)),
    }
}

/// The state after the external loader's callback reports `success`.
pub open spec fn complete_transition<L>(s: SplitLoaderState<L>, success: bool) -> SplitLoaderState<
    L,
> {
    SplitLoaderState::Completed(success)
}

/// How many times a poll step from `s` invokes the load routine.
pub open spec fn issues_load<L>(s: SplitLoaderState<L>) -> nat {
    if s is Deferred {
        1nat
    } else {
        0nat
    }
}

/// A loader with `issued` recorded invocations of its load routine is
/// well formed: the routine ran at most once, never while it is still
/// held by `Deferred`, and exactly once when a load is in flight.
pub open spec fn wf_loader<L>(s: SplitLoaderState<L>, issued: nat) -> bool {
    &&& issued <= 1
    &&& (s is Deferred ==> issued == 0)
    &&& (s is Pending ==> issued == 1)
}

/// One thing that can happen to a loader: a waiter polls it, or the
/// external loader's callback reports an outcome.
pub enum LoaderEvent {
    Polled,
    Callback(bool),
}

/// The state after one event. A callback outside an in-flight load is
/// modelled as having no effect; the loader itself never admits one.
pub open spec fn step<L>(s: SplitLoaderState<L>, e: LoaderEvent) -> SplitLoaderState<L> {
    match e {
        LoaderEvent::Polled => poll_transition(s).0,
        LoaderEvent::Callback(b) => if s is Pending {
            complete_transition(s, b)
        } else {
            s
        },
    }
}

/// How many times one event invokes the load routine.
pub open spec fn step_issues<L>(s: SplitLoaderState<L>, e: LoaderEvent) -> nat {
    if e is Polled {
        issues_load(s)
    } else {
        0nat
    }
}

/// The state after a whole sequence of events.
pub open spec fn run<L>(s: SplitLoaderState<L>, es: Seq<LoaderEvent>) -> SplitLoaderState<L>
    decreases es.len(),
{
    if es.len() == 0 {
        s
    } else {
        run(step(s, es[0]), es.subrange(1, es.len() as int))
    }
}

/// How many times a whole sequence of events invokes the load routine.
pub open spec fn run_issues<L>(s: SplitLoaderState<L>, es: Seq<LoaderEvent>) -> nat
    decreases es.len(),
{
    if es.len() == 0 {
        0nat
    } else {
        step_issues(s, es[0]) + run_issues(step(s, es[0]), es.subrange(1, es.len() as int))
    }
}

/// However a loader is polled and completed — any number of times, in any
/// order — the load routine is invoked at most once, and never at all
/// once the loader has left its deferred form.
pub proof fn lemma_load_issued_at_most_once<L>(s: SplitLoaderState<L>, es: Seq<LoaderEvent>)
    ensures
        run_issues(s, es) <= 1,
        !(s is Deferred) ==> run_issues(s, es) == 0,
    decreases es.len(),
{
    if es.len() > 0 {
        lemma_load_issued_at_most_once(step(s, es[0]), es.subrange(1, es.len() as int));
    }
}

/// A finished load is terminal: no sequence of later polls or callbacks
/// changes the recorded outcome, so a failed load stays failed.
pub proof fn lemma_completed_is_terminal<L>(b: bool, es: Seq<LoaderEvent>)
    ensures
        run(SplitLoaderState::<L>::Completed(b), es) == SplitLoaderState::<L>::Completed(b),
    decreases es.len(),
{
    if es.len() > 0 {
        lemma_completed_is_terminal::<L>(b, es.subrange(1, es.len() as int));
    }
}

/// Without the external loader's callback nothing ever resolves: polling
/// alone, however often, never reaches a completed state. A caller that
/// asks for the outcome before any callback fired is therefore always
/// refused.
pub proof fn lemma_no_resolution_without_callback<L>(s: SplitLoaderState<L>, es: Seq<LoaderEvent>)
    requires
        !(s is Completed),
        forall|i: int| 0 <= i < es.len() ==> !(es[i] is Callback),
    ensures
        !(run(s, es) is Completed),
    decreases es.len(),
{
    if es.len() > 0 {
        assert(!(es[0] is Callback));
        lemma_no_resolution_without_callback(step(s, es[0]), es.subrange(1, es.len() as int));
    }
}

/// A loader built in preloaded form — completed successfully from the
/// start — never invokes any load routine and never changes its outcome,
/// whatever happens to it afterwards.
pub proof fn lemma_preloaded_never_loads<L>(es: Seq<LoaderEvent>)
    ensures
        run_issues(SplitLoaderState::<L>::Completed(true), es) == 0,
        run(SplitLoaderState::<L>::Completed(true), es) == SplitLoaderState::<L>::Completed(true),
{
    lemma_load_issued_at_most_once(SplitLoaderState::<L>::Completed(true), es);
    lemma_completed_is_terminal::<L>(true, es);
}

/// Once the load finished with flag `b`, every poll in any later event
/// sequence answers `Ready(b)`: however many waiters there are and in
/// whatever order they re-poll, all of them observe the same outcome.
pub proof fn lemma_every_waiter_observes_same_flag<L>(b: bool, es: Seq<LoaderEvent>, i: int)
    requires
        0 <= i < es.len(),
        es[i] is Polled,
    ensures
        poll_transition(run(SplitLoaderState::<L>::Completed(b), es.subrange(0, i))).1
            == PollOutcome::<L>::Ready(b),
{
    lemma_completed_is_terminal::<L>(b, es.subrange(0, i));
}

/// A poll answers `Ready(b)` exactly when the load already finished with
/// outcome `b`; the poll leaves that outcome in place.
pub proof fn lemma_ready_means_completed<L>(s: SplitLoaderState<L>, b: bool)
    requires
        poll_transition(s).1 == PollOutcome::<L>::Ready(b),
    ensures
        s == SplitLoaderState::<L>::Completed(b),
        poll_transition(s).0 == s,
{
}

/// Records the load progress of one split module and, as ghost history,
/// how often the load routine has been invoked.
pub struct SplitLoader<L> {
    state: SplitLoaderState<L>,
    issued: Ghost<nat>,
}

impl<L> SplitLoader<L> {
    /// The recorded load progress.
    pub closed spec fn state(self) -> SplitLoaderState<L> {
        self.state
    }

    /// How often the load routine has been invoked so far.
    pub closed spec fn issued(self) -> nat {
        self.issued@
    }

    pub open spec fn wf(self) -> bool {
        wf_loader(self.state(), self.issued())
    }

    /// A loader in deferred form: `load` is kept, not invoked.
    pub fn new(load: L) -> (r: Self)
        ensures
            r.wf(),
            r.state() == SplitLoaderState::Deferred(load),
            r.issued() == 0,
    {
        SplitLoader { state: SplitLoaderState::Deferred(load), issued: Ghost(0nat) }
    }

    /// A loader whose module is already resident: completed successfully
    /// without any load routine ever running.
    pub fn preloaded() -> (r: Self)
        ensures
            r.wf(),
            r.state() == SplitLoaderState::<L>::Completed(true),
            r.issued() == 0,
    {
        SplitLoader { state: SplitLoaderState::Completed(true), issued: Ghost(0nat) }
    }

    /// The success flag, once the load has finished.
    pub fn try_get(&self) -> (r: Option<bool>)
        ensures
            r == resolved(self.state()),
    {
        match &self.state {
            SplitLoaderState::Completed(b) => Some(*b),
            _ => None,
        }
    }

    /// Whether a load is in flight: issued, callback still owed.
    pub fn is_pending(&self) -> (r: bool)
        ensures
            r == (self.state() is Pending),
    {
        match &self.state {
            SplitLoaderState::Pending => true,
            _ => false,
        }
    }

    /// The callback path: the external loader reported `success`.
    /// Only a loader with a load in flight can be completed.
    pub fn complete(&mut self, success: bool)
        requires
            old(self).wf(),
            old(self).state() is Pending,
        ensures
            final(self).wf(),
            final(self).state() == complete_transition(old(self).state(), success),
            final(self).issued() == old(self).issued(),
    {
        self.state = SplitLoaderState::Completed(success);
    }
}

impl<L: Copy> SplitLoader<L> {
    /// One poll step. On the first poll this hands the load routine out
    /// for the caller to invoke — the only way it is ever issued.
    pub fn advance(&mut self) -> (out: PollOutcome<L>)
        requires
            old(self).wf(),
        ensures
            final(self).wf(),
            final(self).state() == poll_transition(old(self).state()).0,
            out == poll_transition(old(self).state()).1,
            final(self).issued() == old(self).issued() + issues_load(old(self).state()),
    {
        match self.state {
            SplitLoaderState::Deferred(load) => {
                self.state = SplitLoaderState::Pending;
                proof {
                    self.issued@ = self.issued@ + 1;
                }
                PollOutcome::Issue(load)
            },
            SplitLoaderState::Pending => PollOutcome::NotReady,
            SplitLoaderState::Completed(b) => PollOutcome::Ready(b),
        }
    }
}

} // verus!
