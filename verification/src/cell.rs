use vstd::prelude::*;

use crate::state::{
    complete_transition, issues_load, poll_transition, resolved, wf_loader, PollOutcome,
    SplitLoader, SplitLoaderState,
};

verus! {

/// Memoizes one asynchronous load for any number of waiters: all of them
/// pay for exactly one invocation of the load routine and observe the
/// same outcome, and waiters arriving after resolution are answered
/// immediately.
///
/// Every waiter that polls before resolution is kept in an observer list,
/// in arrival order; completing the load hands the whole list back, so no
/// waiter depends on being the most recent one to have polled.
pub struct SharedLazyCell<L, W> {
    loader: SplitLoader<L>,
    waiters: Vec<W>,
}

/// A sharing layer in state `s` with `issued` recorded invocations and
/// observer list `waiters` is well formed: the loader itself is, before
/// the load routine runs nobody can have waited, and once the load
/// resolved every waiter has been handed back for resumption.
pub open spec fn wf_shared<L, W>(s: SplitLoaderState<L>, issued: nat, waiters: Seq<W>) -> bool {
    &&& wf_loader(s, issued)
    &&& (s is Deferred ==> waiters.len() == 0)
    &&& (s is Completed ==> waiters.len() == 0)
}

impl<L, W> SharedLazyCell<L, W> {
    /// The recorded load progress.
    pub closed spec fn state(self) -> SplitLoaderState<L> {
        self.loader.state()
    }

    /// How often the load routine has been invoked so far.
    pub closed spec fn issued(self) -> nat {
        self.loader.issued()
    }

    /// The resumption handles of all waiters registered so far, oldest
    /// first.
    pub closed spec fn waiters(self) -> Seq<W> {
        self.waiters@
    }

    pub open spec fn wf(self) -> bool {
        wf_shared(self.state(), self.issued(), self.waiters())
    }

    /// A cell in deferred form: `load` is kept, not invoked.
    pub fn new(load: L) -> (r: Self)
        ensures
            r.wf(),
            r.state() == SplitLoaderState::Deferred(load),
            r.issued() == 0,
            r.waiters().len() == 0,
    {
        SharedLazyCell { loader: SplitLoader::new(load), waiters: Vec::new() }
    }

    /// A cell whose module is already resident: resolved to success
    /// without any load routine ever running.
    pub fn preloaded() -> (r: Self)
        ensures
            r.wf(),
            r.state() == SplitLoaderState::<L>::Completed(true),
            r.issued() == 0,
            r.waiters().len() == 0,
    {
        SharedLazyCell { loader: SplitLoader::preloaded(), waiters: Vec::new() }
    }

    /// The success flag, once the load has finished.
    pub fn try_get(&self) -> (r: Option<bool>)
        ensures
            r == resolved(self.state()),
    {
        self.loader.try_get()
    }

    /// Whether a load is in flight: issued, callback still owed.
    pub fn is_pending(&self) -> (r: bool)
        ensures
            r == (self.state() is Pending),
    {
        self.loader.is_pending()
    }

    /// The callback path: the external loader reported `success`. Every
    /// waiter registered so far is handed back, oldest first, so the
    /// caller can resume them all; each of them, re-polling, will now
    /// observe the same `success`.
    pub fn complete(&mut self, success: bool) -> (woken: Vec<W>)
        requires
            old(self).wf(),
            old(self).state() is Pending,
        ensures
            final(self).wf(),
            final(self).state() == complete_transition(old(self).state(), success),
            final(self).issued() == old(self).issued(),
            woken@ == old(self).waiters(),
            final(self).waiters().len() == 0,
    {
        self.loader.complete(success);
        let mut woken: Vec<W> = Vec::new();
        core::mem::swap(&mut self.waiters, &mut woken);
        woken
    }
}

impl<L: Copy, W> SharedLazyCell<L, W> {
    /// One waiter's poll, with its resumption handle `w`. A resolved cell
    /// answers immediately and registers nothing; otherwise `w` joins the
    /// observer list, and on the very first poll the load routine is
    /// handed out to be invoked — the only time it ever is.
    pub fn poll_wait(&mut self, w: W) -> (out: PollOutcome<L>)
        requires
            old(self).wf(),
        ensures
            final(self).wf(),
            final(self).state() == poll_transition(old(self).state()).0,
            out == poll_transition(old(self).state()).1,
            final(self).issued() == old(self).issued() + issues_load(old(self).state()),
            !(old(self).state() is Completed) ==> final(self).waiters() == old(
                self,
            ).waiters().push(w),
            old(self).state() is Completed ==> final(self).waiters() == old(self).waiters(),
    {
        match self.loader.try_get() {
            Some(b) => PollOutcome::Ready(b),
            None => {
                self.waiters.push(w);
                self.loader.advance()
            },
        }
    }
}

} // verus!
