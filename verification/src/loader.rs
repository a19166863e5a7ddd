use vstd::prelude::*;

use crate::cell::SharedLazyCell;
use crate::state::{
    complete_transition, issues_load, poll_transition, resolved, PollOutcome, SplitLoaderState,
};

verus! {

/// The owning slot for one split module's load state: a shared lazy cell
/// driven on demand. Ensuring the module is loaded is idempotent — after
/// the first resolution every further attempt answers from the cache.
pub struct LazySplitLoader<L, W> {
    lazy: SharedLazyCell<L, W>,
}

impl<L, W> LazySplitLoader<L, W> {
    /// The recorded load progress.
    pub closed spec fn state(self) -> SplitLoaderState<L> {
        self.lazy.state()
    }

    /// How often the load routine has been invoked so far.
    pub closed spec fn issued(self) -> nat {
        self.lazy.issued()
    }

    /// The resumption handles of all waiters registered so far, oldest
    /// first.
    pub closed spec fn waiters(self) -> Seq<W> {
        self.lazy.waiters()
    }

    pub open spec fn wf(self) -> bool {
        crate::cell::wf_shared(self.state(), self.issued(), self.waiters())
    }

    /// A handle in deferred form: `load` is kept, not invoked.
    pub fn new(load: L) -> (r: Self)
        ensures
            r.wf(),
            r.state() == SplitLoaderState::Deferred(load),
            r.issued() == 0,
            r.waiters().len() == 0,
    {
        LazySplitLoader { lazy: SharedLazyCell::new(load) }
    }

    /// A handle whose module is already resident: resolved to success
    /// without any load routine ever running — the form used when the
    /// build did not split this module out.
    pub fn preloaded() -> (r: Self)
        ensures
            r.wf(),
            r.state() == SplitLoaderState::<L>::Completed(true),
            r.issued() == 0,
            r.waiters().len() == 0,
    {
        LazySplitLoader { lazy: SharedLazyCell::preloaded() }
    }

    /// The success flag, once the load has finished.
    pub fn try_get(&self) -> (r: Option<bool>)
        ensures
            r == resolved(self.state()),
    {
        self.lazy.try_get()
    }

    /// Whether a load is in flight: issued, callback still owed.
    pub fn is_pending(&self) -> (r: bool)
        ensures
            r == (self.state() is Pending),
    {
        self.lazy.is_pending()
    }

    /// The callback path: the external loader reported `success`. Every
    /// waiter registered so far is handed back, oldest first, to be
    /// resumed.
    pub fn complete(&mut self, success: bool) -> (woken: Vec<W>)
        requires
            old(self).wf(),
            old(self).state() is Pending,
        ensures
            final(self).wf(),
            final(self).state() == complete_transition(old(self).state(), success),
            final(self).issued() == old(self).issued(),
            woken@ == old(self).waiters(),
            final(self).waiters().len() == 0,
    {
        self.lazy.complete(success)
    }
}

impl<L: Copy, W> LazySplitLoader<L, W> {
    /// One step of waiting for the module, with resumption handle `w`:
    /// a resolved handle answers immediately; otherwise `w` is registered
    /// and, on the very first attempt, the load routine is handed out to
    /// be invoked. Safe to call any number of times from any number of
    /// waiters: the routine still runs at most once.
    pub fn ensure_loaded(&mut self, w: W) -> (out: PollOutcome<L>)
        requires
            old(self).wf(),
        ensures
            final(self).wf(),
            final(self).state() == poll_transition(old(self).state()).0,
            out == poll_transition(old(self).state()).1,
            final(self).issued() == old(self).issued() + issues_load(old(self).state()),
            !(old(self).state() is Completed) ==> final(self).waiters() == old(
                self,
            ).waiters().push(w),
            old(self).state() is Completed ==> final(self).waiters() == old(self).waiters(),
    {
        self.lazy.poll_wait(w)
    }
}

} // verus!
