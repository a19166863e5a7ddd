use vstd::prelude::*;

use crate::state::{
    complete_transition, issues_load, poll_transition, resolved, wf_loader, PollOutcome,
    SplitLoader, SplitLoaderState,
};

verus! {

/// Holds at most one pending notification target — the most recent
/// waiter's resumption handle. Registering overwrites; nothing is queued.
pub struct WakerSlot<W> {
    slot: Option<W>,
}

impl<W> WakerSlot<W> {
    /// The handle currently stored, if any.
    pub closed spec fn pending(self) -> Option<W> {
        self.slot
    }

    pub fn empty() -> (r: Self)
        ensures
            r.pending() is None,
    {
        WakerSlot { slot: None }
    }

    /// Store `w`, discarding whatever handle was stored before.
    pub fn register(&mut self, w: W)
        ensures
            final(self).pending() == Some(w),
    {
        self.slot = Some(w);
    }

    /// Hand the stored handle out, leaving the slot empty.
    pub fn take(&mut self) -> (r: Option<W>)
        ensures
            r == old(self).pending(),
            final(self).pending() is None,
    {
        self.slot.take()
    }
}

/// The load future: a loader together with a slot for the most recent
/// poller's resumption handle. Driven by repeated polling, it issues the
/// external load exactly once and resolves to the callback's success flag.
pub struct SplitLoaderFuture<L, W> {
    loader: SplitLoader<L>,
    waker: WakerSlot<W>,
}

impl<L, W> SplitLoaderFuture<L, W> {
    /// The recorded load progress.
    pub closed spec fn state(self) -> SplitLoaderState<L> {
        self.loader.state()
    }

    /// How often the load routine has been invoked so far.
    pub closed spec fn issued(self) -> nat {
        self.loader.issued()
    }

    /// The resumption handle currently stored, if any.
    pub closed spec fn waker(self) -> Option<W> {
        self.waker.pending()
    }

    pub open spec fn wf(self) -> bool {
        wf_loader(self.state(), self.issued())
    }

    /// A future in deferred form: `load` is kept, not invoked.
    pub fn new(load: L) -> (r: Self)
        ensures
            r.wf(),
            r.state() == SplitLoaderState::Deferred(load),
            r.issued() == 0,
            r.waker() is None,
    {
        SplitLoaderFuture { loader: SplitLoader::new(load), waker: WakerSlot::empty() }
    }

    /// A future whose module is already resident: resolved to success
    /// without any load routine ever running.
    pub fn preloaded() -> (r: Self)
        ensures
            r.wf(),
            r.state() == SplitLoaderState::<L>::Completed(true),
            r.issued() == 0,
            r.waker() is None,
    {
        SplitLoaderFuture { loader: SplitLoader::preloaded(), waker: WakerSlot::empty() }
    }

    /// The success flag, once the load has finished.
    pub fn try_get(&self) -> (r: Option<bool>)
        ensures
            r == resolved(self.state()),
    {
        self.loader.try_get()
    }

    /// Whether a load is in flight: issued, callback still owed.
    pub fn is_pending(&self) -> (r: bool)
        ensures
            r == (self.state() is Pending),
    {
        self.loader.is_pending()
    }

    /// The callback path: the external loader reported `success`. The
    /// stored handle is handed back so the caller can resume that waiter.
    pub fn complete(&mut self, success: bool) -> (wk: Option<W>)
        requires
            old(self).wf(),
            old(self).state() is Pending,
        ensures
            final(self).wf(),
            final(self).state() == complete_transition(old(self).state(), success),
            final(self).issued() == old(self).issued(),
            wk == old(self).waker(),
            final(self).waker() is None,
    {
        self.loader.complete(success);
        self.waker.take()
    }
}

impl<L: Copy, W> SplitLoaderFuture<L, W> {
    /// One poll with resumption handle `w`. While the load has not
    /// finished, `w` replaces any handle stored earlier, so the most
    /// recent poller is the one notified; a resolved future answers
    /// immediately and stores nothing.
    pub fn poll(&mut self, w: W) -> (out: PollOutcome<L>)
        requires
            old(self).wf(),
        ensures
            final(self).wf(),
            final(self).state() == poll_transition(old(self).state()).0,
            out == poll_transition(old(self).state()).1,
            final(self).issued() == old(self).issued() + issues_load(old(self).state()),
            !(old(self).state() is Completed) ==> final(self).waker() == Some(w),
            old(self).state() is Completed ==> final(self).waker() == old(self).waker(),
    {
        let out = self.loader.advance();
        match &out {
            PollOutcome::Ready(_) => {},
            _ => {
                self.waker.register(w);
            },
        }
        out
    }
}

} // verus!
