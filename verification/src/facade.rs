use vstd::prelude::*;

use crate::error::SplitLoaderError;
use crate::loader::LazySplitLoader;
use crate::state::{
    complete_transition, issues_load, poll_transition, resolved, PollOutcome, SplitLoaderState,
};

verus! {

/// Binds a function signature to a split module's loader and refuses to
/// invoke the imported function before its module has loaded
/// successfully. `F` is the imported function itself, treated as a
/// capability that may only be exercised once the paired loader records
/// a successful load.
pub struct LazyLoader<Args, Ret, F, L, W> {
    imported: F,
    key: LazySplitLoader<L, W>,
    signature: core::marker::PhantomData<(Args, Ret)>,
}

impl<Args, Ret, F: Fn(Args) -> Ret, L, W> LazyLoader<Args, Ret, F, L, W> {
    /// The bound imported function.
    pub closed spec fn imported(self) -> F {
        self.imported
    }

    /// The paired loader's recorded load progress.
    pub closed spec fn state(self) -> SplitLoaderState<L> {
        self.key.state()
    }

    /// How often the paired loader's load routine has been invoked.
    pub closed spec fn issued(self) -> nat {
        self.key.issued()
    }

    /// The resumption handles of all waiters registered so far, oldest
    /// first.
    pub closed spec fn waiters(self) -> Seq<W> {
        self.key.waiters()
    }

    pub open spec fn wf(self) -> bool {
        crate::cell::wf_shared(self.state(), self.issued(), self.waiters())
    }

    /// Pair the imported function with the loader of the module it lives
    /// in. The function must not be invoked until that loader resolves
    /// successfully; `call` enforces exactly that.
    pub fn new(imported: F, key: LazySplitLoader<L, W>) -> (r: Self)
        ensures
            r.imported() == imported,
            r.state() == key.state(),
            r.issued() == key.issued(),
            r.waiters() == key.waiters(),
            key.wf() ==> r.wf(),
    {
        LazyLoader { imported, key, signature: core::marker::PhantomData }
    }

    /// A facade over a function that is already resident: its loader is
    /// resolved to success from the start, no load routine ever runs,
    /// and `call` succeeds immediately.
    pub fn preloaded(f: F) -> (r: Self)
        ensures
            r.wf(),
            r.imported() == f,
            r.state() == SplitLoaderState::<L>::Completed(true),
            r.issued() == 0,
            r.waiters().len() == 0,
    {
        LazyLoader {
            imported: f,
            key: LazySplitLoader::preloaded(),
            signature: core::marker::PhantomData,
        }
    }

    /// The success flag, once the load has finished.
    pub fn try_get(&self) -> (r: Option<bool>)
        ensures
            r == resolved(self.state()),
    {
        self.key.try_get()
    }

    /// Whether a load is in flight: issued, callback still owed.
    pub fn is_pending(&self) -> (r: bool)
        ensures
            r == (self.state() is Pending),
    {
        self.key.is_pending()
    }

    /// The callback path: the external loader reported `success`. Every
    /// waiter registered so far is handed back, oldest first, to be
    /// resumed.
    pub fn complete(&mut self, success: bool) -> (woken: Vec<W>)
        requires
            old(self).wf(),
            old(self).state() is Pending,
        ensures
            final(self).wf(),
            final(self).state() == complete_transition(old(self).state(), success),
            final(self).issued() == old(self).issued(),
            final(self).imported() == old(self).imported(),
            woken@ == old(self).waiters(),
            final(self).waiters().len() == 0,
    {
        self.key.complete(success)
    }

    /// Invoke the imported function — only allowed to succeed after its
    /// module loaded successfully. Before that, or after a failed load,
    /// this fails with `FailedToLoad` without ever touching the function
    /// and without starting a load.
    pub fn call(&self, args: Args) -> (r: Result<Ret, SplitLoaderError>)
        requires
            resolved(self.state()) == Some(true) ==> call_requires(self.imported(), (args,)),
        ensures
            resolved(self.state()) == Some(true) ==> (r matches Ok(out) && call_ensures(
                self.imported(),
                (args,),
                out,
            )),
            resolved(self.state()) != Some(true) ==> (r matches Err(e) && e
                == SplitLoaderError::FailedToLoad),
    {
        match self.key.try_get() {
            Some(true) => Ok((self.imported)(args)),
            _ => Err(SplitLoaderError::FailedToLoad),
        }
    }
}

impl<Args, Ret, F: Fn(Args) -> Ret, L: Copy, W> LazyLoader<Args, Ret, F, L, W> {
    /// One step of the asynchronous load path, with resumption handle
    /// `w`: delegates to the paired loader. A resolved facade answers
    /// immediately; otherwise the waiter is registered and, on the very
    /// first attempt, the load routine is handed out to be invoked.
    pub fn load(&mut self, w: W) -> (out: PollOutcome<L>)
        requires
            old(self).wf(),
        ensures
            final(self).wf(),
            final(self).state() == poll_transition(old(self).state()).0,
            out == poll_transition(old(self).state()).1,
            final(self).issued() == old(self).issued() + issues_load(old(self).state()),
            final(self).imported() == old(self).imported(),
            !(old(self).state() is Completed) ==> final(self).waiters() == old(
                self,
            ).waiters().push(w),
            old(self).state() is Completed ==> final(self).waiters() == old(self).waiters(),
    {
        self.key.ensure_loaded(w)
    }
}

} // verus!
