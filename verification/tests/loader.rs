use wasm_split::cell::SharedLazyCell;
use wasm_split::error::SplitLoaderError;
use wasm_split::facade::LazyLoader;
use wasm_split::future::{SplitLoaderFuture, WakerSlot};
use wasm_split::loader::LazySplitLoader;
use wasm_split::state::{PollOutcome, SplitLoader};

#[test]
fn load_routine_issued_at_most_once() {
    let mut l: SplitLoader<u32> = SplitLoader::new(7);
    assert!(matches!(l.advance(), PollOutcome::Issue(7)));
    assert!(matches!(l.advance(), PollOutcome::NotReady));
    assert!(matches!(l.advance(), PollOutcome::NotReady));
    l.complete(true);
    assert!(matches!(l.advance(), PollOutcome::Ready(true)));
    assert!(matches!(l.advance(), PollOutcome::Ready(true)));
}

#[test]
fn try_get_tracks_progress() {
    let mut l: SplitLoader<u32> = SplitLoader::new(3);
    assert!(l.try_get().is_none());
    assert!(!l.is_pending());
    assert!(matches!(l.advance(), PollOutcome::Issue(3)));
    assert!(l.try_get().is_none());
    assert!(l.is_pending());
    l.complete(false);
    assert_eq!(l.try_get(), Some(false));
    assert!(!l.is_pending());
}

#[test]
fn preloaded_loader_is_resolved_without_issuing() {
    let mut l: SplitLoader<u32> = SplitLoader::preloaded();
    assert_eq!(l.try_get(), Some(true));
    assert!(matches!(l.advance(), PollOutcome::Ready(true)));
}

#[test]
fn waker_slot_overwrites_and_takes() {
    let mut s: WakerSlot<u8> = WakerSlot::empty();
    assert_eq!(s.take(), None);
    s.register(1);
    s.register(2);
    assert_eq!(s.take(), Some(2));
    assert_eq!(s.take(), None);
}

#[test]
fn future_wakes_most_recent_poller() {
    let mut f: SplitLoaderFuture<u32, u8> = SplitLoaderFuture::new(9);
    assert!(matches!(f.poll(1), PollOutcome::Issue(9)));
    assert!(matches!(f.poll(2), PollOutcome::NotReady));
    assert!(matches!(f.poll(3), PollOutcome::NotReady));
    let woken = f.complete(true);
    assert_eq!(woken, Some(3));
    assert!(matches!(f.poll(4), PollOutcome::Ready(true)));
}

#[test]
fn future_preloaded_stores_no_waker() {
    let mut f: SplitLoaderFuture<u32, u8> = SplitLoaderFuture::preloaded();
    assert!(matches!(f.poll(1), PollOutcome::Ready(true)));
    assert_eq!(f.try_get(), Some(true));
}

#[test]
fn all_waiters_observe_one_outcome() {
    let mut c: SharedLazyCell<u32, u32> = SharedLazyCell::new(11);
    assert!(matches!(c.poll_wait(1), PollOutcome::Issue(11)));
    assert!(matches!(c.poll_wait(2), PollOutcome::NotReady));
    assert!(matches!(c.poll_wait(3), PollOutcome::NotReady));
    let woken = c.complete(true);
    assert_eq!(woken, vec![1, 2, 3]);
    assert!(matches!(c.poll_wait(1), PollOutcome::Ready(true)));
    assert!(matches!(c.poll_wait(2), PollOutcome::Ready(true)));
    assert!(matches!(c.poll_wait(3), PollOutcome::Ready(true)));
    assert_eq!(c.try_get(), Some(true));
}

#[test]
fn failed_load_stays_failed() {
    let mut c: SharedLazyCell<u32, u32> = SharedLazyCell::new(11);
    assert!(matches!(c.poll_wait(1), PollOutcome::Issue(11)));
    let woken = c.complete(false);
    assert_eq!(woken, vec![1]);
    assert!(matches!(c.poll_wait(2), PollOutcome::Ready(false)));
    assert!(matches!(c.poll_wait(3), PollOutcome::Ready(false)));
    assert_eq!(c.try_get(), Some(false));
}

#[test]
fn ensure_loaded_is_idempotent_after_resolution() {
    let mut h: LazySplitLoader<u32, u8> = LazySplitLoader::new(5);
    assert!(matches!(h.ensure_loaded(10), PollOutcome::Issue(5)));
    assert!(h.is_pending());
    let woken = h.complete(true);
    assert_eq!(woken, vec![10]);
    assert!(matches!(h.ensure_loaded(11), PollOutcome::Ready(true)));
    assert!(matches!(h.ensure_loaded(12), PollOutcome::Ready(true)));
    assert_eq!(h.try_get(), Some(true));
}

#[test]
fn call_before_any_load_fails() {
    let f: LazyLoader<(i64, i64), i64, _, u32, u8> =
        LazyLoader::new(|p: (i64, i64)| p.0 + p.1, LazySplitLoader::new(7));
    assert!(matches!(f.call((2, 3)), Err(SplitLoaderError::FailedToLoad)));
    assert!(matches!(f.call((0, 0)), Err(SplitLoaderError::FailedToLoad)));
}

#[test]
fn scenario_deferred_add_success() {
    let mut f: LazyLoader<(i64, i64), i64, _, u32, u8> =
        LazyLoader::new(|p: (i64, i64)| p.0 + p.1, LazySplitLoader::new(7));
    // first load attempt triggers the registered load routine, token 7
    assert!(matches!(f.load(0), PollOutcome::Issue(7)));
    // before the callback fires, calling fails
    assert!(matches!(f.call((2, 3)), Err(SplitLoaderError::FailedToLoad)));
    // the callback reports success and hands the waiter back
    let woken = f.complete(true);
    assert_eq!(woken, vec![0]);
    // the in-flight load now resolves to true
    assert!(matches!(f.load(1), PollOutcome::Ready(true)));
    assert_eq!(f.call((2, 3)), Ok(5));
}

#[test]
fn scenario_deferred_add_failure() {
    let mut f: LazyLoader<(i64, i64), i64, _, u32, u8> =
        LazyLoader::new(|p: (i64, i64)| p.0 + p.1, LazySplitLoader::new(7));
    assert!(matches!(f.load(0), PollOutcome::Issue(7)));
    let woken = f.complete(false);
    assert_eq!(woken, vec![0]);
    assert!(matches!(f.load(1), PollOutcome::Ready(false)));
    assert!(matches!(f.call((2, 3)), Err(SplitLoaderError::FailedToLoad)));
    assert!(matches!(f.call((2, 3)), Err(SplitLoaderError::FailedToLoad)));
}

#[test]
fn preloaded_facade_succeeds_immediately() {
    let mut f: LazyLoader<i64, i64, _, u32, u8> = LazyLoader::preloaded(|x: i64| x * 2);
    // resolves to true at once; no load routine is ever handed out
    assert!(matches!(f.load(0), PollOutcome::Ready(true)));
    assert_eq!(f.call(21), Ok(42));
    assert_eq!(f.try_get(), Some(true));
}

#[test]
fn repeated_loads_issue_only_once() {
    let mut f: LazyLoader<(i64, i64), i64, _, u32, u8> =
        LazyLoader::new(|p: (i64, i64)| p.0 + p.1, LazySplitLoader::new(7));
    assert!(matches!(f.load(0), PollOutcome::Issue(7)));
    assert!(matches!(f.load(1), PollOutcome::NotReady));
    assert!(matches!(f.load(2), PollOutcome::NotReady));
    let woken = f.complete(true);
    assert_eq!(woken, vec![0, 1, 2]);
    assert!(matches!(f.load(3), PollOutcome::Ready(true)));
}

#[test]
fn error_message_names_the_failure() {
    let e = SplitLoaderError::FailedToLoad;
    assert_eq!(e.message(), "Failed to load wasm-split module");
}
