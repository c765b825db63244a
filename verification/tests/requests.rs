use std::rc::Rc;
use sync_fence::context::{Context, ExtensionsList};
use sync_fence::driver::{DriverCall, NativeSyncHandle, Request, WaitOutcome, ONE_YEAR_NS};
use sync_fence::sync::{
    destroy_linear_sync_fence, new_linear_sync_fence, new_linear_sync_fence_if_supported,
    wait_linear_sync_fence_and_drop, SyncFence, WaitFailure,
};
use sync_fence::version::{Api, Version};

fn core_context() -> Context {
    Context {
        version: Version(Api::Gl, 3, 2),
        extensions: ExtensionsList { gl_arb_sync: false, gl_apple_sync: false },
    }
}

fn es_context() -> Context {
    Context {
        version: Version(Api::GlEs, 3, 0),
        extensions: ExtensionsList { gl_arb_sync: false, gl_apple_sync: false },
    }
}

fn arb_context() -> Context {
    Context {
        version: Version(Api::Gl, 2, 1),
        extensions: ExtensionsList { gl_arb_sync: true, gl_apple_sync: false },
    }
}

fn apple_context() -> Context {
    Context {
        version: Version(Api::Gl, 2, 1),
        extensions: ExtensionsList { gl_arb_sync: false, gl_apple_sync: true },
    }
}

fn bare_context() -> Context {
    Context {
        version: Version(Api::Gl, 2, 1),
        extensions: ExtensionsList { gl_arb_sync: false, gl_apple_sync: false },
    }
}

#[test]
fn one_year_deadline_has_its_exact_value() {
    assert_eq!(ONE_YEAR_NS, 31_536_000_000_000_000u64);
    assert_eq!(ONE_YEAR_NS, 365 * 24 * 3600 * 1000 * 1000 * 1000);
}

#[test]
fn signaled_answers_are_the_two_successes() {
    assert!(WaitOutcome::AlreadySignaled.is_signaled());
    assert!(WaitOutcome::ConditionSatisfied.is_signaled());
    assert!(!WaitOutcome::TimeoutExpired.is_signaled());
    assert!(!WaitOutcome::WaitFailed.is_signaled());
}

#[test]
fn calls_are_classified() {
    let fence = NativeSyncHandle(7);
    assert!(DriverCall::FenceSync.is_create());
    assert!(DriverCall::FenceSyncApple.is_create());
    assert!(!DriverCall::DeleteSync { fence }.is_create());
    assert!(!DriverCall::ClientWaitSync { fence, flush: false, timeout_ns: 0 }.is_create());
    assert!(DriverCall::DeleteSync { fence }.is_delete());
    assert!(DriverCall::DeleteSyncApple { fence }.is_delete());
    assert!(!DriverCall::FenceSync.is_delete());
    assert!(!DriverCall::ClientWaitSyncApple { fence, flush: true, timeout_ns: 1 }.is_delete());
}

#[test]
fn linear_creation_uses_the_core_call() {
    for ctxt in [core_context(), es_context(), arb_context()] {
        let (_pending, request) = new_linear_sync_fence_if_supported(&ctxt).unwrap();
        assert_eq!(request, Request { make_current: false, call: DriverCall::FenceSync });
        let (_pending, request) = new_linear_sync_fence(&ctxt);
        assert_eq!(request, Request { make_current: false, call: DriverCall::FenceSync });
    }
}

#[test]
fn linear_creation_uses_the_apple_call() {
    let ctxt = apple_context();
    let (_pending, request) = new_linear_sync_fence_if_supported(&ctxt).unwrap();
    assert_eq!(request, Request { make_current: false, call: DriverCall::FenceSyncApple });
    let (_pending, request) = new_linear_sync_fence(&ctxt);
    assert_eq!(request, Request { make_current: false, call: DriverCall::FenceSyncApple });
}

#[test]
fn linear_creation_is_refused_without_support() {
    assert!(new_linear_sync_fence_if_supported(&bare_context()).is_none());
}

#[test]
fn created_prototype_holds_the_handle() {
    let (pending, _request) = new_linear_sync_fence(&core_context());
    let mut fence = pending.created(NativeSyncHandle(41));
    assert!(fence.holds_handle());
    assert_eq!(fence.handle(), Some(NativeSyncHandle(41)));
    assert_eq!(fence.take(), Some(NativeSyncHandle(41)));
    assert!(!fence.holds_handle());
    assert_eq!(fence.handle(), None);
    assert_eq!(fence.take(), None);
}

#[test]
fn dropping_a_full_prototype_is_fatal_unless_unwinding() {
    let (pending, _request) = new_linear_sync_fence(&core_context());
    let mut fence = pending.created(NativeSyncHandle(3));
    assert!(fence.drop_is_fatal(false));
    assert!(!fence.drop_is_fatal(true));
    let _ = fence.take();
    assert!(!fence.drop_is_fatal(false));
    assert!(!fence.drop_is_fatal(true));
}

#[test]
fn destroying_a_prototype_deletes_its_handle() {
    let (pending, _request) = new_linear_sync_fence(&core_context());
    let request = destroy_linear_sync_fence(&core_context(), pending.created(NativeSyncHandle(5)));
    assert_eq!(
        request,
        Request { make_current: false, call: DriverCall::DeleteSync { fence: NativeSyncHandle(5) } }
    );
    let (pending, _request) = new_linear_sync_fence(&apple_context());
    let request = destroy_linear_sync_fence(&apple_context(), pending.created(NativeSyncHandle(6)));
    assert_eq!(
        request,
        Request {
            make_current: false,
            call: DriverCall::DeleteSyncApple { fence: NativeSyncHandle(6) },
        }
    );
}

#[test]
fn waiting_on_a_prototype_polls_then_deletes() {
    let ctxt = core_context();
    let fence = NativeSyncHandle(9);
    let (pending, _request) = new_linear_sync_fence(&ctxt);
    let (wait, request) = wait_linear_sync_fence_and_drop(pending.created(fence), &ctxt);
    assert_eq!(
        request,
        Request {
            make_current: false,
            call: DriverCall::ClientWaitSync { fence, flush: false, timeout_ns: 0 },
        }
    );
    assert_eq!(wait.handle(), fence);
    assert!(!wait.is_finished());
    assert_eq!(wait.result(), None);
    let (wait, request) = wait.advance(WaitOutcome::AlreadySignaled);
    assert_eq!(
        request,
        Some(Request { make_current: false, call: DriverCall::DeleteSync { fence } })
    );
    assert!(wait.is_finished());
    assert_eq!(wait.result(), Some(Ok(())));
}

#[test]
fn failed_wait_on_a_prototype_still_deletes() {
    let ctxt = apple_context();
    let fence = NativeSyncHandle(10);
    let (pending, _request) = new_linear_sync_fence(&ctxt);
    let (wait, request) = wait_linear_sync_fence_and_drop(pending.created(fence), &ctxt);
    assert_eq!(
        request,
        Request {
            make_current: false,
            call: DriverCall::ClientWaitSyncApple { fence, flush: false, timeout_ns: 0 },
        }
    );
    let (wait, request) = wait.advance(WaitOutcome::WaitFailed);
    assert_eq!(
        request,
        Some(Request {
            make_current: false,
            call: DriverCall::ClientWaitSyncApple { fence, flush: true, timeout_ns: ONE_YEAR_NS },
        })
    );
    assert!(!wait.is_finished());
    let (wait, request) = wait.advance(WaitOutcome::WaitFailed);
    assert_eq!(
        request,
        Some(Request { make_current: false, call: DriverCall::DeleteSyncApple { fence } })
    );
    assert_eq!(wait.result(), Some(Err(WaitFailure { outcome: WaitOutcome::WaitFailed })));
}

#[test]
fn bound_creation_makes_the_context_current() {
    let context = Rc::new(core_context());
    let (_pending, request) = SyncFence::new_if_supported(&context).unwrap();
    assert_eq!(request, Request { make_current: true, call: DriverCall::FenceSync });
    let (_pending, request) = SyncFence::new(&context);
    assert_eq!(request, Request { make_current: true, call: DriverCall::FenceSync });
    let context = Rc::new(apple_context());
    let (_pending, request) = SyncFence::new_if_supported(&context).unwrap();
    assert_eq!(request, Request { make_current: true, call: DriverCall::FenceSyncApple });
    let (_pending, request) = SyncFence::new(&context);
    assert_eq!(request, Request { make_current: true, call: DriverCall::FenceSyncApple });
}

#[test]
fn bound_creation_is_refused_without_support() {
    let context = Rc::new(bare_context());
    assert!(SyncFence::new_if_supported(&context).is_none());
    assert_eq!(Rc::strong_count(&context), 1);
}

#[test]
fn binding_shares_the_context_and_moves_the_handle() {
    let context = Rc::new(arb_context());
    let (pending, _request) = new_linear_sync_fence(&context);
    let prototype = pending.created(NativeSyncHandle(77));
    assert_eq!(Rc::strong_count(&context), 1);
    let fence = prototype.into_sync_fence(&context);
    assert_eq!(Rc::strong_count(&context), 2);
    assert!(Rc::ptr_eq(fence.get_context(), &context));
    assert_eq!(**fence.get_context(), arb_context());
    assert_eq!(fence.handle(), Some(NativeSyncHandle(77)));
    assert!(fence.holds_handle());
    drop(fence);
    assert_eq!(Rc::strong_count(&context), 1);
}

#[test]
fn binding_an_emptied_prototype_gives_an_empty_fence() {
    let context = Rc::new(core_context());
    let (pending, _request) = new_linear_sync_fence(&context);
    let mut prototype = pending.created(NativeSyncHandle(1));
    let _ = prototype.take();
    let mut fence = prototype.into_sync_fence(&context);
    assert!(!fence.holds_handle());
    assert_eq!(fence.destroy(), None);
}

#[test]
fn pending_bound_fence_shares_the_context() {
    let context = Rc::new(core_context());
    let (pending, _request) = SyncFence::new(&context);
    assert_eq!(Rc::strong_count(&context), 2);
    let fence = pending.created(NativeSyncHandle(2));
    assert!(Rc::ptr_eq(fence.get_context(), &context));
    assert_eq!(fence.handle(), Some(NativeSyncHandle(2)));
    drop(fence);
    assert_eq!(Rc::strong_count(&context), 1);
}

#[test]
fn bound_wait_makes_current_and_polls_first() {
    let context = Rc::new(core_context());
    let fence = NativeSyncHandle(12);
    let (pending, _request) = SyncFence::new(&context);
    let (wait, request) = pending.created(fence).wait();
    assert_eq!(
        request,
        Request {
            make_current: true,
            call: DriverCall::ClientWaitSync { fence, flush: false, timeout_ns: 0 },
        }
    );
    assert_eq!(wait.handle(), fence);
    assert_eq!(wait.result(), None);
}

#[test]
fn unsignaled_poll_leads_to_the_flushing_wait_of_one_year() {
    let context = Rc::new(es_context());
    let fence = NativeSyncHandle(13);
    let (pending, _request) = SyncFence::new(&context);
    let (wait, _request) = pending.created(fence).wait();
    let (wait, request) = wait.advance(WaitOutcome::TimeoutExpired);
    assert_eq!(
        request,
        Some(Request {
            make_current: false,
            call: DriverCall::ClientWaitSync {
                fence,
                flush: true,
                timeout_ns: 31_536_000_000_000_000,
            },
        })
    );
    assert!(!wait.is_finished());
    assert_eq!(wait.result(), None);
    let (wait, request) = wait.advance(WaitOutcome::ConditionSatisfied);
    assert_eq!(
        request,
        Some(Request { make_current: false, call: DriverCall::DeleteSync { fence } })
    );
    assert!(wait.is_finished());
    assert_eq!(wait.result(), Some(Ok(())));
}

#[test]
fn finished_wait_requests_nothing_more() {
    let context = Rc::new(core_context());
    let (pending, _request) = SyncFence::new(&context);
    let (wait, _request) = pending.created(NativeSyncHandle(14)).wait();
    let (wait, request) = wait.advance(WaitOutcome::ConditionSatisfied);
    assert!(request.is_some());
    let (wait, request) = wait.advance(WaitOutcome::TimeoutExpired);
    assert_eq!(request, None);
    assert_eq!(wait.result(), Some(Ok(())));
    let (wait, request) = wait.advance(WaitOutcome::AlreadySignaled);
    assert_eq!(request, None);
    assert!(wait.is_finished());
    assert_eq!(wait.result(), Some(Ok(())));
}

#[test]
fn destroy_deletes_once_and_then_nothing() {
    let context = Rc::new(apple_context());
    let fence = NativeSyncHandle(15);
    let (pending, _request) = SyncFence::new(&context);
    let mut bound = pending.created(fence);
    assert_eq!(
        bound.destroy(),
        Some(Request { make_current: true, call: DriverCall::DeleteSyncApple { fence } })
    );
    assert!(!bound.holds_handle());
    assert_eq!(bound.handle(), None);
    assert_eq!(bound.destroy(), None);
    assert_eq!(bound.destroy(), None);
    assert!(Rc::ptr_eq(bound.get_context(), &context));
}
