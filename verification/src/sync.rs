//! Fence prototypes, bound fences, and the wait and destroy protocol.
//!
//! Nothing here calls a driver. An operation that needs the driver returns the
//! [`Request`] to perform together with the state that waits for the answer;
//! the answer is handed to that state, which returns the next request, if any.
//! The caller performs each request once, in the order in which it got them.

use std::rc::Rc;
use vstd::prelude::*;
use vstd::pervasive::unreached;
use crate::context::{Capability, Context};
use crate::driver::{
    create_call, delete_call, wait_call, DriverCall, NativeSyncHandle, Request, WaitOutcome,
    ONE_YEAR_NS,
};

verus! {

/// `Rc::clone`: another pointer to the same context, which therefore reads
/// as the same snapshot.
#[verifier::external_body]
fn share(context: &Rc<Context>) -> (shared: Rc<Context>)
    ensures
        *shared == **context,
{
    Rc::clone(context)
}

/// The call that creates a fence in `ctxt`.
fn fence_sync(ctxt: &Context) -> (call: DriverCall)
    requires
        ctxt.supports_sync(),
    ensures
        call == create_call(ctxt.capability()),
{
    match ctxt.sync_capability() {
        Capability::CoreOrEsSync | Capability::ArbSyncExtension => DriverCall::FenceSync,
        Capability::AppleSyncExtension => DriverCall::FenceSyncApple,
        Capability::Unsupported => unreached(),
    }
}

/// The call that waits on `fence` in `ctxt`: a poll with a deadline of zero
/// where `flush` is not set, else a flushing wait of one year.
fn client_wait(ctxt: &Context, fence: NativeSyncHandle, flush: bool) -> (call: DriverCall)
    requires
        ctxt.supports_sync(),
    ensures
        call == wait_call(ctxt.capability(), fence, flush),
{
    let timeout_ns: u64 = if flush { ONE_YEAR_NS } else { 0 };
    match ctxt.sync_capability() {
        Capability::CoreOrEsSync | Capability::ArbSyncExtension => {
            DriverCall::ClientWaitSync { fence, flush, timeout_ns }
        },
        Capability::AppleSyncExtension => {
            DriverCall::ClientWaitSyncApple { fence, flush, timeout_ns }
        },
        Capability::Unsupported => unreached(),
    }
}

/// The call that deletes `fence` in `ctxt`.
fn delete_fence(ctxt: &Context, fence: NativeSyncHandle) -> (call: DriverCall)
    requires
        ctxt.supports_sync(),
    ensures
        call == delete_call(ctxt.capability(), fence),
{
    match ctxt.sync_capability() {
        Capability::CoreOrEsSync | Capability::ArbSyncExtension => DriverCall::DeleteSync { fence },
        Capability::AppleSyncExtension => DriverCall::DeleteSyncApple { fence },
        Capability::Unsupported => unreached(),
    }
}

/// How far a wait has come.
#[derive(Clone, Copy, Debug, PartialEq, Eq, Structural)]
pub enum WaitStage {
    /// The poll was requested; its answer is awaited.
    Polling,
    /// The poll did not find the fence signaled, and the flushing wait was
    /// requested; its answer is awaited.
    Flushing,
    /// The wait is over with this answer, and the deletion was requested.
    Finished(WaitOutcome),
}

/// A wait ended without the fence being signaled. The caller cannot recover
/// from this: the driver or the GPU broke the contract of the wait.
#[derive(Clone, Copy, Debug, PartialEq, Eq, Structural)]
pub struct WaitFailure {
    /// The answer to the flushing wait.
    pub outcome: WaitOutcome,
}

impl WaitStage {
    /// The stage that follows when the driver answers `outcome`. A signaled
    /// poll ends the wait at once; any other answer to the poll leads to the
    /// flushing wait, whose answer ends the wait whatever it is. A finished
    /// wait stays as it is.
    pub open spec fn after(self, outcome: WaitOutcome) -> WaitStage {
        match self {
            WaitStage::Polling => if outcome.signaled() {
                WaitStage::Finished(outcome)
            } else {
                WaitStage::Flushing
            },
            WaitStage::Flushing => WaitStage::Finished(outcome),
            WaitStage::Finished(last) => WaitStage::Finished(last),
        }
    }

    /// The call to make when the driver answers `outcome` at this stage of a
    /// wait on `fence` under capability `c`: the flushing wait after a poll
    /// that was not signaled, the deletion when the wait ends, nothing once
    /// it has ended.
    pub open spec fn call_after(
        self,
        c: Capability,
        fence: NativeSyncHandle,
        outcome: WaitOutcome,
    ) -> Option<DriverCall> {
        match self {
            WaitStage::Polling => if outcome.signaled() {
                Some(delete_call(c, fence))
            } else {
                Some(wait_call(c, fence, true))
            },
            WaitStage::Flushing => Some(delete_call(c, fence)),
            WaitStage::Finished(_) => None,
        }
    }

    /// What the wait came to: nothing while it runs, success where the last
    /// answer was signaled, else the failure with that answer.
    pub open spec fn result(self) -> Option<Result<(), WaitFailure>> {
        match self {
            WaitStage::Finished(outcome) => if outcome.signaled() {
                Some(Ok(()))
            } else {
                Some(Err(WaitFailure { outcome }))
            },
            _ => None,
        }
    }
}

/// A wait in progress. It owns the native handle of the fence that is waited
/// on; the fence itself is gone.
pub struct FenceWait {
    context: Context,
    fence: NativeSyncHandle,
    stage: WaitStage,
}

impl FenceWait {
    #[verifier::type_invariant]
    spec fn context_supports_sync(self) -> bool {
        self.context.supports_sync()
    }

    /// The context in which the wait runs.
    pub closed spec fn context(self) -> Context {
        self.context
    }

    /// The handle that is waited on.
    pub closed spec fn fence(self) -> NativeSyncHandle {
        self.fence
    }

    /// How far the wait has come.
    pub closed spec fn stage(self) -> WaitStage {
        self.stage
    }

    /// Starts a wait on `fence` with the poll.
    fn begin(ctxt: &Context, fence: NativeSyncHandle, make_current: bool) -> (r: (
        FenceWait,
        Request,
    ))
        requires
            ctxt.supports_sync(),
        ensures
            r.0.context() == *ctxt,
            r.0.fence() == fence,
            r.0.stage() == WaitStage::Polling,
            r.1 == (Request { make_current, call: wait_call(ctxt.capability(), fence, false) }),
    {
        let call = client_wait(ctxt, fence, false);
        (FenceWait { context: *ctxt, fence, stage: WaitStage::Polling }, Request { make_current, call })
    }

    /// Takes the driver's answer to the request that is outstanding, and
    /// returns the wait in its next stage with the request to perform next.
    ///
    /// The deletion is requested exactly when the wait ends, success or not.
    /// After that there is no request, whatever is handed in.
    pub fn advance(self, outcome: WaitOutcome) -> (r: (FenceWait, Option<Request>))
        ensures
            r.0.context() == self.context(),
            r.0.fence() == self.fence(),
            r.0.stage() == self.stage().after(outcome),
            r.1 == match self.stage().call_after(
                self.context().capability(),
                self.fence(),
                outcome,
            ) {
                Some(call) => Some(Request { make_current: false, call }),
                None => None,
            },
    {
        proof {
            use_type_invariant(&self);
        }
        let context = self.context;
        let fence = self.fence;
        match self.stage {
            WaitStage::Polling => {
                if outcome.is_signaled() {
                    let call = delete_fence(&context, fence);
                    (
                        FenceWait { context, fence, stage: WaitStage::Finished(outcome) },
                        Some(Request { make_current: false, call }),
                    )
                } else {
                    let call = client_wait(&context, fence, true);
                    (
                        FenceWait { context, fence, stage: WaitStage::Flushing },
                        Some(Request { make_current: false, call }),
                    )
                }
            },
            WaitStage::Flushing => {
                let call = delete_fence(&context, fence);
                (
                    FenceWait { context, fence, stage: WaitStage::Finished(outcome) },
                    Some(Request { make_current: false, call }),
                )
            },
            WaitStage::Finished(last) => {
                (FenceWait { context, fence, stage: WaitStage::Finished(last) }, None)
            },
        }
    }

    /// The handle that is waited on.
    pub fn handle(&self) -> (r: NativeSyncHandle)
        ensures
            r == self.fence(),
    {
        self.fence
    }

    /// Whether the wait has ended.
    pub fn is_finished(&self) -> (r: bool)
        ensures
            r == (self.stage() is Finished),
    {
        match self.stage {
            WaitStage::Finished(_) => true,
            _ => false,
        }
    }

    /// What the wait came to: `None` while it runs, `Ok` where the last answer
    /// was signaled, else the failure, which is fatal for the caller.
    pub fn result(&self) -> (r: Option<Result<(), WaitFailure>>)
        ensures
            r == self.stage().result(),
    {
        match self.stage {
            WaitStage::Finished(outcome) => {
                if outcome.is_signaled() {
                    Some(Ok(()))
                } else {
                    Some(Err(WaitFailure { outcome }))
                }
            },
            _ => None,
        }
    }
}

/// A fence whose creation was requested and whose handle the driver has not
/// returned yet.
#[must_use]
pub struct PendingFence {
    call: DriverCall,
}

impl PendingFence {
    /// The call whose answer is awaited.
    pub closed spec fn call(self) -> DriverCall {
        self.call
    }

    /// Takes the handle that the driver returned, and gives the prototype
    /// that holds it.
    pub fn created(self, handle: NativeSyncHandle) -> (fence: LinearSyncFence)
        ensures
            fence.id() == Some(handle),
    {
        LinearSyncFence { id: Some(handle) }
    }
}

/// Prototype for a `SyncFence`: a native sync object that is not bound to its
/// context yet.
///
/// The handle in it has never been waited on or deleted. It must be given to
/// exactly one of `into_sync_fence`, `wait_linear_sync_fence_and_drop` and
/// `destroy_linear_sync_fence`; to let go of a prototype that still holds its
/// handle is a leak.
#[must_use]
pub struct LinearSyncFence {
    id: Option<NativeSyncHandle>,
}

impl LinearSyncFence {
    /// The handle that the prototype holds, if it was not taken yet.
    pub closed spec fn id(self) -> Option<NativeSyncHandle> {
        self.id
    }

    /// Whether the prototype still holds its handle.
    pub fn holds_handle(&self) -> (r: bool)
        ensures
            r == (self.id() is Some),
    {
        self.id.is_some()
    }

    /// The handle that the prototype holds, if it was not taken yet.
    pub fn handle(&self) -> (r: Option<NativeSyncHandle>)
        ensures
            r == self.id(),
    {
        self.id
    }

    /// Empties the prototype and returns what it held. Whoever takes the
    /// handle answers for its deletion.
    pub fn take(&mut self) -> (handle: Option<NativeSyncHandle>)
        ensures
            handle == old(self).id(),
            final(self).id() is None,
    {
        self.id.take()
    }

    /// Turns the prototype into a real fence, bound to `context`. The handle
    /// moves over as it is; no driver call is made.
    pub fn into_sync_fence(self, context: &Rc<Context>) -> (fence: SyncFence)
        ensures
            fence.id() == self.id(),
            fence.context() == **context,
    {
        let mut prototype = self;
        SyncFence { context: share(context), id: prototype.id.take() }
    }

    /// Whether letting go of the prototype now is the fatal misuse: it is
    /// where the handle is still there, unless the thread is unwinding from
    /// another failure already, which this must not mask.
    pub fn drop_is_fatal(&self, unwinding: bool) -> (r: bool)
        ensures
            r == (!unwinding && self.id() is Some),
    {
        !unwinding && self.id.is_some()
    }
}

/// Requests the creation of a fence in `ctxt`, which must be current on the
/// calling thread and must support fences.
pub fn new_linear_sync_fence(ctxt: &Context) -> (r: (PendingFence, Request))
    requires
        ctxt.supports_sync(),
    ensures
        r.1 == (Request { make_current: false, call: create_call(ctxt.capability()) }),
        r.0.call() == r.1.call,
{
    let call = fence_sync(ctxt);
    (PendingFence { call }, Request { make_current: false, call })
}

/// Requests the creation of a fence in `ctxt`, which must be current on the
/// calling thread. Where `ctxt` does not support fences the answer is `None`,
/// and there is nothing to ask of the driver.
pub fn new_linear_sync_fence_if_supported(ctxt: &Context) -> (r: Option<(PendingFence, Request)>)
    ensures
        r is Some <==> ctxt.supports_sync(),
        r matches Some(p) ==> p.1 == (Request {
            make_current: false,
            call: create_call(ctxt.capability()),
        }) && p.0.call() == p.1.call,
{
    match ctxt.sync_capability() {
        Capability::Unsupported => None,
        _ => Some(new_linear_sync_fence(ctxt)),
    }
}

/// Waits for this fence and destroys it, from within the commands context:
/// `ctxt` must be current on the calling thread. What the wait comes to is
/// of no consequence here; the deletion is requested either way.
pub fn wait_linear_sync_fence_and_drop(fence: LinearSyncFence, ctxt: &Context) -> (r: (
    FenceWait,
    Request,
))
    requires
        fence.id() is Some,
        ctxt.supports_sync(),
    ensures
        r.0.context() == *ctxt,
        r.0.fence() == fence.id()->0,
        r.0.stage() == WaitStage::Polling,
        r.1 == (Request {
            make_current: false,
            call: wait_call(ctxt.capability(), fence.id()->0, false),
        }),
{
    let mut fence = fence;
    let handle = fence.id.take().unwrap();
    FenceWait::begin(ctxt, handle, false)
}

/// Destroys a fence, from within the commands context: `ctxt` must be current
/// on the calling thread.
pub fn destroy_linear_sync_fence(ctxt: &Context, fence: LinearSyncFence) -> (request: Request)
    requires
        fence.id() is Some,
        ctxt.supports_sync(),
    ensures
        request == (Request {
            make_current: false,
            call: delete_call(ctxt.capability(), fence.id()->0),
        }),
{
    let mut fence = fence;
    let handle = fence.id.take().unwrap();
    Request { make_current: false, call: delete_fence(ctxt, handle) }
}

/// A bound fence whose creation was requested and whose handle the driver has
/// not returned yet.
#[must_use]
pub struct PendingSyncFence {
    context: Rc<Context>,
    pending: PendingFence,
}

impl PendingSyncFence {
    /// The context that the fence will be bound to.
    pub closed spec fn context(self) -> Context {
        *self.context
    }

    /// The call whose answer is awaited.
    pub closed spec fn call(self) -> DriverCall {
        self.pending.call()
    }

    /// Takes the handle that the driver returned, and gives the fence.
    pub fn created(self, handle: NativeSyncHandle) -> (fence: SyncFence)
        ensures
            fence.id() == Some(handle),
            fence.context() == self.context(),
    {
        self.pending.created(handle).into_sync_fence(&self.context)
    }
}

/// Provides a way to wait for a server-side operation to be finished.
///
/// Creating a `SyncFence` injects an element in the commands queue of the
/// backend. When this element is reached, the fence becomes signaled.
///
/// The fence shares its context with whoever else holds it. It owns its
/// native handle alone, and gives it up once: to `wait`, or to `destroy`.
pub struct SyncFence {
    context: Rc<Context>,
    id: Option<NativeSyncHandle>,
}

impl SyncFence {
    /// The context that owns the fence.
    pub closed spec fn context(self) -> Context {
        *self.context
    }

    /// The handle that the fence holds, if it was not taken yet.
    pub closed spec fn id(self) -> Option<NativeSyncHandle> {
        self.id
    }

    /// Whether the fence still holds its handle.
    pub fn holds_handle(&self) -> (r: bool)
        ensures
            r == (self.id() is Some),
    {
        self.id.is_some()
    }

    /// The handle that the fence holds, if it was not taken yet.
    pub fn handle(&self) -> (r: Option<NativeSyncHandle>)
        ensures
            r == self.id(),
    {
        self.id
    }

    /// The context that owns the fence.
    pub fn get_context(&self) -> (r: &Rc<Context>)
        ensures
            **r == self.context(),
    {
        &self.context
    }

    /// Requests a new fence in `context`, which must support fences. The
    /// context is made current first.
    pub fn new(context: &Rc<Context>) -> (r: (PendingSyncFence, Request))
        requires
            context.supports_sync(),
        ensures
            r.1 == (Request { make_current: true, call: create_call(context.capability()) }),
            r.0.call() == r.1.call,
            r.0.context() == **context,
    {
        let (pending, request) = new_linear_sync_fence(context);
        (
            PendingSyncFence { context: share(context), pending },
            Request { make_current: true, call: request.call },
        )
    }

    /// Requests a new fence in `context`, which is made current first.
    ///
    /// Returns `None` if this is not supported by the backend; there is then
    /// nothing to ask of the driver.
    pub fn new_if_supported(context: &Rc<Context>) -> (r: Option<(PendingSyncFence, Request)>)
        ensures
            r is Some <==> context.supports_sync(),
            r matches Some(p) ==> p.1 == (Request {
                make_current: true,
                call: create_call(context.capability()),
            }) && p.0.call() == p.1.call && p.0.context() == **context,
    {
        match new_linear_sync_fence_if_supported(context) {
            None => None,
            Some((pending, request)) => Some(
                (
                    PendingSyncFence { context: share(context), pending },
                    Request { make_current: true, call: request.call },
                ),
            ),
        }
    }

    /// Starts the wait that blocks until the operation has finished on the
    /// server. The fence is used up: its handle moves into the wait, which
    /// requests its deletion when it ends.
    ///
    /// The first request makes the context current and polls the fence.
    pub fn wait(self) -> (r: (FenceWait, Request))
        requires
            self.id() is Some,
            self.context().supports_sync(),
        ensures
            r.0.context() == self.context(),
            r.0.fence() == self.id()->0,
            r.0.stage() == WaitStage::Polling,
            r.1 == (Request {
                make_current: true,
                call: wait_call(self.context().capability(), self.id()->0, false),
            }),
    {
        let mut fence = self;
        let sync = fence.id.take().unwrap();
        FenceWait::begin(&fence.context, sync, true)
    }

    /// Gives up the fence without waiting: takes the handle out and returns
    /// the request that deletes it, with the context made current first.
    /// Where the handle was taken before, nothing is left to delete and the
    /// answer is `None`; so a second call never deletes twice.
    pub fn destroy(&mut self) -> (request: Option<Request>)
        requires
            old(self).id() is Some ==> old(self).context().supports_sync(),
        ensures
            final(self).id() is None,
            final(self).context() == old(self).context(),
            request == match old(self).id() {
                Some(sync) => Some(
                    Request {
                        make_current: true,
                        call: delete_call(old(self).context().capability(), sync),
                    },
                ),
                None => None,
            },
    {
        match self.id.take() {
            None => None,
            Some(sync) => Some(
                Request { make_current: true, call: delete_fence(&self.context, sync) },
            ),
        }
    }
}

} // verus!
