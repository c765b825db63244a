//! The driver primitives that fence operations ask for, as plain values.
//!
//! Each primitive exists in two call sets, the core one and Apple's. Which
//! one a context may use follows from its [`Capability`].

use vstd::prelude::*;
use crate::context::Capability;

verus! {

/// The identifier that the driver returned when it created a sync object.
/// It means nothing outside the context that created it.
#[derive(Clone, Copy, Debug, PartialEq, Eq, Structural)]
pub struct NativeSyncHandle(pub usize);

/// The deadline of the flushing wait, in nanoseconds: one year of 365 days.
///
/// It is this long on purpose. A debugger attached to the driver may stall the
/// wait at a breakpoint, and that must not look like a hang of the GPU.
pub const ONE_YEAR_NS: u64 = 31_536_000_000_000_000;

/// What the driver answers to a wait on a sync object.
#[derive(Clone, Copy, Debug, PartialEq, Eq, Structural)]
pub enum WaitOutcome {
    /// The fence was signaled before the call.
    AlreadySignaled,
    /// The fence became signaled during the call.
    ConditionSatisfied,
    /// The deadline passed first.
    TimeoutExpired,
    /// The driver could not wait.
    WaitFailed,
}

impl WaitOutcome {
    /// Whether this answer says that the fence is signaled.
    pub open spec fn signaled(self) -> bool {
        self is AlreadySignaled || self is ConditionSatisfied
    }

    /// Computes [`WaitOutcome::signaled`].
    pub fn is_signaled(&self) -> (r: bool)
        ensures
            r == self.signaled(),
    {
        match self {
            WaitOutcome::AlreadySignaled => true,
            WaitOutcome::ConditionSatisfied => true,
            WaitOutcome::TimeoutExpired => false,
            WaitOutcome::WaitFailed => false,
        }
    }
}

/// One call into the driver.
#[derive(Clone, Copy, Debug, PartialEq, Eq, Structural)]
pub enum DriverCall {
    /// Insert a signal point after all commands queued so far (core call set).
    /// The driver answers with a [`NativeSyncHandle`].
    FenceSync,
    /// The same with Apple's call set.
    FenceSyncApple,
    /// Wait for `fence` for at most `timeout_ns` nanoseconds, flushing the
    /// command stream first if `flush` is set (core call set). The driver
    /// answers with a [`WaitOutcome`].
    ClientWaitSync { fence: NativeSyncHandle, flush: bool, timeout_ns: u64 },
    /// The same with Apple's call set.
    ClientWaitSyncApple { fence: NativeSyncHandle, flush: bool, timeout_ns: u64 },
    /// Delete `fence` (core call set).
    DeleteSync { fence: NativeSyncHandle },
    /// The same with Apple's call set.
    DeleteSyncApple { fence: NativeSyncHandle },
}

impl DriverCall {
    /// Whether this call creates a sync object.
    pub open spec fn creates(self) -> bool {
        self is FenceSync || self is FenceSyncApple
    }

    /// Whether this call deletes the sync object `fence`.
    pub open spec fn deletes(self, fence: NativeSyncHandle) -> bool {
        self == (DriverCall::DeleteSync { fence }) || self == (DriverCall::DeleteSyncApple { fence })
    }

    /// Whether this call deletes a sync object, whichever.
    pub open spec fn deletes_any(self) -> bool {
        self is DeleteSync || self is DeleteSyncApple
    }

    /// Computes [`DriverCall::creates`].
    pub fn is_create(&self) -> (r: bool)
        ensures
            r == self.creates(),
    {
        match self {
            DriverCall::FenceSync => true,
            DriverCall::FenceSyncApple => true,
            _ => false,
        }
    }

    /// Computes [`DriverCall::deletes_any`].
    pub fn is_delete(&self) -> (r: bool)
        ensures
            r == self.deletes_any(),
    {
        match self {
            DriverCall::DeleteSync { .. } => true,
            DriverCall::DeleteSyncApple { .. } => true,
            _ => false,
        }
    }
}

/// What has to be done next: a driver call, and whether the owning context
/// must be made current on the calling thread before it.
///
/// Where `make_current` is not set, the context is current already: the
/// caller vouched for it, or an earlier request of the same operation did it.
#[derive(Clone, Copy, Debug, PartialEq, Eq, Structural)]
pub struct Request {
    pub make_current: bool,
    pub call: DriverCall,
}

/// The call that creates a fence under capability `c`.
/// It has a meaning only where `c` is not `Unsupported`.
pub open spec fn create_call(c: Capability) -> DriverCall {
    if c == Capability::AppleSyncExtension {
        DriverCall::FenceSyncApple
    } else {
        DriverCall::FenceSync
    }
}

/// The call that waits on `fence` under capability `c`: without a flush the
/// deadline is zero, which makes it a poll; with a flush it is one year.
/// It has a meaning only where `c` is not `Unsupported`.
pub open spec fn wait_call(c: Capability, fence: NativeSyncHandle, flush: bool) -> DriverCall {
    let timeout_ns = if flush { ONE_YEAR_NS } else { 0u64 };
    if c == Capability::AppleSyncExtension {
        DriverCall::ClientWaitSyncApple { fence, flush, timeout_ns }
    } else {
        DriverCall::ClientWaitSync { fence, flush, timeout_ns }
    }
}

/// The call that deletes `fence` under capability `c`.
/// It has a meaning only where `c` is not `Unsupported`.
pub open spec fn delete_call(c: Capability, fence: NativeSyncHandle) -> DriverCall {
    if c == Capability::AppleSyncExtension {
        DriverCall::DeleteSyncApple { fence }
    } else {
        DriverCall::DeleteSync { fence }
    }
}

/// The deadline of the flushing wait is 365 days of 24 hours of 3600 seconds,
/// counted in nanoseconds.
pub proof fn one_year_in_nanoseconds()
    ensures
        ONE_YEAR_NS == 365 * 24 * 3600 * 1000 * 1000 * 1000,
{
}

} // verus!
