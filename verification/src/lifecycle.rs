//! What holds of whole runs: the driver calls of a fence from its creation to
//! its deletion, whatever the driver answers on the way.

use vstd::prelude::*;
use crate::context::Capability;
use crate::driver::{create_call, delete_call, wait_call, DriverCall, NativeSyncHandle, WaitOutcome};
use crate::sync::{WaitFailure, WaitStage};

verus! {

/// How many of `calls` create a sync object.
pub open spec fn creations(calls: Seq<DriverCall>) -> nat
    decreases calls.len(),
{
    if calls.len() == 0 {
        0
    } else {
        (if calls[0].creates() { 1nat } else { 0nat }) + creations(calls.drop_first())
    }
}

/// How many of `calls` delete a sync object.
pub open spec fn deletions(calls: Seq<DriverCall>) -> nat
    decreases calls.len(),
{
    if calls.len() == 0 {
        0
    } else {
        (if calls[0].deletes_any() { 1nat } else { 0nat }) + deletions(calls.drop_first())
    }
}

/// A wait on `fence` under capability `c` that stands at `stage` and is
/// advanced once for each of `answers`, in order: the stage it ends in, and
/// the calls that it requests on the way.
pub open spec fn wait_run(
    stage: WaitStage,
    c: Capability,
    fence: NativeSyncHandle,
    answers: Seq<WaitOutcome>,
) -> (WaitStage, Seq<DriverCall>)
    decreases answers.len(),
{
    if answers.len() == 0 {
        (stage, Seq::empty())
    } else {
        let rest = wait_run(stage.after(answers[0]), c, fence, answers.drop_first());
        match stage.call_after(c, fence, answers[0]) {
            Some(call) => (rest.0, seq![call] + rest.1),
            None => rest,
        }
    }
}

/// Every driver call of a fence that is created under capability `c`, gets
/// the handle `fence`, is bound and then waited on, with `answers` being what
/// the driver says to the poll and to the waits after it.
pub open spec fn waited_life(
    c: Capability,
    fence: NativeSyncHandle,
    answers: Seq<WaitOutcome>,
) -> Seq<DriverCall> {
    seq![create_call(c), wait_call(c, fence, false)] + wait_run(
        WaitStage::Polling,
        c,
        fence,
        answers,
    ).1
}

/// Every driver call of a fence that is created under capability `c`, gets
/// the handle `fence`, is bound and then given up without a wait.
pub open spec fn destroyed_life(c: Capability, fence: NativeSyncHandle) -> Seq<DriverCall> {
    seq![create_call(c), delete_call(c, fence)]
}

proof fn count_first(call: DriverCall, rest: Seq<DriverCall>)
    ensures
        creations(seq![call] + rest) == (if call.creates() { 1nat } else { 0nat }) + creations(rest),
        deletions(seq![call] + rest) == (if call.deletes_any() { 1nat } else { 0nat }) + deletions(
            rest,
        ),
{
    let all = seq![call] + rest;
    assert(all[0] == call);
    assert(all.drop_first() =~= rest);
}

/// A wait that has ended requests nothing more and keeps its answer,
/// whatever it is handed.
pub proof fn finished_wait_is_inert(
    last: WaitOutcome,
    c: Capability,
    fence: NativeSyncHandle,
    answers: Seq<WaitOutcome>,
)
    ensures
        wait_run(WaitStage::Finished(last), c, fence, answers) == (
            WaitStage::Finished(last),
            Seq::<DriverCall>::empty(),
        ),
    decreases answers.len(),
{
    if answers.len() > 0 {
        finished_wait_is_inert(last, c, fence, answers.drop_first());
    }
}

/// A wait never deletes twice, and never creates: over any run, from any
/// stage, it requests one deletion if the run takes it to its end, and none
/// otherwise; and what it deletes is the fence it waits on.
pub proof fn wait_deletes_at_most_once(
    stage: WaitStage,
    c: Capability,
    fence: NativeSyncHandle,
    answers: Seq<WaitOutcome>,
)
    ensures
        ({
            let run = wait_run(stage, c, fence, answers);
            &&& creations(run.1) == 0
            &&& deletions(run.1) == (if !(stage is Finished) && run.0 is Finished {
                1nat
            } else {
                0nat
            })
            &&& forall|i: int|
                0 <= i < run.1.len() && (#[trigger] run.1[i]).deletes_any() ==> run.1[i].deletes(
                    fence,
                )
        }),
    decreases answers.len(),
{
    if answers.len() > 0 {
        let next = stage.after(answers[0]);
        let rest = wait_run(next, c, fence, answers.drop_first());
        wait_deletes_at_most_once(next, c, fence, answers.drop_first());
        if let WaitStage::Finished(last) = next {
            finished_wait_is_inert(last, c, fence, answers.drop_first());
        }
        match stage.call_after(c, fence, answers[0]) {
            Some(call) => {
                count_first(call, rest.1);
                let calls = seq![call] + rest.1;
                assert forall|i: int| 0 <= i < calls.len() && (#[trigger] calls[i]).deletes_any()
                    implies calls[i].deletes(fence) by {
                    if i > 0 {
                        assert(calls[i] == rest.1[i - 1]);
                    }
                }
            },
            None => {},
        }
    }
}

/// Two answers always end a wait that starts with the poll. It succeeds if
/// the poll finds the fence signaled, or else if the flushing wait does; if
/// neither does, it fails with the answer to the flushing wait.
pub proof fn wait_ends_after_two_answers(
    c: Capability,
    fence: NativeSyncHandle,
    first: WaitOutcome,
    second: WaitOutcome,
)
    ensures
        ({
            let end = wait_run(WaitStage::Polling, c, fence, seq![first, second]).0;
            &&& end is Finished
            &&& end.result() == Some(
                if first.signaled() || second.signaled() {
                    Ok::<(), WaitFailure>(())
                } else {
                    Err(WaitFailure { outcome: second })
                },
            )
        }),
{
    let answers = seq![first, second];
    let tail = answers.drop_first();
    let next = WaitStage::Polling.after(first);
    finished_wait_is_inert(next.after(second)->0, c, fence, tail.drop_first());
    assert(wait_run(next, c, fence, tail).0 == next.after(second));
}

/// Where the driver finds the fence signaled at the poll, the wait succeeds
/// at once: the one answer ends it, and all that is left to do is the
/// deletion.
pub proof fn signaled_poll_ends_wait(c: Capability, fence: NativeSyncHandle, first: WaitOutcome)
    requires
        first.signaled(),
    ensures
        wait_run(WaitStage::Polling, c, fence, seq![first]) == (
            WaitStage::Finished(first),
            seq![delete_call(c, fence)],
        ),
        WaitStage::Finished(first).result() == Some(Ok::<(), WaitFailure>(())),
{
    let answers = seq![first];
    finished_wait_is_inert(first, c, fence, answers.drop_first());
    let run = wait_run(WaitStage::Polling, c, fence, answers);
    assert(run.1 =~= seq![delete_call(c, fence)]);
}

/// A fence that is created, bound and waited on costs one creation, and one
/// deletion once the wait has ended; before that, none. It is never deleted
/// twice, however long the driver is asked.
pub proof fn waited_fence_is_created_and_deleted_once(
    c: Capability,
    fence: NativeSyncHandle,
    answers: Seq<WaitOutcome>,
)
    ensures
        creations(waited_life(c, fence, answers)) == 1,
        deletions(waited_life(c, fence, answers)) == (if wait_run(
            WaitStage::Polling,
            c,
            fence,
            answers,
        ).0 is Finished {
            1nat
        } else {
            0nat
        }),
        answers.len() >= 2 ==> deletions(waited_life(c, fence, answers)) == 1,
{
    let run = wait_run(WaitStage::Polling, c, fence, answers);
    wait_deletes_at_most_once(WaitStage::Polling, c, fence, answers);
    let tail = seq![wait_call(c, fence, false)] + run.1;
    count_first(wait_call(c, fence, false), run.1);
    count_first(create_call(c), tail);
    assert(waited_life(c, fence, answers) =~= seq![create_call(c)] + tail);
    if answers.len() >= 2 {
        let rest = answers.drop_first();
        let first = WaitStage::Polling.after(answers[0]);
        let second = first.after(rest[0]);
        finished_wait_is_inert(second->0, c, fence, rest.drop_first());
        assert(wait_run(first, c, fence, rest).0 == second);
        assert(run.0 == second);
    }
}

/// A fence that is created, bound and given up without a wait costs one
/// creation and one deletion, that of its own handle.
pub proof fn destroyed_fence_is_created_and_deleted_once(c: Capability, fence: NativeSyncHandle)
    ensures
        creations(destroyed_life(c, fence)) == 1,
        deletions(destroyed_life(c, fence)) == 1,
        destroyed_life(c, fence)[1].deletes(fence),
{
    let tail = seq![delete_call(c, fence)];
    count_first(delete_call(c, fence), Seq::empty());
    assert(tail =~= seq![delete_call(c, fence)] + Seq::empty());
    count_first(create_call(c), tail);
    assert(destroyed_life(c, fence) =~= seq![create_call(c)] + tail);
}

} // verus!
