//! The lifecycle laws, proved over sequences of operations.
//!
//! A caller drives a sound handle through locks, unlocks, queries and
//! releases. Each operation is one deterministic step over the mathematical
//! models (`handle`), so a whole session is a fold over a sequence of
//! operations. The proof functions here state the laws of that fold: the
//! engine's release call is reached at most once per owning handle and never
//! through a borrowed one; once a release has happened, nothing but further
//! releases can succeed; and every error-free session pairs each lock with
//! exactly one unlock before the next lock and before release.

use vstd::prelude::*;

use crate::engine::EngineModel;
use crate::errors::HandleError;
use crate::handle::HandleModel;
use crate::handle::get_related_step;
use crate::handle::lock_step;
use crate::handle::query_format_step;
use crate::handle::query_length_step;
use crate::handle::query_rate_step;
use crate::handle::release_step;
use crate::handle::unlock_step;

verus! {

/// One operation a caller can issue on a sound handle.
pub enum SoundOp {
    /// Lock `[offset, offset + length)` of the PCM data.
    Lock { offset: u32, length: u32 },
    /// Return the outstanding lock.
    Unlock,
    /// Any read-only accessor; it stands for every forwarding query.
    Query,
    /// Release the resource.
    Release,
}

/// The handle and engine after one operation.
pub open spec fn op_step(h: HandleModel, e: EngineModel, op: SoundOp) -> (
    HandleModel,
    EngineModel,
) {
    match op {
        SoundOp::Lock { offset, length } => {
            let (h2, e2, r) = lock_step(h, e, offset, length);
            (h2, e2)
        },
        SoundOp::Unlock => {
            let (h2, e2, r) = unlock_step(h, e);
            (h2, e2)
        },
        SoundOp::Query => {
            let (h2, e2, r) = query_format_step(h, e);
            (h2, e2)
        },
        SoundOp::Release => {
            let (h2, e2, r) = release_step(h, e);
            (h2, e2)
        },
    }
}

/// Whether one operation returns without error.
pub open spec fn op_ok(h: HandleModel, e: EngineModel, op: SoundOp) -> bool {
    match op {
        SoundOp::Lock { offset, length } => lock_step(h, e, offset, length).2 is Ok,
        SoundOp::Unlock => unlock_step(h, e).2 is Ok,
        SoundOp::Query => query_format_step(h, e).2 is Ok,
        SoundOp::Release => release_step(h, e).2 is Ok,
    }
}

/// The handle and engine after running `ops` in order.
pub open spec fn run_ops(h: HandleModel, e: EngineModel, ops: Seq<SoundOp>) -> (
    HandleModel,
    EngineModel,
)
    decreases ops.len(),
{
    if ops.len() == 0 {
        (h, e)
    } else {
        let (h2, e2) = op_step(h, e, ops.first());
        run_ops(h2, e2, ops.drop_first())
    }
}

/// Every operation of `ops`, run in order, returns without error.
pub open spec fn all_ok(h: HandleModel, e: EngineModel, ops: Seq<SoundOp>) -> bool
    decreases ops.len(),
{
    ops.len() == 0 || {
        &&& op_ok(h, e, ops.first())
        &&& {
            let (h2, e2) = op_step(h, e, ops.first());
            all_ok(h2, e2, ops.drop_first())
        }
    }
}

/// The pairing discipline over `ops`, starting with `locked` outstanding:
/// a lock only while none is outstanding, an unlock only while one is, and
/// a release only while none is.
pub open spec fn well_paired(locked: bool, ops: Seq<SoundOp>) -> bool
    decreases ops.len(),
{
    ops.len() == 0 || match ops.first() {
        SoundOp::Lock { .. } => !locked && well_paired(true, ops.drop_first()),
        SoundOp::Unlock => locked && well_paired(false, ops.drop_first()),
        SoundOp::Query => well_paired(locked, ops.drop_first()),
        SoundOp::Release => !locked && well_paired(locked, ops.drop_first()),
    }
}

/// How many release calls this handle may still send to the engine.
pub open spec fn release_budget(h: HandleModel) -> nat {
    if h.owning && !h.released {
        1
    } else {
        0
    }
}

/// No operation moves a handle to another resource, takes or gives
/// ownership, or shrinks the engine's resource table.
proof fn lemma_op_step_frame(h: HandleModel, e: EngineModel, op: SoundOp)
    requires
        h.valid_for(e),
    ensures
        op_step(h, e, op).0.id == h.id,
        op_step(h, e, op).0.owning == h.owning,
        op_step(h, e, op).1.resources.len() == e.resources.len(),
        op_step(h, e, op).0.valid_for(op_step(h, e, op).1),
{
}

/// Release-once: over any sequence of operations whatsoever, the engine
/// receives at most one release call for an owning handle's resource, and
/// none at all for a handle that does not own its resource.
pub proof fn lemma_release_at_most_once(h: HandleModel, e: EngineModel, ops: Seq<SoundOp>)
    requires
        h.valid_for(e),
    ensures
        run_ops(h, e, ops).1.res(h.id).release_calls + release_budget(run_ops(h, e, ops).0)
            <= e.res(h.id).release_calls + release_budget(h),
        run_ops(h, e, ops).1.res(h.id).release_calls <= e.res(h.id).release_calls + 1,
        !h.owning ==> run_ops(h, e, ops).1.res(h.id).release_calls == e.res(h.id).release_calls,
    decreases ops.len(),
{
    if ops.len() > 0 {
        let (h2, e2) = op_step(h, e, ops.first());
        lemma_op_step_frame(h, e, ops.first());
        assert(e2.res(h.id).release_calls + release_budget(h2) <= e.res(h.id).release_calls
            + release_budget(h));
        lemma_release_at_most_once(h2, e2, ops.drop_first());
    }
}

/// Borrow-no-release: a handle that does not own its resource never causes
/// a release call, whatever is done with it.
pub proof fn lemma_borrowed_never_releases(h: HandleModel, e: EngineModel, ops: Seq<SoundOp>)
    requires
        h.valid_for(e),
        !h.owning,
    ensures
        run_ops(h, e, ops).1.res(h.id).release_calls == e.res(h.id).release_calls,
{
    lemma_release_at_most_once(h, e, ops);
}

/// On a released handle every operation but release itself fails, and even
/// release changes nothing further.
proof fn lemma_released_stays_released(h: HandleModel, e: EngineModel, ops: Seq<SoundOp>)
    requires
        h.released,
        all_ok(h, e, ops),
    ensures
        forall|j: int| 0 <= j < ops.len() ==> ops[j] is Release,
    decreases ops.len(),
{
    if ops.len() > 0 {
        let (h2, e2) = op_step(h, e, ops.first());
        lemma_released_stays_released(h2, e2, ops.drop_first());
        assert forall|j: int| 0 <= j < ops.len() implies ops[j] is Release by {
            if j > 0 {
                assert(ops.drop_first()[j - 1] is Release);
            }
        }
    }
}

/// Release only after the last use: in an error-free sequence of operations
/// on an owning handle, nothing but further (no-op) releases follows a
/// release — every successful use of the handle happens before its resource
/// is given up.
pub proof fn lemma_release_after_last_use(h: HandleModel, e: EngineModel, ops: Seq<SoundOp>)
    requires
        h.owning,
        all_ok(h, e, ops),
    ensures
        forall|i: int, j: int|
            0 <= i < j < ops.len() && ops[i] is Release ==> ops[j] is Release,
    decreases ops.len(),
{
    if ops.len() > 0 {
        let (h2, e2) = op_step(h, e, ops.first());
        if ops.first() is Release {
            assert(h2.released);
            lemma_released_stays_released(h2, e2, ops.drop_first());
        } else {
            lemma_release_after_last_use(h2, e2, ops.drop_first());
        }
        assert forall|i: int, j: int|
            0 <= i < j < ops.len() && ops[i] is Release implies ops[j] is Release by {
            if i == 0 {
                assert(ops.drop_first()[j - 1] is Release);
            } else {
                assert(ops.drop_first()[i - 1] is Release);
                assert(ops.drop_first()[j - 1] is Release);
            }
        }
    }
}

/// Lock/unlock pairing: an error-free sequence of operations obeys the
/// discipline — each lock is followed by exactly one unlock before any
/// further lock and before release.
pub proof fn lemma_lock_unlock_paired(h: HandleModel, e: EngineModel, ops: Seq<SoundOp>)
    requires
        all_ok(h, e, ops),
    ensures
        well_paired(h.locked, ops),
    decreases ops.len(),
{
    if ops.len() > 0 {
        let (h2, e2) = op_step(h, e, ops.first());
        lemma_lock_unlock_paired(h2, e2, ops.drop_first());
    }
}

/// Use-after-release: on a released handle, every accessor, lock, unlock
/// and traversal reports the violation and leaves the engine untouched —
/// no engine call happens.
pub proof fn lemma_use_after_release(h: HandleModel, e: EngineModel, offset: u32, length: u32)
    requires
        h.released,
    ensures
        query_format_step(h, e) == (
            h,
            e,
            Result::<(u16, u16), HandleError>::Err(HandleError::UseAfterRelease),
        ),
        query_rate_step(h, e) == (
            h,
            e,
            Result::<u32, HandleError>::Err(HandleError::UseAfterRelease),
        ),
        query_length_step(h, e) == (
            h,
            e,
            Result::<u32, HandleError>::Err(HandleError::UseAfterRelease),
        ),
        lock_step(h, e, offset, length) == (
            h,
            e,
            Result::<(Seq<u8>, Seq<u8>), HandleError>::Err(HandleError::UseAfterRelease),
        ),
        unlock_step(h, e) == (h, e, Result::<(), HandleError>::Err(HandleError::UseAfterRelease)),
        get_related_step(h, e) == (
            h,
            e,
            Result::<int, HandleError>::Err(HandleError::UseAfterRelease),
        ),
{
}

/// Idempotent release: a second release changes neither the handle nor the
/// engine — only the first release call, if any, reaches the engine — and
/// succeeds whenever the handle holds no lock.
pub proof fn lemma_release_idempotent(h: HandleModel, e: EngineModel)
    ensures
        ({
            let (h1, e1, r1) = release_step(h, e);
            let (h2, e2, r2) = release_step(h1, e1);
            &&& h2 == h1
            &&& e2 == e1
            &&& (!h.locked ==> r2 is Ok)
        }),
{
}

} // verus!
