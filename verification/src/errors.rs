//! The error taxonomy of the handle layer.
//!
//! Every engine-facing operation returns a discriminated outcome; no error is
//! swallowed. Engine rejections are propagated verbatim as their numeric code,
//! while the two local contract violations — touching a handle after its
//! release, and breaking the lock/unlock pairing — are reported as errors of
//! their own and never reach the engine.

use vstd::prelude::*;

verus! {

/// Result code the engine reports for a call it accepted.
pub const CODE_OK: u32 = 0;

/// Engine code: the call named a resource that is no longer live.
pub const CODE_INVALID_HANDLE: u32 = 1;

/// Engine code: a lock was requested on a resource that is already locked.
pub const CODE_ALREADY_LOCKED: u32 = 2;

/// Engine code: an unlock arrived for a resource that holds no lock.
pub const CODE_NOT_LOCKED: u32 = 3;

/// Engine code: a lock range reaches past the end of the resource's data.
pub const CODE_OUT_OF_RANGE: u32 = 4;

/// Engine code: the call is not meaningful for this kind of resource.
pub const CODE_WRONG_KIND: u32 = 5;

/// Engine code: the traversal found no related resource.
pub const CODE_NOT_FOUND: u32 = 6;

/// How an operation on a handle failed.
#[derive(Clone, Copy, Debug, PartialEq, Eq, Structural)]
pub enum HandleError {
    /// The engine rejected the call; the engine's code is carried verbatim.
    Engine(u32),
    /// The handle was used after its resource had been released. The
    /// operation performed no engine call.
    UseAfterRelease,
    /// A lock was issued while one was already outstanding, an unlock arrived
    /// without a matching lock, or a release was attempted while a lock was
    /// still held. The operation performed no engine call.
    LockState,
}

} // verus!
