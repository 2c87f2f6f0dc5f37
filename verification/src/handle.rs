//! Ownership-tagged handles over engine resources.
//!
//! A handle wraps one engine identifier. An owning handle is created by the
//! engine for this caller and must release the resource exactly once; a
//! borrowed handle comes from traversal and never releases. Every operation
//! first checks the handle's own bookkeeping — released handles and broken
//! lock pairing are refused locally, before any engine call — and is
//! specified as one deterministic step over the mathematical models, so the
//! lifecycle laws can be stated and proved over those steps.

use vstd::prelude::*;

use crate::engine::Engine;
use crate::engine::EngineModel;
use crate::engine::ResourceKind;
use crate::engine::ResourceModel;
use crate::errors::CODE_ALREADY_LOCKED;
use crate::errors::CODE_INVALID_HANDLE;
use crate::errors::CODE_NOT_FOUND;
use crate::errors::CODE_NOT_LOCKED;
use crate::errors::CODE_OK;
use crate::errors::CODE_OUT_OF_RANGE;
use crate::errors::CODE_WRONG_KIND;
use crate::errors::HandleError;
use crate::wav::format_ok;

verus! {

/// Whether a handle owns its resource or merely refers to it.
#[derive(Clone, Copy, Debug, PartialEq, Eq, Structural)]
pub enum Ownership {
    /// The resource was created for this handle; the handle releases it.
    Owning,
    /// The identifier came from traversal; the handle never releases it.
    Borrowed,
}

/// Mathematical state of a handle.
#[verifier::ext_equal]
pub ghost struct HandleModel {
    pub id: int,
    pub owning: bool,
    /// The handle's resource has been released through this handle.
    pub released: bool,
    /// This handle holds an outstanding lock on its resource's PCM data.
    pub locked: bool,
}

impl HandleModel {
    /// The handle names a resource this engine has handed out.
    pub open spec fn valid_for(self, e: EngineModel) -> bool {
        e.valid_id(self.id)
    }
}

/// The engine model after one call that changes no resource.
pub open spec fn engine_after_call(e: EngineModel) -> EngineModel {
    EngineModel { calls: e.calls + 1, ..e }
}

/// The engine model after a release call for `id`: the call is recorded,
/// the resource is no longer live.
pub open spec fn engine_after_release(e: EngineModel, id: int) -> EngineModel {
    EngineModel {
        calls: e.calls + 1,
        resources: e.resources.update(
            id,
            (ResourceModel {
                live: false,
                release_calls: e.res(id).release_calls + 1,
                ..e.res(id)
            }),
        ),
    }
}

/// The engine model after a call that sets the lock mark of `id`.
pub open spec fn engine_with_locked(e: EngineModel, id: int, locked: bool) -> EngineModel {
    EngineModel {
        calls: e.calls + 1,
        resources: e.resources.update(id, (ResourceModel { locked, ..e.res(id) })),
    }
}

/// One release step. A handle holding a lock is refused before the engine is
/// involved; a borrowed or already-released handle is a no-op; an owning live
/// handle issues the engine's release call and is marked released whether or
/// not the engine reports success.
pub open spec fn release_step(h: HandleModel, e: EngineModel) -> (
    HandleModel,
    EngineModel,
    Result<(), HandleError>,
) {
    if h.locked {
        (h, e, Err(HandleError::LockState))
    } else if !h.owning || h.released {
        (h, e, Ok(()))
    } else {
        let h2 = HandleModel { released: true, ..h };
        let e2 = engine_after_release(e, h.id);
        if e.res(h.id).live {
            (h2, e2, Ok(()))
        } else {
            (h2, e2, Err(HandleError::Engine(CODE_INVALID_HANDLE)))
        }
    }
}

/// One format query step: released handles are refused locally; otherwise
/// the engine is asked and answers from the resource's record.
pub open spec fn query_format_step(h: HandleModel, e: EngineModel) -> (
    HandleModel,
    EngineModel,
    Result<(u16, u16), HandleError>,
) {
    if h.released {
        (h, e, Err(HandleError::UseAfterRelease))
    } else {
        let r = e.res(h.id);
        let e2 = engine_after_call(e);
        if !r.live {
            (h, e2, Err(HandleError::Engine(CODE_INVALID_HANDLE)))
        } else if !(r.kind is Sound) {
            (h, e2, Err(HandleError::Engine(CODE_WRONG_KIND)))
        } else {
            (h, e2, Ok((r.channels, r.bits_per_sample)))
        }
    }
}

/// One default-rate query step.
pub open spec fn query_rate_step(h: HandleModel, e: EngineModel) -> (
    HandleModel,
    EngineModel,
    Result<u32, HandleError>,
) {
    if h.released {
        (h, e, Err(HandleError::UseAfterRelease))
    } else {
        let r = e.res(h.id);
        let e2 = engine_after_call(e);
        if !r.live {
            (h, e2, Err(HandleError::Engine(CODE_INVALID_HANDLE)))
        } else if !(r.kind is Sound) {
            (h, e2, Err(HandleError::Engine(CODE_WRONG_KIND)))
        } else {
            (h, e2, Ok(r.sample_rate))
        }
    }
}

/// One PCM-byte-length query step.
pub open spec fn query_length_step(h: HandleModel, e: EngineModel) -> (
    HandleModel,
    EngineModel,
    Result<u32, HandleError>,
) {
    if h.released {
        (h, e, Err(HandleError::UseAfterRelease))
    } else {
        let r = e.res(h.id);
        let e2 = engine_after_call(e);
        if !r.live {
            (h, e2, Err(HandleError::Engine(CODE_INVALID_HANDLE)))
        } else if !(r.kind is Sound) {
            (h, e2, Err(HandleError::Engine(CODE_WRONG_KIND)))
        } else {
            (h, e2, Ok(r.pcm.len() as u32))
        }
    }
}

/// One lock step. A second lock before the unlock is refused locally; on
/// success the handle and the engine both record the outstanding lock and
/// the locked bytes are handed out as two regions, the second empty.
pub open spec fn lock_step(h: HandleModel, e: EngineModel, offset: u32, length: u32) -> (
    HandleModel,
    EngineModel,
    Result<(Seq<u8>, Seq<u8>), HandleError>,
) {
    if h.released {
        (h, e, Err(HandleError::UseAfterRelease))
    } else if h.locked {
        (h, e, Err(HandleError::LockState))
    } else {
        let r = e.res(h.id);
        let e2 = engine_after_call(e);
        if !r.live {
            (h, e2, Err(HandleError::Engine(CODE_INVALID_HANDLE)))
        } else if !(r.kind is Sound) {
            (h, e2, Err(HandleError::Engine(CODE_WRONG_KIND)))
        } else if r.locked {
            (h, e2, Err(HandleError::Engine(CODE_ALREADY_LOCKED)))
        } else if offset + length > r.pcm.len() {
            (h, e2, Err(HandleError::Engine(CODE_OUT_OF_RANGE)))
        } else {
            (
                HandleModel { locked: true, ..h },
                engine_with_locked(e, h.id, true),
                Ok((r.pcm.subrange(offset as int, offset + length), Seq::<u8>::empty())),
            )
        }
    }
}

/// One unlock step. An unlock without a matching lock is refused locally;
/// on success the lock marks on the handle and in the engine are cleared.
pub open spec fn unlock_step(h: HandleModel, e: EngineModel) -> (
    HandleModel,
    EngineModel,
    Result<(), HandleError>,
) {
    if h.released {
        (h, e, Err(HandleError::UseAfterRelease))
    } else if !h.locked {
        (h, e, Err(HandleError::LockState))
    } else {
        let r = e.res(h.id);
        let e2 = engine_after_call(e);
        if !r.live {
            (h, e2, Err(HandleError::Engine(CODE_INVALID_HANDLE)))
        } else if !(r.kind is Sound) {
            (h, e2, Err(HandleError::Engine(CODE_WRONG_KIND)))
        } else if !r.locked {
            (h, e2, Err(HandleError::Engine(CODE_NOT_LOCKED)))
        } else {
            (HandleModel { locked: false, ..h }, engine_with_locked(e, h.id, false), Ok(()))
        }
    }
}

/// One traversal step: the engine reports which identifier `h` relates to;
/// the result is wrapped borrowed, never owning.
pub open spec fn get_related_step(h: HandleModel, e: EngineModel) -> (
    HandleModel,
    EngineModel,
    Result<int, HandleError>,
) {
    if h.released {
        (h, e, Err(HandleError::UseAfterRelease))
    } else {
        let r = e.res(h.id);
        let e2 = engine_after_call(e);
        if !r.live {
            (h, e2, Err(HandleError::Engine(CODE_INVALID_HANDLE)))
        } else {
            match r.related {
                Some(o) => (h, e2, Ok(o)),
                None => (h, e2, Err(HandleError::Engine(CODE_NOT_FOUND))),
            }
        }
    }
}

/// The two byte regions a lock hands out. A ring buffer may wrap, so the
/// locked range arrives as two pieces to be read in order; the payload is
/// their concatenation.
pub struct PcmLockRegion {
    pub region_a: Vec<u8>,
    pub region_b: Vec<u8>,
}

impl PcmLockRegion {
    /// The locked bytes, both regions in order.
    pub open spec fn bytes(self) -> Seq<u8> {
        self.region_a@ + self.region_b@
    }
}

/// A typed reference to one engine resource, tagged with whether it owns
/// the resource, and carrying the local bookkeeping that keeps dead and
/// locked handles away from the engine.
pub struct ResourceHandle {
    id: usize,
    ownership: Ownership,
    released: bool,
    locked: bool,
}

impl View for ResourceHandle {
    type V = HandleModel;

    closed spec fn view(&self) -> HandleModel {
        HandleModel {
            id: self.id as int,
            owning: self.ownership is Owning,
            released: self.released,
            locked: self.locked,
        }
    }
}

impl ResourceHandle {
    /// Creates a resource in the engine and wraps the fresh identifier as
    /// an owning handle.
    pub fn acquire(
        engine: &mut Engine,
        kind: ResourceKind,
        channels: u16,
        bits_per_sample: u16,
        sample_rate: u32,
        pcm: Vec<u8>,
    ) -> (h: ResourceHandle)
        requires
            old(engine)@.wf(),
            old(engine)@.calls < u64::MAX,
            pcm@.len() + 44 <= u32::MAX,
            format_ok(channels, bits_per_sample, sample_rate),
        ensures
            final(engine)@.wf(),
            final(engine)@.calls == old(engine)@.calls + 1,
            final(engine)@.resources == old(engine)@.resources.push(
                (ResourceModel {
                    kind,
                    live: true,
                    locked: false,
                    release_calls: 0,
                    channels,
                    bits_per_sample,
                    sample_rate,
                    pcm: pcm@,
                    related: None,
                }),
            ),
            h@ == (HandleModel {
                id: old(engine)@.resources.len() as int,
                owning: true,
                released: false,
                locked: false,
            }),
    {
        let id = engine.create(kind, channels, bits_per_sample, sample_rate, pcm);
        ResourceHandle { id, ownership: Ownership::Owning, released: false, locked: false }
    }

    /// Wraps an identifier obtained from a traversal call. The handle never
    /// releases the resource: the registry releases only what it created.
    pub fn borrow(id: usize) -> (h: ResourceHandle)
        ensures
            h@ == (HandleModel { id: id as int, owning: false, released: false, locked: false }),
    {
        ResourceHandle { id, ownership: Ownership::Borrowed, released: false, locked: false }
    }

    /// The identifier this handle refers to.
    pub fn id(&self) -> (id: usize)
        ensures
            id == self@.id,
    {
        self.id
    }

    /// Whether this handle owns its resource.
    pub fn ownership(&self) -> (o: Ownership)
        ensures
            (o is Owning) == self@.owning,
    {
        self.ownership
    }

    /// Whether this handle's resource has been released through it.
    pub fn is_released(&self) -> (b: bool)
        ensures
            b == self@.released,
    {
        self.released
    }

    /// Whether this handle holds an outstanding lock.
    pub fn is_locked(&self) -> (b: bool)
        ensures
            b == self@.locked,
    {
        self.locked
    }

    /// Releases the handle's resource, idempotently: only the first release
    /// of an owning, live, unlocked handle reaches the engine; a borrowed or
    /// already-released handle is a no-op; a handle still holding a lock is
    /// refused. An engine-reported failure is surfaced, but the handle is
    /// marked released all the same.
    pub fn release(&mut self, engine: &mut Engine) -> (r: Result<(), HandleError>)
        requires
            old(self)@.valid_for(old(engine)@),
            old(engine)@.wf(),
            old(engine)@.calls < u64::MAX,
        ensures
            final(engine)@.wf(),
            (final(self)@, final(engine)@, r) == release_step(old(self)@, old(engine)@),
            !old(self)@.owning ==> *final(engine) == *old(engine),
            old(self)@.released ==> *final(engine) == *old(engine),
    {
        if self.locked {
            return Err(HandleError::LockState);
        }
        if matches!(self.ownership, Ownership::Borrowed) {
            return Ok(());
        }
        if self.released {
            return Ok(());
        }
        let code = engine.release(self.id);
        self.released = true;
        if code == CODE_OK {
            Ok(())
        } else {
            Err(HandleError::Engine(code))
        }
    }

    /// Queries the resource's channel count and bit depth.
    pub fn get_format(&self, engine: &mut Engine) -> (r: Result<(u16, u16), HandleError>)
        requires
            self@.valid_for(old(engine)@),
            old(engine)@.wf(),
            old(engine)@.calls < u64::MAX,
        ensures
            final(engine)@.wf(),
            ({
                let (h2, e2, r2) = query_format_step(self@, old(engine)@);
                final(engine)@ == e2 && r == r2
            }),
            self@.released ==> *final(engine) == *old(engine),
    {
        if self.released {
            return Err(HandleError::UseAfterRelease);
        }
        match engine.get_format(self.id) {
            Ok(f) => Ok(f),
            Err(code) => Err(HandleError::Engine(code)),
        }
    }

    /// Queries the resource's default sample rate.
    pub fn get_default_rate(&self, engine: &mut Engine) -> (r: Result<u32, HandleError>)
        requires
            self@.valid_for(old(engine)@),
            old(engine)@.wf(),
            old(engine)@.calls < u64::MAX,
        ensures
            final(engine)@.wf(),
            ({
                let (h2, e2, r2) = query_rate_step(self@, old(engine)@);
                final(engine)@ == e2 && r == r2
            }),
            self@.released ==> *final(engine) == *old(engine),
    {
        if self.released {
            return Err(HandleError::UseAfterRelease);
        }
        match engine.get_default_rate(self.id) {
            Ok(rate) => Ok(rate),
            Err(code) => Err(HandleError::Engine(code)),
        }
    }

    /// Queries the resource's payload length in PCM bytes.
    pub fn get_length(&self, engine: &mut Engine) -> (r: Result<u32, HandleError>)
        requires
            self@.valid_for(old(engine)@),
            old(engine)@.wf(),
            old(engine)@.calls < u64::MAX,
        ensures
            final(engine)@.wf(),
            ({
                let (h2, e2, r2) = query_length_step(self@, old(engine)@);
                final(engine)@ == e2 && r == r2
            }),
            self@.released ==> *final(engine) == *old(engine),
    {
        if self.released {
            return Err(HandleError::UseAfterRelease);
        }
        match engine.get_length(self.id) {
            Ok(len) => Ok(len),
            Err(code) => Err(HandleError::Engine(code)),
        }
    }

    /// Locks `[offset, offset + length)` of the resource's PCM data. The
    /// lock must be returned by `unlock` before another lock and before
    /// release.
    pub fn lock(&mut self, engine: &mut Engine, offset: u32, length: u32) -> (r: Result<
        PcmLockRegion,
        HandleError,
    >)
        requires
            old(self)@.valid_for(old(engine)@),
            old(engine)@.wf(),
            old(engine)@.calls < u64::MAX,
        ensures
            final(engine)@.wf(),
            ({
                let (h2, e2, r2) = lock_step(old(self)@, old(engine)@, offset, length);
                &&& final(self)@ == h2
                &&& final(engine)@ == e2
                &&& (match r {
                    Ok(region) => (r2 matches Ok(p) && region.region_a@ == p.0
                        && region.region_b@ == p.1),
                    Err(err) => r2 == Result::<(Seq<u8>, Seq<u8>), HandleError>::Err(err),
                })
            }),
            old(self)@.released || old(self)@.locked ==> *final(engine) == *old(engine),
    {
        if self.released {
            return Err(HandleError::UseAfterRelease);
        }
        if self.locked {
            return Err(HandleError::LockState);
        }
        match engine.lock(self.id, offset, length) {
            Ok((region_a, region_b)) => {
                self.locked = true;
                Ok(PcmLockRegion { region_a, region_b })
            },
            Err(code) => Err(HandleError::Engine(code)),
        }
    }

    /// Returns a lock's regions to the engine, restoring the resource to
    /// normal eligibility.
    pub fn unlock(&mut self, engine: &mut Engine, region: PcmLockRegion) -> (r: Result<
        (),
        HandleError,
    >)
        requires
            old(self)@.valid_for(old(engine)@),
            old(engine)@.wf(),
            old(engine)@.calls < u64::MAX,
        ensures
            final(engine)@.wf(),
            (final(self)@, final(engine)@, r) == unlock_step(old(self)@, old(engine)@),
            old(self)@.released || !old(self)@.locked ==> *final(engine) == *old(engine),
    {
        if self.released {
            return Err(HandleError::UseAfterRelease);
        }
        if !self.locked {
            return Err(HandleError::LockState);
        }
        let code = engine.unlock(self.id, region.region_a, region.region_b);
        if code == CODE_OK {
            self.locked = false;
            Ok(())
        } else {
            Err(HandleError::Engine(code))
        }
    }

    /// Asks the engine which resource this one relates to and wraps the
    /// answer as a borrowed handle.
    pub fn get_related(&self, engine: &mut Engine) -> (r: Result<ResourceHandle, HandleError>)
        requires
            self@.valid_for(old(engine)@),
            old(engine)@.wf(),
            old(engine)@.calls < u64::MAX,
        ensures
            final(engine)@.wf(),
            ({
                let (h2, e2, r2) = get_related_step(self@, old(engine)@);
                &&& final(engine)@ == e2
                &&& (match r {
                    Ok(related) => (r2 matches Ok(o) && related@ == (HandleModel {
                        id: o,
                        owning: false,
                        released: false,
                        locked: false,
                    }) && final(engine)@.valid_id(o)),
                    Err(err) => r2 == Result::<int, HandleError>::Err(err),
                })
            }),
            self@.released ==> *final(engine) == *old(engine),
    {
        if self.released {
            return Err(HandleError::UseAfterRelease);
        }
        match engine.get_related(self.id) {
            Ok(o) => Ok(ResourceHandle::borrow(o)),
            Err(code) => Err(HandleError::Engine(code)),
        }
    }
}

} // verus!
