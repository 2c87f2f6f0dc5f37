//! A deterministic model of the external audio engine.
//!
//! The real engine is an opaque native collaborator reached through a narrow
//! capability set: create, release, format and length queries, lock and
//! unlock of raw PCM, and traversal to related resources. This module gives
//! that capability set a fully specified in-memory implementation, so the
//! handle layer can be verified — and tested — against it. The model records
//! every call it receives (`calls`) and, per resource, every release call
//! (`release_calls`); the lifecycle laws of the handle layer are statements
//! about those records.

use vstd::prelude::*;

use crate::errors::CODE_ALREADY_LOCKED;
use crate::errors::CODE_INVALID_HANDLE;
use crate::errors::CODE_NOT_FOUND;
use crate::errors::CODE_NOT_LOCKED;
use crate::errors::CODE_OK;
use crate::errors::CODE_OUT_OF_RANGE;
use crate::errors::CODE_WRONG_KIND;
use crate::wav::format_ok;

verus! {

/// Which entity of the engine's object model a resource is.
#[derive(Clone, Copy, Debug, PartialEq, Eq, Structural)]
pub enum ResourceKind {
    Sound,
    Channel,
    Dsp,
    DspConnection,
    ChannelGroup,
    SoundGroup,
}

/// Mathematical state of one engine resource.
#[verifier::ext_equal]
pub ghost struct ResourceModel {
    pub kind: ResourceKind,
    /// Still allocated inside the engine; a release call ends it.
    pub live: bool,
    /// A lock on the PCM data is outstanding.
    pub locked: bool,
    /// How many release calls the engine has received for this identifier.
    pub release_calls: nat,
    pub channels: u16,
    pub bits_per_sample: u16,
    pub sample_rate: u32,
    /// The raw PCM payload, in bytes.
    pub pcm: Seq<u8>,
    /// Identifier of a related resource, reachable by traversal.
    pub related: Option<int>,
}

/// Mathematical state of the whole engine.
#[verifier::ext_equal]
pub ghost struct EngineModel {
    /// One entry per identifier the engine ever handed out, in creation
    /// order. Released resources keep their slot, marked not live.
    pub resources: Seq<ResourceModel>,
    /// How many calls of any kind the engine has received.
    pub calls: nat,
}

impl EngineModel {
    /// Shorthand for the resource a valid identifier names.
    pub open spec fn res(self, id: int) -> ResourceModel {
        self.resources[id]
    }

    /// `id` names a resource the engine has handed out.
    pub open spec fn valid_id(self, id: int) -> bool {
        0 <= id < self.resources.len()
    }

    /// Every resource's payload and format fit the WAV chunk layout, and no
    /// per-resource record outruns the engine's own call record.
    pub open spec fn wf(self) -> bool {
        forall|i: int|
            0 <= i < self.resources.len() ==> {
                &&& (#[trigger] self.resources[i]).release_calls <= self.calls
                &&& self.resources[i].pcm.len() + 44 <= u32::MAX
                &&& format_ok(
                    self.resources[i].channels,
                    self.resources[i].bits_per_sample,
                    self.resources[i].sample_rate,
                )
                &&& (self.resources[i].related matches Some(o) ==> 0 <= o
                    < self.resources.len())
            }
    }
}

/// Copies `src[offset .. offset + length]` into a fresh vector.
fn copy_range(src: &Vec<u8>, offset: usize, length: usize) -> (out: Vec<u8>)
    requires
        offset + length <= src@.len(),
    ensures
        out@ == src@.subrange(offset as int, offset + length),
{
    let n: usize = src.len();
    let mut out: Vec<u8> = Vec::new();
    let mut i: usize = 0;
    while i < length
        invariant
            i <= length,
            n == src@.len(),
            offset + length <= n,
            out@ == src@.subrange(offset as int, offset + i),
        decreases length - i,
    {
        out.push(src[offset + i]);
        proof {
            assert(src@.subrange(offset as int, offset + i + 1)
                =~= src@.subrange(offset as int, offset + i).push(src@[offset + i]));
        }
        i = i + 1;
    }
    out
}

struct Resource {
    kind: ResourceKind,
    live: bool,
    locked: bool,
    release_calls: u64,
    channels: u16,
    bits_per_sample: u16,
    sample_rate: u32,
    pcm: Vec<u8>,
    related: Option<usize>,
}

impl View for Resource {
    type V = ResourceModel;

    closed spec fn view(&self) -> ResourceModel {
        ResourceModel {
            kind: self.kind,
            live: self.live,
            locked: self.locked,
            release_calls: self.release_calls as nat,
            channels: self.channels,
            bits_per_sample: self.bits_per_sample,
            sample_rate: self.sample_rate,
            pcm: self.pcm@,
            related: match self.related {
                Some(r) => Some(r as int),
                None => None,
            },
        }
    }
}

/// The model engine: a table of resources and a record of received calls.
pub struct Engine {
    resources: Vec<Resource>,
    calls: u64,
}

impl View for Engine {
    type V = EngineModel;

    closed spec fn view(&self) -> EngineModel {
        EngineModel {
            resources: self.resources@.map_values(|r: Resource| r@),
            calls: self.calls as nat,
        }
    }
}

impl Engine {
    /// An engine that has handed out nothing and heard nothing.
    pub fn new() -> (engine: Engine)
        ensures
            engine@.resources == Seq::<ResourceModel>::empty(),
            engine@.calls == 0,
            engine@.wf(),
    {
        let engine = Engine { resources: Vec::new(), calls: 0 };
        proof {
            assert(engine@.resources =~= Seq::<ResourceModel>::empty());
        }
        engine
    }

    /// Allocates a resource and hands out its identifier. Creation always
    /// takes the payload and format whole, so it cannot fail in the model.
    pub fn create(
        &mut self,
        kind: ResourceKind,
        channels: u16,
        bits_per_sample: u16,
        sample_rate: u32,
        pcm: Vec<u8>,
    ) -> (id: usize)
        requires
            old(self)@.wf(),
            old(self)@.calls < u64::MAX,
            pcm@.len() + 44 <= u32::MAX,
            format_ok(channels, bits_per_sample, sample_rate),
        ensures
            final(self)@.wf(),
            id == old(self)@.resources.len(),
            final(self)@.calls == old(self)@.calls + 1,
            final(self)@.resources == old(self)@.resources.push(
                (ResourceModel {
                    kind,
                    live: true,
                    locked: false,
                    release_calls: 0,
                    channels,
                    bits_per_sample,
                    sample_rate,
                    pcm: pcm@,
                    related: None,
                }),
            ),
    {
        let ghost pcm0 = pcm@;
        self.calls = self.calls + 1;
        let id = self.resources.len();
        self.resources.push(
            Resource {
                kind,
                live: true,
                locked: false,
                release_calls: 0,
                channels,
                bits_per_sample,
                sample_rate,
                pcm,
                related: None,
            },
        );
        proof {
            let m = (ResourceModel {
                kind,
                live: true,
                locked: false,
                release_calls: 0,
                channels,
                bits_per_sample,
                sample_rate,
                pcm: pcm0,
                related: None,
            });
            assert(self@.resources =~= old(self)@.resources.push(m));
        }
        id
    }

    /// How many resources the engine has ever handed out.
    pub fn resource_count(&self) -> (n: usize)
        ensures
            n == self@.resources.len(),
    {
        self.resources.len()
    }

    /// How many calls of any kind the engine has received.
    pub fn calls(&self) -> (n: u64)
        ensures
            n == self@.calls,
    {
        self.calls
    }

    /// Whether the resource is still live.
    pub fn is_live(&self, id: usize) -> (b: bool)
        requires
            self@.valid_id(id as int),
        ensures
            b == self@.res(id as int).live,
    {
        self.resources[id].live
    }

    /// Whether the resource's PCM data is locked.
    pub fn is_locked(&self, id: usize) -> (b: bool)
        requires
            self@.valid_id(id as int),
        ensures
            b == self@.res(id as int).locked,
    {
        self.resources[id].locked
    }

    /// How many release calls the engine has received for this identifier.
    pub fn release_calls_of(&self, id: usize) -> (n: u64)
        requires
            self@.valid_id(id as int),
        ensures
            n == self@.res(id as int).release_calls,
    {
        self.resources[id].release_calls
    }

    /// Releases the resource. The engine records the call whether or not the
    /// resource was still live, ends the resource either way, and reports
    /// failure if it was already gone.
    pub fn release(&mut self, id: usize) -> (code: u32)
        requires
            old(self)@.wf(),
            old(self)@.calls < u64::MAX,
            old(self)@.valid_id(id as int),
        ensures
            final(self)@.wf(),
            final(self)@.calls == old(self)@.calls + 1,
            final(self)@.resources == old(self)@.resources.update(
                id as int,
                (ResourceModel {
                    live: false,
                    release_calls: old(self)@.res(id as int).release_calls + 1,
                    ..old(self)@.res(id as int)
                }),
            ),
            code == (if old(self)@.res(id as int).live {
                CODE_OK
            } else {
                CODE_INVALID_HANDLE
            }),
    {
        self.calls = self.calls + 1;
        let r = &mut self.resources[id];
        let was_live = r.live;
        r.live = false;
        r.release_calls = r.release_calls + 1;
        proof {
            assert(self@.resources =~= old(self)@.resources.update(
                id as int,
                (ResourceModel {
                    live: false,
                    release_calls: old(self)@.res(id as int).release_calls + 1,
                    ..old(self)@.res(id as int)
                }),
            ));
        }
        if was_live {
            CODE_OK
        } else {
            CODE_INVALID_HANDLE
        }
    }

    /// Reports a sound's channel count and bit depth.
    pub fn get_format(&mut self, id: usize) -> (r: Result<(u16, u16), u32>)
        requires
            old(self)@.wf(),
            old(self)@.calls < u64::MAX,
            old(self)@.valid_id(id as int),
        ensures
            final(self)@.wf(),
            final(self)@.calls == old(self)@.calls + 1,
            final(self)@.resources == old(self)@.resources,
            r == (if !old(self)@.res(id as int).live {
                Result::<(u16, u16), u32>::Err(CODE_INVALID_HANDLE)
            } else if !(old(self)@.res(id as int).kind is Sound) {
                Result::<(u16, u16), u32>::Err(CODE_WRONG_KIND)
            } else {
                Result::<(u16, u16), u32>::Ok(
                    (
                        old(self)@.res(id as int).channels,
                        old(self)@.res(id as int).bits_per_sample,
                    ),
                )
            }),
    {
        self.calls = self.calls + 1;
        let r = &self.resources[id];
        if !r.live {
            Err(CODE_INVALID_HANDLE)
        } else if !matches!(r.kind, ResourceKind::Sound) {
            Err(CODE_WRONG_KIND)
        } else {
            Ok((r.channels, r.bits_per_sample))
        }
    }

    /// Reports a sound's default sample rate.
    pub fn get_default_rate(&mut self, id: usize) -> (r: Result<u32, u32>)
        requires
            old(self)@.wf(),
            old(self)@.calls < u64::MAX,
            old(self)@.valid_id(id as int),
        ensures
            final(self)@.wf(),
            final(self)@.calls == old(self)@.calls + 1,
            final(self)@.resources == old(self)@.resources,
            r == (if !old(self)@.res(id as int).live {
                Result::<u32, u32>::Err(CODE_INVALID_HANDLE)
            } else if !(old(self)@.res(id as int).kind is Sound) {
                Result::<u32, u32>::Err(CODE_WRONG_KIND)
            } else {
                Result::<u32, u32>::Ok(old(self)@.res(id as int).sample_rate)
            }),
    {
        self.calls = self.calls + 1;
        let r = &self.resources[id];
        if !r.live {
            Err(CODE_INVALID_HANDLE)
        } else if !matches!(r.kind, ResourceKind::Sound) {
            Err(CODE_WRONG_KIND)
        } else {
            Ok(r.sample_rate)
        }
    }

    /// Reports a sound's payload length in PCM bytes.
    pub fn get_length(&mut self, id: usize) -> (r: Result<u32, u32>)
        requires
            old(self)@.wf(),
            old(self)@.calls < u64::MAX,
            old(self)@.valid_id(id as int),
        ensures
            final(self)@.wf(),
            final(self)@.calls == old(self)@.calls + 1,
            final(self)@.resources == old(self)@.resources,
            r == (if !old(self)@.res(id as int).live {
                Result::<u32, u32>::Err(CODE_INVALID_HANDLE)
            } else if !(old(self)@.res(id as int).kind is Sound) {
                Result::<u32, u32>::Err(CODE_WRONG_KIND)
            } else {
                Result::<u32, u32>::Ok(old(self)@.res(id as int).pcm.len() as u32)
            }),
    {
        self.calls = self.calls + 1;
        let r = &self.resources[id];
        if !r.live {
            Err(CODE_INVALID_HANDLE)
        } else if !matches!(r.kind, ResourceKind::Sound) {
            Err(CODE_WRONG_KIND)
        } else {
            Ok(r.pcm.len() as u32)
        }
    }

    /// Locks `[offset, offset + length)` of a sound's PCM data and hands the
    /// bytes out as two regions. The model engine stores payloads linearly,
    /// so the second (ring-buffer wrap) region is always empty.
    pub fn lock(&mut self, id: usize, offset: u32, length: u32) -> (r: Result<
        (Vec<u8>, Vec<u8>),
        u32,
    >)
        requires
            old(self)@.wf(),
            old(self)@.calls < u64::MAX,
            old(self)@.valid_id(id as int),
        ensures
            final(self)@.wf(),
            final(self)@.calls == old(self)@.calls + 1,
            !old(self)@.res(id as int).live ==> final(self)@.resources == old(self)@.resources
                && r == Result::<(Vec<u8>, Vec<u8>), u32>::Err(CODE_INVALID_HANDLE),
            old(self)@.res(id as int).live && !(old(self)@.res(id as int).kind is Sound)
                ==> final(self)@.resources == old(self)@.resources && r == Result::<
                (Vec<u8>, Vec<u8>),
                u32,
            >::Err(CODE_WRONG_KIND),
            old(self)@.res(id as int).live && old(self)@.res(id as int).kind is Sound && old(
                self,
            )@.res(id as int).locked ==> final(self)@.resources == old(self)@.resources && r
                == Result::<(Vec<u8>, Vec<u8>), u32>::Err(CODE_ALREADY_LOCKED),
            old(self)@.res(id as int).live && old(self)@.res(id as int).kind is Sound && !old(
                self,
            )@.res(id as int).locked && offset + length > old(self)@.res(id as int).pcm.len()
                ==> final(self)@.resources == old(self)@.resources && r == Result::<
                (Vec<u8>, Vec<u8>),
                u32,
            >::Err(CODE_OUT_OF_RANGE),
            old(self)@.res(id as int).live && old(self)@.res(id as int).kind is Sound && !old(
                self,
            )@.res(id as int).locked && offset + length <= old(self)@.res(id as int).pcm.len()
                ==> ({
                &&& final(self)@.resources == old(self)@.resources.update(
                    id as int,
                    (ResourceModel { locked: true, ..old(self)@.res(id as int) }),
                )
                &&& (r matches Ok(regions) && regions.0@ == old(self)@.res(id as int).pcm.subrange(
                    offset as int,
                    offset + length,
                ) && regions.1@ == Seq::<u8>::empty())
            }),
    {
        self.calls = self.calls + 1;
        let r = &self.resources[id];
        if !r.live {
            return Err(CODE_INVALID_HANDLE);
        }
        if !matches!(r.kind, ResourceKind::Sound) {
            return Err(CODE_WRONG_KIND);
        }
        if r.locked {
            return Err(CODE_ALREADY_LOCKED);
        }
        if offset as u64 + length as u64 > r.pcm.len() as u64 {
            return Err(CODE_OUT_OF_RANGE);
        }
        let region_a = copy_range(&r.pcm, offset as usize, length as usize);
        let region_b: Vec<u8> = Vec::new();
        let rm = &mut self.resources[id];
        rm.locked = true;
        proof {
            assert(self@.resources =~= old(self)@.resources.update(
                id as int,
                (ResourceModel { locked: true, ..old(self)@.res(id as int) }),
            ));
            assert(region_b@ =~= Seq::<u8>::empty());
        }
        Ok((region_a, region_b))
    }

    /// Returns a lock's regions to the engine. The model engine keeps the
    /// payload as it was, so unlocking only clears the lock mark.
    pub fn unlock(&mut self, id: usize, region_a: Vec<u8>, region_b: Vec<u8>) -> (code: u32)
        requires
            old(self)@.wf(),
            old(self)@.calls < u64::MAX,
            old(self)@.valid_id(id as int),
        ensures
            final(self)@.wf(),
            final(self)@.calls == old(self)@.calls + 1,
            !old(self)@.res(id as int).live ==> final(self)@.resources == old(self)@.resources
                && code == CODE_INVALID_HANDLE,
            old(self)@.res(id as int).live && !(old(self)@.res(id as int).kind is Sound)
                ==> final(self)@.resources == old(self)@.resources && code == CODE_WRONG_KIND,
            old(self)@.res(id as int).live && old(self)@.res(id as int).kind is Sound && !old(
                self,
            )@.res(id as int).locked ==> final(self)@.resources == old(self)@.resources
                && code == CODE_NOT_LOCKED,
            old(self)@.res(id as int).live && old(self)@.res(id as int).kind is Sound && old(
                self,
            )@.res(id as int).locked ==> final(self)@.resources == old(self)@.resources.update(
                id as int,
                (ResourceModel { locked: false, ..old(self)@.res(id as int) }),
            ) && code == CODE_OK,
    {
        self.calls = self.calls + 1;
        let r = &self.resources[id];
        if !r.live {
            return CODE_INVALID_HANDLE;
        }
        if !matches!(r.kind, ResourceKind::Sound) {
            return CODE_WRONG_KIND;
        }
        if !r.locked {
            return CODE_NOT_LOCKED;
        }
        let rm = &mut self.resources[id];
        rm.locked = false;
        proof {
            assert(self@.resources =~= old(self)@.resources.update(
                id as int,
                (ResourceModel { locked: false, ..old(self)@.res(id as int) }),
            ));
        }
        CODE_OK
    }

    /// Records that traversal from `id` reaches `other`.
    pub fn set_related(&mut self, id: usize, other: usize) -> (code: u32)
        requires
            old(self)@.wf(),
            old(self)@.calls < u64::MAX,
            old(self)@.valid_id(id as int),
            old(self)@.valid_id(other as int),
        ensures
            final(self)@.wf(),
            final(self)@.calls == old(self)@.calls + 1,
            !old(self)@.res(id as int).live ==> final(self)@.resources == old(self)@.resources
                && code == CODE_INVALID_HANDLE,
            old(self)@.res(id as int).live ==> final(self)@.resources == old(
                self,
            )@.resources.update(
                id as int,
                (ResourceModel { related: Some(other as int), ..old(self)@.res(id as int) }),
            ) && code == CODE_OK,
    {
        self.calls = self.calls + 1;
        let r = &self.resources[id];
        if !r.live {
            return CODE_INVALID_HANDLE;
        }
        let rm = &mut self.resources[id];
        rm.related = Some(other);
        proof {
            assert(self@.resources =~= old(self)@.resources.update(
                id as int,
                (ResourceModel { related: Some(other as int), ..old(self)@.res(id as int) }),
            ));
        }
        CODE_OK
    }

    /// Hands out the identifier that traversal from `id` reaches. The caller
    /// does not come to own it.
    pub fn get_related(&mut self, id: usize) -> (r: Result<usize, u32>)
        requires
            old(self)@.wf(),
            old(self)@.calls < u64::MAX,
            old(self)@.valid_id(id as int),
        ensures
            final(self)@.wf(),
            final(self)@.calls == old(self)@.calls + 1,
            final(self)@.resources == old(self)@.resources,
            r == (if !old(self)@.res(id as int).live {
                Result::<usize, u32>::Err(CODE_INVALID_HANDLE)
            } else {
                match old(self)@.res(id as int).related {
                    Some(o) => Result::<usize, u32>::Ok(o as usize),
                    None => Result::<usize, u32>::Err(CODE_NOT_FOUND),
                }
            }),
            r matches Ok(o) ==> old(self)@.valid_id(o as int) && old(self)@.res(
                id as int,
            ).related == Some(o as int),
    {
        self.calls = self.calls + 1;
        let r = &self.resources[id];
        if !r.live {
            Err(CODE_INVALID_HANDLE)
        } else {
            match r.related {
                Some(o) => Ok(o),
                None => Err(CODE_NOT_FOUND),
            }
        }
    }
}

} // verus!
