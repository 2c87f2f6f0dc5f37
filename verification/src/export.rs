//! Export of a sound's PCM payload as a RIFF/WAVE byte stream.
//!
//! The exporter queries the sound's format, rate and byte length, locks the
//! whole payload range, serializes header and payload byte-exactly, and
//! unlocks. Any engine rejection aborts the export and is surfaced
//! verbatim; success is reported only once the lock has been returned.
//! Writing the bytes anywhere is the caller's business.

use vstd::prelude::*;

use crate::engine::Engine;
use crate::engine::EngineModel;
use crate::errors::CODE_ALREADY_LOCKED;
use crate::errors::CODE_INVALID_HANDLE;
use crate::errors::CODE_WRONG_KIND;
use crate::errors::HandleError;
use crate::handle::HandleModel;
use crate::handle::ResourceHandle;
use crate::wav::WavDescriptor;
use crate::wav::wav_bytes;
use crate::wav::wav_file_bytes;

verus! {

/// The one situation in which an export is owed: the handle is neither
/// released nor holding a lock, and its resource is a live sound that no
/// one else has locked.
pub open spec fn exportable(h: HandleModel, e: EngineModel) -> bool {
    &&& !h.released
    &&& !h.locked
    &&& e.res(h.id).live
    &&& e.res(h.id).kind is Sound
    &&& !e.res(h.id).locked
}

/// Appends all of `src` to `dst`.
fn append_bytes(dst: &mut Vec<u8>, src: &Vec<u8>)
    ensures
        final(dst)@ == old(dst)@ + src@,
{
    let n: usize = src.len();
    let mut i: usize = 0;
    while i < n
        invariant
            i <= n,
            n == src@.len(),
            dst@ == old(dst)@ + src@.subrange(0, i as int),
        decreases n - i,
    {
        dst.push(src[i]);
        proof {
            assert(src@.subrange(0, i + 1 as int)
                =~= src@.subrange(0, i as int).push(src@[i as int]));
            assert(dst@ =~= old(dst)@ + src@.subrange(0, i + 1 as int));
        }
        i = i + 1;
    }
    proof {
        assert(src@.subrange(0, n as int) =~= src@);
    }
}

/// Serializes the sound behind `h` as a complete RIFF/WAVE file.
///
/// On success the returned bytes are exactly `wav_file_bytes` of the
/// resource's recorded format and payload, the lock has been returned, and
/// the handle and every resource are as they were. Each failure is the
/// first check that refuses: a released handle or an outstanding lock is
/// refused locally, before any engine call; otherwise the engine's own
/// rejection of the first failing call is surfaced verbatim.
pub fn export_wav(h: &mut ResourceHandle, engine: &mut Engine) -> (r: Result<
    Vec<u8>,
    HandleError,
>)
    requires
        old(h)@.valid_for(old(engine)@),
        old(engine)@.wf(),
        old(engine)@.calls + 5 <= u64::MAX,
    ensures
        final(engine)@.wf(),
        final(h)@ == old(h)@,
        final(engine)@.resources == old(engine)@.resources,
        exportable(old(h)@, old(engine)@) ==> ({
            &&& (r matches Ok(bytes) && bytes@ == wav_file_bytes(
                old(engine)@.res(old(h)@.id).channels,
                old(engine)@.res(old(h)@.id).bits_per_sample,
                old(engine)@.res(old(h)@.id).sample_rate,
                old(engine)@.res(old(h)@.id).pcm,
            ))
            &&& final(engine)@.calls == old(engine)@.calls + 5
        }),
        old(h)@.released ==> r == Result::<Vec<u8>, HandleError>::Err(
            HandleError::UseAfterRelease,
        ) && *final(engine) == *old(engine),
        !old(h)@.released && !old(engine)@.res(old(h)@.id).live ==> r == Result::<
            Vec<u8>,
            HandleError,
        >::Err(HandleError::Engine(CODE_INVALID_HANDLE)),
        !old(h)@.released && old(engine)@.res(old(h)@.id).live && !(old(engine)@.res(
            old(h)@.id,
        ).kind is Sound) ==> r == Result::<Vec<u8>, HandleError>::Err(
            HandleError::Engine(CODE_WRONG_KIND),
        ),
        !old(h)@.released && old(engine)@.res(old(h)@.id).live && old(engine)@.res(
            old(h)@.id,
        ).kind is Sound && old(h)@.locked ==> r == Result::<Vec<u8>, HandleError>::Err(
            HandleError::LockState,
        ),
        !old(h)@.released && old(engine)@.res(old(h)@.id).live && old(engine)@.res(
            old(h)@.id,
        ).kind is Sound && !old(h)@.locked && old(engine)@.res(old(h)@.id).locked ==> r
            == Result::<Vec<u8>, HandleError>::Err(
            HandleError::Engine(CODE_ALREADY_LOCKED),
        ),
{
    let (channels, bits_per_sample) = match h.get_format(engine) {
        Ok(f) => f,
        Err(err) => {
            return Err(err);
        },
    };
    let sample_rate = match h.get_default_rate(engine) {
        Ok(rate) => rate,
        Err(err) => {
            return Err(err);
        },
    };
    let length = match h.get_length(engine) {
        Ok(len) => len,
        Err(err) => {
            return Err(err);
        },
    };
    let region = match h.lock(engine, 0, length) {
        Ok(region) => region,
        Err(err) => {
            return Err(err);
        },
    };

    let mut payload: Vec<u8> = Vec::new();
    append_bytes(&mut payload, &region.region_a);
    append_bytes(&mut payload, &region.region_b);
    proof {
        assert(payload@ =~= old(engine)@.res(old(h)@.id).pcm.subrange(
            0,
            old(engine)@.res(old(h)@.id).pcm.len() as int,
        ));
        assert(payload@ =~= old(engine)@.res(old(h)@.id).pcm);
    }
    let desc = WavDescriptor { channels, bits_per_sample, sample_rate };
    let out = wav_bytes(&desc, &payload);

    match h.unlock(engine, region) {
        Ok(()) => {},
        Err(err) => {
            return Err(err);
        },
    }
    proof {
        assert(engine@.resources =~= old(engine)@.resources);
        assert(h@ =~= old(h)@);
    }
    Ok(out)
}

} // verus!
