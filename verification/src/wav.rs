//! Byte-exact construction of a canonical RIFF/WAVE file.
//!
//! The layout is fixed: a `RIFF` header, one `fmt ` chunk describing
//! uncompressed PCM, and one `data` chunk carrying the payload verbatim.
//! Every multi-byte integer is little-endian. The spec functions here define
//! the exact byte sequence; the executable builder is proved to emit it.

use vstd::prelude::*;

verus! {

/// The two little-endian bytes of a 16-bit value.
pub open spec fn le16(x: u16) -> Seq<u8> {
    seq![(x & 0xff) as u8, (x >> 8) as u8]
}

/// The four little-endian bytes of a 32-bit value.
pub open spec fn le32(x: u32) -> Seq<u8> {
    seq![
        (x & 0xff) as u8,
        ((x >> 8) & 0xff) as u8,
        ((x >> 16) & 0xff) as u8,
        (x >> 24) as u8,
    ]
}

/// Bytes per sample frame: `channels * bits / 8`, truncating.
pub open spec fn block_align_of(channels: u16, bits_per_sample: u16) -> int {
    channels * bits_per_sample / 8
}

/// Bytes per second of audio: `rate * channels * bits / 8`, truncating.
pub open spec fn byte_rate_of(channels: u16, bits_per_sample: u16, sample_rate: u32) -> int {
    sample_rate * channels * bits_per_sample / 8
}

/// The derived `fmt ` fields fit their 16- and 32-bit slots.
pub open spec fn format_ok(channels: u16, bits_per_sample: u16, sample_rate: u32) -> bool {
    &&& block_align_of(channels, bits_per_sample) <= u16::MAX
    &&& byte_rate_of(channels, bits_per_sample, sample_rate) <= u32::MAX
}

/// The 44 header bytes that precede the payload: RIFF header, `fmt ` chunk,
/// and the `data` chunk's tag and size.
pub open spec fn wav_header_bytes(
    channels: u16,
    bits_per_sample: u16,
    sample_rate: u32,
    data_len: u32,
) -> Seq<u8> {
    seq![0x52u8, 0x49u8, 0x46u8, 0x46u8] + le32((data_len + 36) as u32)
        + seq![0x57u8, 0x41u8, 0x56u8, 0x45u8]
        + seq![0x66u8, 0x6du8, 0x74u8, 0x20u8] + le32(16)
        + le16(1)
        + le16(channels)
        + le32(sample_rate)
        + le32(byte_rate_of(channels, bits_per_sample, sample_rate) as u32)
        + le16(block_align_of(channels, bits_per_sample) as u16)
        + le16(bits_per_sample)
        + seq![0x64u8, 0x61u8, 0x74u8, 0x61u8] + le32(data_len)
}

/// The whole file: header followed by the payload verbatim.
pub open spec fn wav_file_bytes(
    channels: u16,
    bits_per_sample: u16,
    sample_rate: u32,
    data: Seq<u8>,
) -> Seq<u8> {
    wav_header_bytes(channels, bits_per_sample, sample_rate, data.len() as u32) + data
}

/// The format of a sound as the exporter needs it: channel count, bit depth,
/// and default sample rate, as queried from the engine.
#[derive(Clone, Copy, Debug, PartialEq, Eq, Structural)]
pub struct WavDescriptor {
    pub channels: u16,
    pub bits_per_sample: u16,
    pub sample_rate: u32,
}

impl WavDescriptor {
    /// The descriptor's derived fields fit the chunk layout.
    pub open spec fn wf(self) -> bool {
        format_ok(self.channels, self.bits_per_sample, self.sample_rate)
    }
}

/// Appends the two little-endian bytes of `x`.
fn push_le16(out: &mut Vec<u8>, x: u16)
    ensures
        final(out)@ == old(out)@ + le16(x),
{
    out.push((x & 0xff) as u8);
    out.push((x >> 8) as u8);
    proof {
        assert(out@ =~= old(out)@ + le16(x));
    }
}

/// Appends the four little-endian bytes of `x`.
fn push_le32(out: &mut Vec<u8>, x: u32)
    ensures
        final(out)@ == old(out)@ + le32(x),
{
    out.push((x & 0xff) as u8);
    out.push(((x >> 8) & 0xff) as u8);
    out.push(((x >> 16) & 0xff) as u8);
    out.push((x >> 24) as u8);
    proof {
        assert(out@ =~= old(out)@ + le32(x));
    }
}

/// Serializes `data` as a RIFF/WAVE file with the given format, byte for
/// byte as `wav_file_bytes` lays it out.
pub fn wav_bytes(desc: &WavDescriptor, data: &Vec<u8>) -> (out: Vec<u8>)
    requires
        desc.wf(),
        data@.len() + 44 <= u32::MAX,
    ensures
        out@ == wav_file_bytes(desc.channels, desc.bits_per_sample, desc.sample_rate, data@),
        out@.len() == 44 + data@.len(),
{
    let data_len: u32 = data.len() as u32;
    proof {
        assert(desc.sample_rate as int * desc.channels as int <= 0xffff_ffff * 0xffff)
            by (nonlinear_arith)
            requires
                desc.sample_rate as int <= 0xffff_ffff,
                desc.channels as int <= 0xffff,
        ;
        assert((desc.sample_rate as int * desc.channels as int) * desc.bits_per_sample as int
            <= (0xffff_ffff * 0xffff) * 0xffff) by (nonlinear_arith)
            requires
                desc.sample_rate as int * desc.channels as int <= 0xffff_ffff * 0xffff,
                desc.bits_per_sample as int <= 0xffff,
        ;
    }
    let byte_rate: u32 = ((desc.sample_rate as u64 * desc.channels as u64
        * desc.bits_per_sample as u64) / 8) as u32;
    let block_align: u16 = ((desc.channels as u64 * desc.bits_per_sample as u64) / 8) as u16;

    let mut out: Vec<u8> = Vec::new();
    out.push(0x52);
    out.push(0x49);
    out.push(0x46);
    out.push(0x46);
    push_le32(&mut out, data_len + 36);
    out.push(0x57);
    out.push(0x41);
    out.push(0x56);
    out.push(0x45);
    out.push(0x66);
    out.push(0x6d);
    out.push(0x74);
    out.push(0x20);
    push_le32(&mut out, 16);
    push_le16(&mut out, 1);
    push_le16(&mut out, desc.channels);
    push_le32(&mut out, desc.sample_rate);
    push_le32(&mut out, byte_rate);
    push_le16(&mut out, block_align);
    push_le16(&mut out, desc.bits_per_sample);
    out.push(0x64);
    out.push(0x61);
    out.push(0x74);
    out.push(0x61);
    push_le32(&mut out, data_len);

    let ghost header = wav_header_bytes(
        desc.channels,
        desc.bits_per_sample,
        desc.sample_rate,
        data_len,
    );
    proof {
        assert(out@ =~= header);
    }

    let mut i: usize = 0;
    while i < data.len()
        invariant
            i <= data@.len(),
            out@ == header + data@.subrange(0, i as int),
        decreases data@.len() - i,
    {
        out.push(data[i]);
        proof {
            assert(data@.subrange(0, i + 1 as int)
                =~= data@.subrange(0, i as int).push(data@[i as int]));
            assert(out@ =~= header + data@.subrange(0, i + 1 as int));
        }
        i = i + 1;
    }
    proof {
        assert(data@.subrange(0, data@.len() as int) =~= data@);
        assert(out@ == wav_file_bytes(desc.channels, desc.bits_per_sample, desc.sample_rate, data@));
    }
    out
}

} // verus!
