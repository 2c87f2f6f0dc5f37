use audiocore::wav::WavDescriptor;
use audiocore::wav::wav_bytes;

fn le16(x: u16) -> Vec<u8> {
    vec![(x & 0xff) as u8, (x >> 8) as u8]
}

fn le32(x: u32) -> Vec<u8> {
    vec![
        (x & 0xff) as u8,
        ((x >> 8) & 0xff) as u8,
        ((x >> 16) & 0xff) as u8,
        (x >> 24) as u8,
    ]
}

#[test]
fn wav_bytes_stereo_16_bit_is_byte_exact() {
    let desc = WavDescriptor { channels: 2, bits_per_sample: 16, sample_rate: 44100 };
    let payload: Vec<u8> = vec![0x01, 0x02, 0x03, 0x04, 0x05, 0x06, 0x07, 0x08];
    let out = wav_bytes(&desc, &payload);

    let mut expected: Vec<u8> = Vec::new();
    expected.extend_from_slice(b"RIFF");
    expected.extend_from_slice(&le32(36 + 8));
    expected.extend_from_slice(b"WAVE");
    expected.extend_from_slice(b"fmt ");
    expected.extend_from_slice(&le32(16));
    expected.extend_from_slice(&le16(1));
    expected.extend_from_slice(&le16(2));
    expected.extend_from_slice(&le32(44100));
    expected.extend_from_slice(&le32(176400));
    expected.extend_from_slice(&le16(4));
    expected.extend_from_slice(&le16(16));
    expected.extend_from_slice(b"data");
    expected.extend_from_slice(&le32(8));
    expected.extend_from_slice(&[0x01, 0x02, 0x03, 0x04, 0x05, 0x06, 0x07, 0x08]);

    assert_eq!(out.len(), 52);
    assert_eq!(out, expected);
}

#[test]
fn wav_bytes_empty_payload_is_header_only() {
    let desc = WavDescriptor { channels: 2, bits_per_sample: 16, sample_rate: 44100 };
    let payload: Vec<u8> = Vec::new();
    let out = wav_bytes(&desc, &payload);
    assert_eq!(out.len(), 44);
    assert_eq!(&out[0..4], b"RIFF");
    assert_eq!(&out[4..8], &le32(36)[..]);
    assert_eq!(&out[8..12], b"WAVE");
    assert_eq!(&out[36..40], b"data");
    assert_eq!(&out[40..44], &le32(0)[..]);
}

#[test]
fn wav_bytes_mono_8_bit_formulas() {
    let desc = WavDescriptor { channels: 1, bits_per_sample: 8, sample_rate: 8000 };
    let payload: Vec<u8> = vec![0x7f, 0x80, 0x81];
    let out = wav_bytes(&desc, &payload);
    assert_eq!(out.len(), 47);
    // byte rate 8000 * 1 * 8 / 8 = 8000, block align 1 * 8 / 8 = 1
    assert_eq!(&out[28..32], &le32(8000)[..]);
    assert_eq!(&out[32..34], &le16(1)[..]);
    assert_eq!(&out[34..36], &le16(8)[..]);
    assert_eq!(&out[44..47], &[0x7f, 0x80, 0x81][..]);
}

#[test]
fn wav_bytes_truncating_division() {
    // 3 channels at 12 bits: block align is 36 / 8 = 4, truncated,
    // byte rate is 1000 * 3 * 12 / 8 = 4500 exactly.
    let desc = WavDescriptor { channels: 3, bits_per_sample: 12, sample_rate: 1000 };
    let payload: Vec<u8> = Vec::new();
    let out = wav_bytes(&desc, &payload);
    assert_eq!(&out[28..32], &le32(4500)[..]);
    assert_eq!(&out[32..34], &le16(4)[..]);
}
