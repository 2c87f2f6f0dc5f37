use audiocore::engine::Engine;
use audiocore::engine::ResourceKind;
use audiocore::errors::HandleError;
use audiocore::export::export_wav;
use audiocore::handle::ResourceHandle;
use audiocore::wav::WavDescriptor;
use audiocore::wav::wav_bytes;

#[test]
fn export_zero_length_sound_is_exactly_44_bytes() {
    let mut engine = Engine::new();
    let mut h = ResourceHandle::acquire(&mut engine, ResourceKind::Sound, 2, 16, 44100, Vec::new());
    let bytes = export_wav(&mut h, &mut engine).unwrap();
    assert_eq!(bytes.len(), 44);
    assert_eq!(&bytes[0..4], b"RIFF");
    assert_eq!(&bytes[40..44], &[0, 0, 0, 0][..]);
    // the lock was returned: the handle is still fully usable
    assert!(!h.is_locked());
    assert_eq!(h.get_length(&mut engine), Ok(0));
}

#[test]
fn export_emits_the_same_bytes_as_the_serializer() {
    let payload: Vec<u8> = vec![0x01, 0x02, 0x03, 0x04, 0x05, 0x06, 0x07, 0x08];
    let mut engine = Engine::new();
    let mut h = ResourceHandle::acquire(
        &mut engine,
        ResourceKind::Sound,
        2,
        16,
        44100,
        payload.clone(),
    );
    let bytes = export_wav(&mut h, &mut engine).unwrap();
    let desc = WavDescriptor { channels: 2, bits_per_sample: 16, sample_rate: 44100 };
    assert_eq!(bytes, wav_bytes(&desc, &payload));
    assert_eq!(bytes.len(), 52);
    assert_eq!(&bytes[44..52], &payload[..]);
}

#[test]
fn export_after_release_is_refused_without_engine_call() {
    let mut engine = Engine::new();
    let mut h = ResourceHandle::acquire(&mut engine, ResourceKind::Sound, 1, 8, 8000, vec![1, 2]);
    h.release(&mut engine).unwrap();
    let calls_before = engine.calls();
    assert!(matches!(export_wav(&mut h, &mut engine), Err(HandleError::UseAfterRelease)));
    assert_eq!(engine.calls(), calls_before);
}

#[test]
fn export_while_holding_a_lock_is_refused() {
    let mut engine = Engine::new();
    let mut h = ResourceHandle::acquire(&mut engine, ResourceKind::Sound, 1, 8, 8000, vec![1, 2]);
    let region = h.lock(&mut engine, 0, 2).unwrap();
    assert!(matches!(export_wav(&mut h, &mut engine), Err(HandleError::LockState)));
    h.unlock(&mut engine, region).unwrap();
}

#[test]
fn export_leaves_the_resource_unlocked_and_live() {
    let mut engine = Engine::new();
    let mut h = ResourceHandle::acquire(&mut engine, ResourceKind::Sound, 1, 8, 8000, vec![5, 6, 7]);
    let id = h.id();
    let calls_before = engine.calls();
    let bytes = export_wav(&mut h, &mut engine).unwrap();
    assert_eq!(bytes.len(), 47);
    assert!(engine.is_live(id));
    assert!(!engine.is_locked(id));
    // format, rate, length, lock, unlock: five engine calls
    assert_eq!(engine.calls(), calls_before + 5);
}
