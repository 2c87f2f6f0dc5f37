use audiocore::engine::Engine;
use audiocore::engine::ResourceKind;
use audiocore::errors::CODE_ALREADY_LOCKED;
use audiocore::errors::CODE_INVALID_HANDLE;
use audiocore::errors::CODE_NOT_FOUND;
use audiocore::errors::CODE_OUT_OF_RANGE;
use audiocore::errors::CODE_WRONG_KIND;
use audiocore::errors::HandleError;
use audiocore::handle::Ownership;
use audiocore::handle::ResourceHandle;

fn sound(engine: &mut Engine, pcm: Vec<u8>) -> ResourceHandle {
    ResourceHandle::acquire(engine, ResourceKind::Sound, 2, 16, 44100, pcm)
}

#[test]
fn acquire_yields_live_owning_handle() {
    let mut engine = Engine::new();
    let h = sound(&mut engine, vec![1, 2, 3, 4]);
    assert_eq!(h.ownership(), Ownership::Owning);
    assert!(!h.is_released());
    assert!(!h.is_locked());
    assert!(engine.is_live(h.id()));
    assert_eq!(engine.release_calls_of(h.id()), 0);
}

#[test]
fn release_once_reaches_engine_once() {
    let mut engine = Engine::new();
    let mut h = sound(&mut engine, vec![1, 2, 3, 4]);
    let id = h.id();
    assert_eq!(h.release(&mut engine), Ok(()));
    assert!(h.is_released());
    assert!(!engine.is_live(id));
    assert_eq!(engine.release_calls_of(id), 1);
}

#[test]
fn release_twice_only_first_reaches_engine() {
    let mut engine = Engine::new();
    let mut h = sound(&mut engine, vec![1, 2, 3, 4]);
    let id = h.id();
    assert_eq!(h.release(&mut engine), Ok(()));
    let calls_after_first = engine.calls();
    assert_eq!(h.release(&mut engine), Ok(()));
    assert_eq!(engine.release_calls_of(id), 1);
    assert_eq!(engine.calls(), calls_after_first);
}

#[test]
fn borrowed_handle_never_releases() {
    let mut engine = Engine::new();
    let owner = sound(&mut engine, vec![1, 2, 3, 4]);
    let mut borrowed = ResourceHandle::borrow(owner.id());
    assert_eq!(borrowed.ownership(), Ownership::Borrowed);
    let calls_before = engine.calls();
    assert_eq!(borrowed.release(&mut engine), Ok(()));
    assert_eq!(borrowed.release(&mut engine), Ok(()));
    assert_eq!(engine.calls(), calls_before);
    assert_eq!(engine.release_calls_of(owner.id()), 0);
    assert!(engine.is_live(owner.id()));
}

#[test]
fn use_after_release_is_refused_without_engine_call() {
    let mut engine = Engine::new();
    let mut h = sound(&mut engine, vec![1, 2, 3, 4]);
    h.release(&mut engine).unwrap();
    let calls_before = engine.calls();
    assert_eq!(h.get_format(&mut engine), Err(HandleError::UseAfterRelease));
    assert_eq!(h.get_default_rate(&mut engine), Err(HandleError::UseAfterRelease));
    assert_eq!(h.get_length(&mut engine), Err(HandleError::UseAfterRelease));
    assert!(matches!(h.lock(&mut engine, 0, 1), Err(HandleError::UseAfterRelease)));
    assert!(matches!(h.get_related(&mut engine), Err(HandleError::UseAfterRelease)));
    assert_eq!(engine.calls(), calls_before);
}

#[test]
fn accessors_forward_the_recorded_format() {
    let mut engine = Engine::new();
    let h = sound(&mut engine, vec![1, 2, 3, 4, 5, 6]);
    assert_eq!(h.get_format(&mut engine), Ok((2, 16)));
    assert_eq!(h.get_default_rate(&mut engine), Ok(44100));
    assert_eq!(h.get_length(&mut engine), Ok(6));
}

#[test]
fn lock_hands_out_the_requested_range() {
    let mut engine = Engine::new();
    let mut h = sound(&mut engine, vec![10, 11, 12, 13, 14, 15]);
    let region = h.lock(&mut engine, 2, 3).unwrap();
    assert_eq!(region.region_a, vec![12, 13, 14]);
    assert!(region.region_b.is_empty());
    assert!(h.is_locked());
    assert_eq!(h.unlock(&mut engine, region), Ok(()));
    assert!(!h.is_locked());
}

#[test]
fn second_lock_before_unlock_is_refused_locally() {
    let mut engine = Engine::new();
    let mut h = sound(&mut engine, vec![1, 2, 3, 4]);
    let region = h.lock(&mut engine, 0, 4).unwrap();
    let calls_before = engine.calls();
    assert!(matches!(h.lock(&mut engine, 0, 1), Err(HandleError::LockState)));
    assert_eq!(engine.calls(), calls_before);
    h.unlock(&mut engine, region).unwrap();
}

#[test]
fn unlock_without_lock_is_refused_locally() {
    let mut engine = Engine::new();
    let mut h = sound(&mut engine, vec![1, 2, 3, 4]);
    let calls_before = engine.calls();
    let region = audiocore::handle::PcmLockRegion { region_a: Vec::new(), region_b: Vec::new() };
    assert_eq!(h.unlock(&mut engine, region), Err(HandleError::LockState));
    assert_eq!(engine.calls(), calls_before);
}

#[test]
fn release_while_locked_is_refused() {
    let mut engine = Engine::new();
    let mut h = sound(&mut engine, vec![1, 2, 3, 4]);
    let id = h.id();
    let region = h.lock(&mut engine, 0, 4).unwrap();
    assert_eq!(h.release(&mut engine), Err(HandleError::LockState));
    assert!(!h.is_released());
    assert!(engine.is_live(id));
    assert_eq!(engine.release_calls_of(id), 0);
    h.unlock(&mut engine, region).unwrap();
    assert_eq!(h.release(&mut engine), Ok(()));
    assert_eq!(engine.release_calls_of(id), 1);
}

#[test]
fn lock_past_the_end_is_an_engine_error() {
    let mut engine = Engine::new();
    let mut h = sound(&mut engine, vec![1, 2, 3, 4]);
    assert!(matches!(
        h.lock(&mut engine, 2, 3),
        Err(HandleError::Engine(code)) if code == CODE_OUT_OF_RANGE
    ));
    assert!(!h.is_locked());
}

#[test]
fn lock_already_locked_elsewhere_is_an_engine_error() {
    let mut engine = Engine::new();
    let mut owner = sound(&mut engine, vec![1, 2, 3, 4]);
    let mut other = ResourceHandle::borrow(owner.id());
    let region = owner.lock(&mut engine, 0, 4).unwrap();
    assert!(matches!(
        other.lock(&mut engine, 0, 1),
        Err(HandleError::Engine(code)) if code == CODE_ALREADY_LOCKED
    ));
    owner.unlock(&mut engine, region).unwrap();
}

#[test]
fn dead_resource_through_a_second_handle_is_an_engine_error() {
    let mut engine = Engine::new();
    let mut owner = sound(&mut engine, vec![1, 2, 3, 4]);
    let borrowed = ResourceHandle::borrow(owner.id());
    owner.release(&mut engine).unwrap();
    assert!(matches!(
        borrowed.get_format(&mut engine),
        Err(HandleError::Engine(code)) if code == CODE_INVALID_HANDLE
    ));
}

#[test]
fn format_query_on_wrong_kind_is_an_engine_error() {
    let mut engine = Engine::new();
    let h = ResourceHandle::acquire(&mut engine, ResourceKind::Channel, 0, 0, 0, Vec::new());
    assert!(matches!(
        h.get_format(&mut engine),
        Err(HandleError::Engine(code)) if code == CODE_WRONG_KIND
    ));
}

#[test]
fn traversal_yields_a_borrowed_handle() {
    let mut engine = Engine::new();
    let channel = ResourceHandle::acquire(&mut engine, ResourceKind::Channel, 0, 0, 0, Vec::new());
    let current = sound(&mut engine, vec![9, 9]);
    engine.set_related(channel.id(), current.id());
    let related = channel.get_related(&mut engine).unwrap();
    assert_eq!(related.id(), current.id());
    assert_eq!(related.ownership(), Ownership::Borrowed);
    assert_eq!(related.get_length(&mut engine), Ok(2));
}

#[test]
fn traversal_without_relation_is_an_engine_error() {
    let mut engine = Engine::new();
    let h = sound(&mut engine, vec![1]);
    assert!(matches!(
        h.get_related(&mut engine),
        Err(HandleError::Engine(code)) if code == CODE_NOT_FOUND
    ));
}

#[test]
fn paired_locks_across_a_session() {
    let mut engine = Engine::new();
    let mut h = sound(&mut engine, vec![1, 2, 3, 4]);
    let id = h.id();
    let first = h.lock(&mut engine, 0, 2).unwrap();
    h.unlock(&mut engine, first).unwrap();
    let second = h.lock(&mut engine, 1, 3).unwrap();
    assert_eq!(second.region_a, vec![2, 3, 4]);
    h.unlock(&mut engine, second).unwrap();
    assert_eq!(h.release(&mut engine), Ok(()));
    assert_eq!(engine.release_calls_of(id), 1);
}

#[test]
fn every_forwarded_call_is_recorded() {
    let mut engine = Engine::new();
    let h = sound(&mut engine, vec![1, 2]);
    let calls_before = engine.calls();
    h.get_format(&mut engine).unwrap();
    h.get_default_rate(&mut engine).unwrap();
    h.get_length(&mut engine).unwrap();
    assert_eq!(engine.calls(), calls_before + 3);
}
