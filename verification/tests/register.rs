use atomic_static_ref::holder::AtomicStaticRef;
use atomic_static_ref::ordering::MemoryOrdering;
use atomic_static_ref::slot::{decode, decode_ref, encode, Slot};

#[test]
fn new_load_store_swap_on_the_core_register() {
    let mut register: AtomicStaticRef<u32> = AtomicStaticRef::new(1);
    assert_eq!(*register.load(MemoryOrdering::Relaxed), 1);

    register.store(2, MemoryOrdering::Relaxed);
    assert_eq!(*register.load(MemoryOrdering::Relaxed), 2);

    let previous = register.swap(3, MemoryOrdering::Relaxed);
    assert_eq!(previous, 2);
    assert_eq!(*register.load(MemoryOrdering::Relaxed), 3);
}

#[test]
fn every_swap_hands_back_the_previous_word_exactly_once() {
    let mut register: AtomicStaticRef<u32> = AtomicStaticRef::new(10);
    let mut returned = vec![
        register.swap(20, MemoryOrdering::SeqCst),
        register.swap(30, MemoryOrdering::SeqCst),
        register.swap(40, MemoryOrdering::SeqCst),
    ];
    returned.push(*register.load(MemoryOrdering::SeqCst));
    returned.sort();
    assert_eq!(returned, vec![10, 20, 30, 40]);
}

#[test]
fn a_load_after_a_store_observes_that_store() {
    let mut register: AtomicStaticRef<u32> = AtomicStaticRef::new(5);
    register.store(6, MemoryOrdering::Release);
    assert_eq!(*register.load(MemoryOrdering::Acquire), 6);
    register.store(7, MemoryOrdering::SeqCst);
    register.store(8, MemoryOrdering::SeqCst);
    assert_eq!(*register.load(MemoryOrdering::SeqCst), 8);
}

#[test]
fn encoding_round_trips_and_keeps_the_sentinel_apart() {
    assert!(matches!(encode(Some(5u32)), Slot::Present(5)));
    assert!(matches!(encode(None::<u32>), Slot::Absent));

    assert_eq!(decode(encode(Some(5u32))), Some(5));
    assert_eq!(decode(encode(None::<u32>)), None);

    let present = encode(Some(0u32));
    assert!(decode_ref(&present).is_some());
    let absent = encode(None::<u32>);
    assert!(decode_ref(&absent).is_none());
}
