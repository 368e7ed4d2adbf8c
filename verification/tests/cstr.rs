use atomic_static_ref::atomic_static_cstr::AtomicStaticCStr;
use atomic_static_ref::cstr_value::CStrValue;
use atomic_static_ref::ordering::MemoryOrdering;

fn cstr(bytes: &[u8]) -> CStrValue {
    CStrValue::from_bytes_with_nul(bytes.to_vec()).unwrap()
}

#[test]
fn test_atomic_cstr() {
    let hello = cstr(b"Hello, world!\0");
    let new = cstr(b"New string!\0");

    let mut atomic_static_cstr = AtomicStaticCStr::new(hello);

    let old_value = atomic_static_cstr.swap(new, MemoryOrdering::Relaxed);
    assert_eq!(old_value.as_bytes_with_nul().as_slice(), b"Hello, world!\0");

    let current_value = atomic_static_cstr.load(MemoryOrdering::Relaxed);
    assert_eq!(current_value.as_bytes_with_nul().as_slice(), b"New string!\0");
}

#[test]
fn from_bytes_with_nul_accepts_well_formed_bytes() {
    let value = CStrValue::from_bytes_with_nul(b"abc\0".to_vec()).unwrap();
    assert_eq!(value.as_bytes_with_nul().as_slice(), b"abc\0");

    let empty_text = CStrValue::from_bytes_with_nul(b"\0".to_vec()).unwrap();
    assert_eq!(empty_text.as_bytes_with_nul().as_slice(), b"\0");
}

#[test]
fn from_bytes_with_nul_rejects_empty_bytes() {
    assert!(CStrValue::from_bytes_with_nul(Vec::new()).is_none());
}

#[test]
fn from_bytes_with_nul_rejects_missing_terminator() {
    assert!(CStrValue::from_bytes_with_nul(b"abc".to_vec()).is_none());
}

#[test]
fn from_bytes_with_nul_rejects_interior_nul() {
    assert!(CStrValue::from_bytes_with_nul(b"ab\0c\0".to_vec()).is_none());
}

#[test]
fn store_discards_previous_string() {
    let mut holder = AtomicStaticCStr::new(cstr(b"first\0"));
    holder.store(cstr(b"second\0"), MemoryOrdering::Release);
    let current = holder.load(MemoryOrdering::Acquire);
    assert_eq!(current.as_bytes_with_nul().as_slice(), b"second\0");
}

#[test]
fn result_is_the_same_under_every_ordering() {
    let orderings = [
        MemoryOrdering::Relaxed,
        MemoryOrdering::Acquire,
        MemoryOrdering::Release,
        MemoryOrdering::AcqRel,
        MemoryOrdering::SeqCst,
    ];
    for ordering in orderings {
        let mut holder = AtomicStaticCStr::new(cstr(b"a\0"));
        let previous = holder.swap(cstr(b"b\0"), ordering);
        assert_eq!(previous.as_bytes_with_nul().as_slice(), b"a\0");
        assert_eq!(
            holder.load(MemoryOrdering::SeqCst).as_bytes_with_nul().as_slice(),
            b"b\0"
        );
    }
}
