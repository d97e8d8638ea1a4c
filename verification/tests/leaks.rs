use raw_memory::memory::{alloc_garbage, leak, leak_ref};

#[test]
fn leaked_reference_reads_back_the_value() {
    let r = leak_ref(42u32);
    assert_eq!(*r, 42);
}

#[test]
fn leaked_reference_keeps_an_owned_value() {
    let r = leak_ref(String::from("never freed"));
    assert_eq!(r.as_str(), "never freed");
    assert_eq!(r.len(), 11);
}

#[test]
fn leaked_reference_can_be_written_through() {
    let r = leak_ref(vec![1u8, 2, 3]);
    r.push(4);
    assert_eq!(*r, vec![1u8, 2, 3, 4]);
}

#[test]
fn leaked_references_do_not_share_storage() {
    let a = leak_ref(1u64);
    let b = leak_ref(2u64);
    *a = 10;
    assert_eq!(*a, 10);
    assert_eq!(*b, 2);
}

#[test]
fn leaked_address_is_not_null_and_aligned() {
    let addr = leak(42u64);
    assert_ne!(addr, 0);
    assert_eq!(addr % std::mem::align_of::<u64>(), 0);
}

#[test]
fn leaked_addresses_are_distinct() {
    let a = leak(1u32);
    let b = leak(1u32);
    assert_ne!(a, b);
}

#[test]
fn leaking_a_zero_sized_value_gives_an_address() {
    let addr = leak(());
    assert_ne!(addr, 0);
}

#[test]
fn unwritten_storage_is_not_null_and_aligned() {
    let addr = alloc_garbage::<u64>();
    assert_ne!(addr, 0);
    assert_eq!(addr % std::mem::align_of::<u64>(), 0);
}

#[test]
fn unwritten_storage_is_aligned_for_a_wide_type() {
    let addr = alloc_garbage::<u128>();
    assert_ne!(addr, 0);
    assert_eq!(addr % std::mem::align_of::<u128>(), 0);
}

#[test]
fn two_reservations_are_distinct() {
    let a = alloc_garbage::<[u8; 64]>();
    let b = alloc_garbage::<[u8; 64]>();
    assert_ne!(a, b);
    let gap = if a < b { b - a } else { a - b };
    assert!(gap >= 64);
}
