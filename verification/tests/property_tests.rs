use runtime_id::{IdentifierAllocator, RuntimeID};
use std::collections::hash_map::DefaultHasher;
use std::collections::HashSet;
use std::hash::Hasher;

#[test]
fn uniqueness_stress() {
    let mut alloc = IdentifierAllocator::new();
    let ids = alloc.allocate_many(10000);
    assert_eq!(ids.len(), 10000);
    let mut seen: HashSet<RuntimeID> = HashSet::new();
    for id in ids.iter() {
        seen.insert(*id);
    }
    assert_eq!(seen.len(), 10000);
}

#[test]
fn allocate_and_new_share_counter() {
    let mut alloc = IdentifierAllocator::new();
    let a = alloc.allocate();
    let b = RuntimeID::new(&mut alloc);
    assert_ne!(a, b);
}

#[test]
fn equality_after_copy_and_clone() {
    let mut alloc = IdentifierAllocator::new();
    let a = RuntimeID::new(&mut alloc);
    let copied = a;
    let cloned = a.clone();
    assert_eq!(a, copied);
    assert_eq!(a, cloned);
    assert_eq!(cloned, a);
}

#[test]
fn digest_consistent() {
    let mut alloc = IdentifierAllocator::new();
    let id = RuntimeID::new(&mut alloc);
    assert_eq!(id.digest(), id.digest());

    let mut h1 = DefaultHasher::new();
    let mut h2 = DefaultHasher::new();
    id.hash_into(&mut h1);
    id.hash_into(&mut h2);
    assert_eq!(h1.finish(), h2.finish());
}

#[test]
fn digest_matches_byte_encoding() {
    let mut alloc = IdentifierAllocator::new();
    let first = RuntimeID::new(&mut alloc);
    let second = RuntimeID::new(&mut alloc);

    let mut h = DefaultHasher::new();
    h.write(&[0, 0, 0, 0, 0, 0, 0, 0]);
    assert_eq!(first.digest(), h.finish());

    let mut h = DefaultHasher::new();
    h.write(&[1, 0, 0, 0, 0, 0, 0, 0]);
    assert_eq!(second.digest(), h.finish());
}

#[test]
fn digest_discriminates() {
    let mut alloc = IdentifierAllocator::new();
    let reference = RuntimeID::new(&mut alloc).digest();
    let iterations: usize = 100000;
    for _ in 0..iterations {
        assert_ne!(RuntimeID::new(&mut alloc).digest(), reference);
    }
}

#[test]
fn fresh_allocator_has_capacity() {
    let alloc = IdentifierAllocator::new();
    assert!(alloc.has_capacity());
}
