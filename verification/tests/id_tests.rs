use ahash::AHasher;
use core::hash::{Hash, Hasher};
use runtime_id::{IdentifierAllocator, RuntimeID};

#[test]
fn basic() {
    let mut alloc = IdentifierAllocator::new();
    let id_0 = RuntimeID::new(&mut alloc);
    let id_0_copy = id_0;
    let id_1 = RuntimeID::new(&mut alloc);

    assert_ne!(id_0, id_1);
    assert_eq!(id_0, id_0);
    assert_eq!(id_0, id_0_copy);
}

#[test]
fn hash() {
    let mut alloc = IdentifierAllocator::new();
    let mut hasher = AHasher::default();
    RuntimeID::new(&mut alloc).hash(&mut hasher);
    let test_hash = hasher.finish();

    let iterations: usize = 100000;
    for _ in 0..iterations {
        let mut hasher = AHasher::default();
        RuntimeID::new(&mut alloc).hash(&mut hasher);
        let hash = hasher.finish();
        assert_ne!(hash, test_hash);
    }
}
