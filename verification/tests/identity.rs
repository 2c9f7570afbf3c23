use hash_by_ref::HashByRef;
use std::collections::hash_map::DefaultHasher;
use std::collections::HashMap;
use std::hash::{Hash, Hasher};
use std::rc::Rc;

fn calculate_hash<T: Hash>(t: &T) -> u64 {
    let mut s = DefaultHasher::new();
    t.hash(&mut s);
    s.finish()
}

#[test]
fn test_hash_by_ref() {
    let r1 = Rc::new(1);
    let r2 = Rc::new(1);
    let r3 = r1.clone();
    let mut h = HashMap::new();
    h.insert(HashByRef::new(r1.clone()), 1);
    h.insert(HashByRef::new(r2.clone()), 2);
    assert_eq!(h[&HashByRef::new(r1.clone())], 1);
    assert_eq!(h[&HashByRef::new(r2.clone())], 2);
    assert_eq!(h[&HashByRef::new(r3.clone())], 1);
}

#[test]
fn test_mem_leak() {
    // hashing borrows the allocation's identity without leaving an extra
    // reference behind
    let r1 = Rc::new(1);
    {
        let mut h = HashMap::new();
        h.insert(HashByRef::new(r1.clone()), 1);
        assert_eq!(h[&HashByRef::new(r1.clone())], 1);
    }
    assert_eq!(Rc::strong_count(&r1), 1);
    assert_eq!(Rc::weak_count(&r1), 0);
}

#[test]
fn test_hash() {
    let r1 = Rc::new(1);
    let r2 = Rc::new(1);
    // the assertion below might seldomly fail since two hashes might just
    // turn out to be the same
    assert_ne!(
        calculate_hash(&HashByRef::new(r1.clone())),
        calculate_hash(&HashByRef::new(r2.clone()))
    );
    // however this assertion must not fail
    assert_eq!(
        calculate_hash(&HashByRef::new(r1.clone())),
        calculate_hash(&HashByRef::new(r1.clone()))
    );
}

#[test]
fn test_eq() {
    let r1 = Rc::new(1);
    let r2 = Rc::new(1);
    assert_ne!(HashByRef::new(r1.clone()), HashByRef::new(r2.clone()));
    assert_eq!(HashByRef::new(r1.clone()), HashByRef::new(r1.clone()));
}
