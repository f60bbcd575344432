use sctk_bridge::ids::{Id, ObjectId};
use sctk_bridge::registry::{Registry, RegistryError};

#[test]
fn register_then_resolve() {
    let mut r = Registry::new();
    assert_eq!(r.register(ObjectId(10), Id(1)), Ok(()));
    assert_eq!(r.resolve(ObjectId(10)), Some(Id(1)));
    assert_eq!(r.resolve(ObjectId(11)), None);
}

#[test]
fn register_twice_is_a_collision() {
    let mut r = Registry::new();
    assert_eq!(r.register(ObjectId(10), Id(1)), Ok(()));
    assert_eq!(r.register(ObjectId(10), Id(2)), Err(RegistryError::Collision));
    // The collision did not overwrite the live mapping.
    assert_eq!(r.resolve(ObjectId(10)), Some(Id(1)));
}

#[test]
fn resolve_is_stable_until_forget() {
    let mut r = Registry::new();
    assert_eq!(r.register(ObjectId(10), Id(1)), Ok(()));
    assert_eq!(r.register(ObjectId(20), Id(2)), Ok(()));
    let _ = r.forget(ObjectId(20));
    // Unrelated traffic leaves the mapping alone.
    assert_eq!(r.resolve(ObjectId(10)), Some(Id(1)));
}

#[test]
fn forget_then_reuse_gives_the_new_id() {
    let mut r = Registry::new();
    assert_eq!(r.register(ObjectId(10), Id(1)), Ok(()));
    assert_eq!(r.forget(ObjectId(10)), Some(Id(1)));
    assert_eq!(r.resolve(ObjectId(10)), None);
    // The protocol reused the identity for a different surface.
    assert_eq!(r.register(ObjectId(10), Id(9)), Ok(()));
    assert_eq!(r.resolve(ObjectId(10)), Some(Id(9)));
}

#[test]
fn forget_unknown_returns_nothing() {
    let mut r = Registry::new();
    assert_eq!(r.forget(ObjectId(10)), None);
}
