use andromeda::inject::ErasedStorage;

struct Foo;

trait MyTrait {
    fn call(&self);
}

impl MyTrait for Foo {
    fn call(&self) {
        assert!(true);
    }
}

#[test]
fn put_static() {
    let mut registry = ErasedStorage::new();
    registry.put(Foo);
    assert!(registry.get::<Foo>().is_some());
}

#[test]
fn put_dyn() {
    let mut registry = ErasedStorage::new();
    registry.put_dyn::<dyn MyTrait>(Box::new(Foo));
    assert!(registry.get_dyn::<dyn MyTrait>().is_some());
}

struct Counter(u32);

#[test]
fn missing_types_are_not_found() {
    let mut registry = ErasedStorage::new();
    assert!(registry.get::<Foo>().is_none());
    registry.put(Counter(1));
    assert!(registry.get::<Foo>().is_none());
    assert!(registry.get_dyn::<dyn MyTrait>().is_none());
    assert_eq!(registry.get::<Counter>().map(|c| c.0), Some(1));
}

#[test]
fn put_replaces_and_get_mut_changes() {
    let mut registry = ErasedStorage::new();
    registry.put(Counter(1));
    registry.put(Counter(2));
    assert_eq!(registry.get::<Counter>().unwrap().0, 2);
    registry.get_mut::<Counter>().unwrap().0 = 5;
    assert_eq!(registry.get::<Counter>().unwrap().0, 5);
    registry.put(7u64);
    assert_eq!(registry.get::<u64>(), Some(&7));
    assert_eq!(registry.get::<Counter>().unwrap().0, 5);
}

#[test]
fn synchronized_objects() {
    let mut registry = ErasedStorage::new();
    registry.put_sync(Counter(3));
    assert!(registry.get::<Counter>().is_none());
    registry.write_sync::<Counter>().unwrap().0 += 1;
    assert_eq!(registry.read_sync::<Counter>().unwrap().0, 4);
    assert!(registry.read_sync::<Foo>().is_none());
}

#[test]
fn dyn_objects_are_separate() {
    let mut registry = ErasedStorage::new();
    registry.put_dyn::<dyn MyTrait>(Box::new(Foo));
    assert!(registry.get::<Foo>().is_none());
    registry.get_dyn::<dyn MyTrait>().unwrap().call();
    assert!(registry.get_dyn_mut::<dyn MyTrait>().is_some());
}

#[test]
fn di_shares_one_registry() {
    let di = andromeda::inject::DI::new();
    let other = di.clone();
    di.write().unwrap().put(Counter(9));
    assert_eq!(other.read().unwrap().get::<Counter>().unwrap().0, 9);
    assert!(andromeda::inject::DI::default().read().unwrap().get::<Counter>().is_none());
}
