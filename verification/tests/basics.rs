use arc_cow::ArcCow;
use std::borrow::Cow;
use std::collections::hash_map::DefaultHasher;
use std::collections::HashMap;
use std::hash::Hash;
use std::hash::Hasher;
use std::sync::atomic::AtomicI32;
use std::sync::atomic::Ordering as AtomicOrdering;
use std::sync::Arc;

fn calculate_hash<T: Hash>(value: &T) -> u64 {
    let mut hasher = DefaultHasher::new();
    value.hash(&mut hasher);
    hasher.finish()
}

fn assert_send<T: Send>() {}

fn assert_sync<T: Sync>() {}

/// An integer that can be changed through a shared handle.
struct SharedInt(AtomicI32);

impl SharedInt {
    fn get(&self) -> i32 {
        self.0.load(AtomicOrdering::SeqCst)
    }

    fn set(&self, value: i32) {
        self.0.store(value, AtomicOrdering::SeqCst)
    }
}

impl PartialEq for SharedInt {
    fn eq(&self, other: &Self) -> bool {
        self.get() == other.get()
    }
}

impl std::fmt::Debug for SharedInt {
    fn fmt(&self, f: &mut std::fmt::Formatter<'_>) -> std::fmt::Result {
        std::fmt::Debug::fmt(&self.get(), f)
    }
}

#[test]
fn test_creation_from_reference() {
    let value = 42;
    let arc_cow = ArcCow::from(&value);
    assert!(matches!(arc_cow, ArcCow::Borrowed(_)));
    assert_eq!(*arc_cow, 42);
}

#[test]
fn test_creation_from_arc() {
    let value = Arc::new("Hello".to_string());
    let arc_cow = ArcCow::from(value.clone());
    assert!(matches!(arc_cow, ArcCow::Owned(_)));
    assert_eq!(arc_cow.as_ref(), "Hello");
}

#[test]
fn test_clone_borrowed() {
    let value = "borrowed";
    let arc_cow1: ArcCow<'static, str> = ArcCow::from(value);
    let arc_cow2 = arc_cow1.clone();

    assert!(matches!(arc_cow1, ArcCow::Borrowed(_)));
    assert!(matches!(arc_cow2, ArcCow::Borrowed(_)));
    assert_eq!(arc_cow1, arc_cow2);
}

#[test]
fn test_clone_owned() {
    let arc_cow1 = ArcCow::from(Arc::new(SharedInt(AtomicI32::new(100))));
    let arc_cow2 = arc_cow1.clone();

    assert!(matches!(arc_cow1, ArcCow::Owned(_)));
    assert!(matches!(arc_cow2, ArcCow::Owned(_)));
    assert_eq!(arc_cow1, arc_cow2);

    // A change made through one value is seen through its clone: both lead
    // to one allocation.
    if let ArcCow::Owned(arc) = &arc_cow1 {
        arc.set(200);
    }
    assert_eq!(arc_cow1, arc_cow2);
    assert_eq!(arc_cow2.get(), 200);
}

#[test]
fn test_comparison() {
    let borrowed1 = ArcCow::from("abc");
    let borrowed2 = ArcCow::from("abc");
    let owned1 = ArcCow::from("abc".to_string());
    let different = ArcCow::from("def");

    assert_eq!(borrowed1, borrowed2);
    assert_eq!(borrowed1, owned1);

    assert_ne!(borrowed1, different);

    assert!(borrowed1 < different);
    assert!(borrowed1 <= owned1);
    assert!(different > owned1);
}

#[test]
fn test_hashing() {
    let borrowed_str: ArcCow<'static, str> = ArcCow::from("test");
    let owned_str = ArcCow::from("test".to_string());
    let different: ArcCow<'static, str> = ArcCow::from("different");

    assert_eq!(calculate_hash(&borrowed_str), calculate_hash(&owned_str));

    assert_ne!(calculate_hash(&borrowed_str), calculate_hash(&different));
}

#[test]
fn test_cow_conversion() {
    let borrowed_cow = Cow::Borrowed("borrowed");
    let owned_cow: Cow<'static, str> = Cow::Owned("owned".to_string());

    let borrowed_arc_cow: ArcCow<'_, str> = borrowed_cow.into();
    let owned_arc_cow: ArcCow<'_, str> = owned_cow.into();

    assert!(matches!(borrowed_arc_cow, ArcCow::Borrowed(_)));
    assert!(matches!(owned_arc_cow, ArcCow::Owned(_)));
    assert_eq!(borrowed_arc_cow.as_ref(), "borrowed");
    assert_eq!(owned_arc_cow.as_ref(), "owned");
}

#[test]
fn test_collection_handling() {
    let mut map = HashMap::new();

    map.insert(ArcCow::from("key1"), 1);
    map.insert(ArcCow::from("key2".to_string()), 2);

    assert_eq!(map.get(&ArcCow::from("key1")), Some(&1));
    assert_eq!(map.get(&ArcCow::from("key2")), Some(&2));

    assert_eq!(map.get(&ArcCow::from("key4")), None);
}

#[test]
fn test_slice_conversions() {
    let vec = vec![1, 2, 3];
    let slice: ArcCow<'_, [i32]> = vec.into();
    assert_eq!(&*slice, &[1, 2, 3]);

    let bytes: ArcCow<'_, [u8]> = "text".into();
    assert_eq!(&*bytes, b"text");
}

#[test]
fn test_debug_output() {
    let borrowed: ArcCow<'_, str> = "debug".into();
    let owned: ArcCow<'_, str> = "output".to_string().into();

    assert_eq!(format!("{:?}", borrowed), "\"debug\"");
    assert_eq!(format!("{:?}", owned), "\"output\"");
}

#[test]
fn test_deref_and_as_ref() {
    let borrowed: ArcCow<'static, i32> = ArcCow::from(&42);
    let owned = ArcCow::from(Arc::new(100));

    assert_eq!(*borrowed, 42);
    assert_eq!(*owned, 100);

    let ref_borrowed: &i32 = borrowed.as_ref();
    let ref_owned: &i32 = owned.as_ref();
    assert_eq!(*ref_borrowed, 42);
    assert_eq!(*ref_owned, 100);
}

#[test]
fn test_send_sync() {
    assert_send::<ArcCow<'static, str>>();
    assert_sync::<ArcCow<'static, str>>();
}
