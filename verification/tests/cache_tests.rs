use query_cache::Key;
use query_cache::Query;
use query_cache::QueryCache;
use query_cache::QueryKey;
use query_cache::TypeNameCache;
use query_cache::VecCache;

const TAG_STRING: u64 = 1;
const TAG_I32: u64 = 2;
const TAG_VEC_U32: u64 = 3;

fn key_of(name: &str, ty: u64) -> QueryKey {
    QueryKey::of(Key::new(name.to_string()), ty)
}

fn entry_of(ty: u64) -> Query {
    Query::new(ty, None, None, None)
}

#[test]
fn vec_cache_test() {
    let mut cache = VecCache::new();

    cache.set(key_of("color", TAG_STRING), entry_of(TAG_STRING));
    cache.set(key_of("fruit", TAG_STRING), entry_of(TAG_STRING));
    cache.set(key_of("number", TAG_I32), entry_of(TAG_I32));

    assert!(cache.has(&key_of("color", TAG_STRING)));
    assert!(cache.has(&key_of("fruit", TAG_STRING)));
    assert!(!cache.has(&key_of("number", TAG_STRING)));

    assert!(cache.get(&key_of("color", TAG_STRING)).is_some());
    assert!(cache.get(&key_of("fruit", TAG_STRING)).is_some());
    assert!(cache.get(&key_of("number", TAG_I32)).is_some());
    assert!(cache.get(&key_of("number", TAG_VEC_U32)).is_none());

    cache.set(key_of("number", TAG_VEC_U32), entry_of(TAG_VEC_U32));

    assert!(cache.get(&key_of("color", TAG_STRING)).is_some());
    assert!(cache.get(&key_of("fruit", TAG_STRING)).is_some());
    assert!(cache.get(&key_of("number", TAG_I32)).is_some());
    assert!(cache.get(&key_of("number", TAG_VEC_U32)).is_some());

    cache.remove(&key_of("number", TAG_I32));
    assert!(cache.get(&key_of("number", TAG_I32)).is_none());

    cache.clear();

    assert!(cache.get(&key_of("color", TAG_STRING)).is_none());
    assert!(cache.get(&key_of("fruit", TAG_STRING)).is_none());
    assert!(cache.get(&key_of("number", TAG_I32)).is_none());
    assert!(cache.get(&key_of("number", TAG_VEC_U32)).is_none());
}

#[test]
fn vec_cache_replaces_entries() {
    let mut cache = VecCache::new();
    let key = key_of("color", TAG_STRING);

    cache.set(key.clone(), entry_of(TAG_STRING));
    let with_ttl = Query::new(TAG_STRING, None, Some(100), None);
    cache.set(key.clone(), with_ttl);

    let stored = cache.get(&key).expect("entry");
    assert_eq!(stored.cache_time, Some(100));

    let removed = cache.remove(&key).expect("entry");
    assert_eq!(removed.cache_time, Some(100));
    assert!(!cache.has(&key));
}

#[test]
fn query_key_components_test() {
    let key = key_of("sword", TAG_STRING);
    assert!(key.is_type(TAG_STRING));
    assert!(!key.is_type(TAG_I32));
    assert_eq!(key.type_id(), TAG_STRING);
    assert_eq!(key.key().name().as_str(), "sword");
    assert_eq!(key.clone(), key);
    assert_ne!(key_of("sword", TAG_STRING), key_of("sword", TAG_I32));
    assert_ne!(key_of("sword", TAG_STRING), key_of("shield", TAG_STRING));
}

#[test]
fn type_name_cache_test() {
    let mut names = TypeNameCache::new();
    assert!(names.get(TAG_STRING).is_none());

    names.register(TAG_STRING, "String".to_string());
    names.register(TAG_I32, "i32".to_string());
    assert_eq!(names.get(TAG_STRING).map(|s| s.as_str()), Some("String"));
    assert_eq!(names.get(TAG_I32).map(|s| s.as_str()), Some("i32"));

    names.register(TAG_STRING, "Text".to_string());
    assert_eq!(names.get(TAG_STRING).map(|s| s.as_str()), Some("Text"));
    assert_eq!(names.get(TAG_I32).map(|s| s.as_str()), Some("i32"));
    assert!(names.get(TAG_VEC_U32).is_none());
}
