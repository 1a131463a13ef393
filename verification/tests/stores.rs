use classified::classified_map::ClassifiedMap;
use classified::data_repository::DataRepository;
use classified::key_manager::KeyManager;

#[test]
fn inserts_and_retrieves_value() {
    let mut map = ClassifiedMap::new();
    let key = "api_key".to_string();
    let value = b"super_secret".to_vec();

    map.insert(key.clone(), value.clone());
    let retrieved = map.get(&key).unwrap();
    assert_eq!(retrieved.expose(), &value);
}

#[test]
fn removes_value() {
    let mut map = ClassifiedMap::new();
    let key = "token".to_string();
    let value = b"abc123".to_vec();

    map.insert(key.clone(), value);
    assert!(map.get(&key).is_some());

    map.remove(&key);
    assert!(map.get(&key).is_none());
}

#[test]
fn lists_all_keys() {
    let mut map = ClassifiedMap::new();
    map.insert("one".to_string(), b"1".to_vec());
    map.insert("two".to_string(), b"2".to_vec());

    let keys = map.keys();
    assert!(keys.contains(&"one".to_string()));
    assert!(keys.contains(&"two".to_string()));
    assert_eq!(keys.len(), 2);
}

#[test]
fn lists_all_values() {
    let mut map = ClassifiedMap::new();
    map.insert("a".to_string(), b"alpha".to_vec());
    map.insert("b".to_string(), b"beta".to_vec());

    let values = map.values();
    let rendered: Vec<&[u8]> = values.iter().map(|v| v.expose().as_slice()).collect();
    assert!(rendered.contains(&b"alpha".as_slice()));
    assert!(rendered.contains(&b"beta".as_slice()));
    assert_eq!(values.len(), 2);
}

#[test]
fn overwrite_existing_key() {
    let mut map = ClassifiedMap::new();
    let key = "id".to_string();
    map.insert(key.clone(), b"v1".to_vec());
    map.insert(key.clone(), b"v2".to_vec());

    let value = map.get(&key).unwrap();
    assert_eq!(value.expose().as_slice(), b"v2");
    assert_eq!(map.len(), 1);
}

#[test]
fn accepts_key_of_declared_length() {
    let mut manager = KeyManager::without_rotation();
    assert!(manager.accept_key("k1", 32, vec![7u8; 32]).is_ok());
    let stored = manager.get_key("k1").unwrap();
    assert_eq!(stored.expose().as_slice(), &[7u8; 32]);
}

/// A zero declared length and a length mismatch both yield the
/// key-length error.
#[test]
fn rejects_zero_length_and_mismatched_keys() {
    let mut manager = KeyManager::without_rotation();
    assert!(matches!(
        manager.accept_key("k1", 0, vec![]),
        Err(classified::errors::SecureError::InvalidKeyLength)
    ));
    assert!(matches!(
        manager.accept_key("k1", 32, vec![1u8; 16]),
        Err(classified::errors::SecureError::InvalidKeyLength)
    ));
    assert!(manager.get_key("k1").is_none());
}

#[test]
fn removes_and_misses_keys() {
    let mut manager = KeyManager::new(60);
    manager.accept_key("gone", 4, vec![1, 2, 3, 4]).unwrap();
    manager.remove_key("gone").unwrap();
    assert!(manager.get_key("gone").is_none());
    assert!(manager.get_key("never").is_none());
}

/// Comparison against stored material is constant-time and answers
/// nothing for an unknown identifier.
#[test]
fn compare_key_is_exact() {
    let mut manager = KeyManager::without_rotation();
    manager.accept_key("prod", 8, vec![9u8; 8]).unwrap();
    assert_eq!(manager.compare_key("prod", &[9u8; 8]), Some(true));
    assert_eq!(manager.compare_key("prod", &[8u8; 8]), Some(false));
    assert_eq!(manager.compare_key("prod", &[9u8; 7]), Some(false));
    assert_eq!(manager.compare_key("other", &[9u8; 8]), None);
}

/// Rotation replaces every stored key wholesale and keeps the key set.
#[test]
fn rotation_replaces_all_material() {
    let mut manager = KeyManager::with_rotation(300);
    manager.accept_key("a", 4, vec![1, 1, 1, 1]).unwrap();
    manager.accept_key("b", 2, vec![2, 2]).unwrap();
    manager.rotate_keys();
    assert_eq!(manager.get_key("a").unwrap().expose().as_slice(), &[0u8; 32]);
    assert_eq!(manager.get_key("b").unwrap().expose().as_slice(), &[0u8; 32]);
    assert!(manager.get_key("c").is_none());
}

#[test]
fn insert_and_get_returns_correct_data() {
    let mut repo = DataRepository::new();

    let key = "user:123".to_string();
    let value = b"secret123".to_vec();

    repo.insert(key.clone(), value.clone()).unwrap();

    let retrieved = repo.get(&key).unwrap();
    assert_eq!(retrieved.expose(), &value);
}

#[test]
fn get_nonexistent_key_returns_none() {
    let repo = DataRepository::new();
    let result = repo.get("missing");
    assert!(result.is_none());
}

#[test]
fn remove_key_removes_data() {
    let mut repo = DataRepository::new();

    let key = "api_token".to_string();
    let value = b"top_secret".to_vec();

    repo.insert(key.clone(), value).unwrap();

    let before_remove = repo.get(&key);
    assert!(before_remove.is_some());

    repo.remove(&key).unwrap();

    let after_remove = repo.get(&key);
    assert!(after_remove.is_none());
}

#[test]
fn remove_nonexistent_key_is_ok() {
    let mut repo = DataRepository::new();
    let result = repo.remove("nonexistent");
    assert!(result.is_ok());
}
