use live_relay::store::DescriptorStore;

#[test]
fn credential_creates_descriptor_with_defaults() {
    let mut store = DescriptorStore::new();
    assert!(store.set_credential(5, "key-5".to_string()));
    let d = store.get(5).expect("descriptor");
    assert_eq!(d.room_index, 5);
    assert_eq!(d.live_key, "key-5");
    assert!(d.args.is_empty());
    assert!(!d.srt);
}

#[test]
fn arguments_create_descriptor_with_empty_credential() {
    let mut store = DescriptorStore::new();
    let created = store.set_arguments(9, ["--a".to_string(), "b".to_string()].to_vec());
    assert!(created);
    let d = store.get(9).expect("descriptor");
    assert_eq!(d.room_index, 9);
    assert_eq!(d.live_key, "");
    assert_eq!(d.args, ["--a".to_string(), "b".to_string()].to_vec());
    assert!(!d.srt);
}

#[test]
fn credential_update_keeps_arguments() {
    let mut store = DescriptorStore::new();
    store.set_arguments(3, ["x".to_string()].to_vec());
    assert!(!store.set_credential(3, "new-key".to_string()));
    let d = store.get(3).expect("descriptor");
    assert_eq!(d.live_key, "new-key");
    assert_eq!(d.args, ["x".to_string()].to_vec());
}

#[test]
fn argument_update_keeps_credential() {
    let mut store = DescriptorStore::new();
    store.set_credential(3, "key".to_string());
    assert!(!store.set_arguments(3, ["y".to_string()].to_vec()));
    let d = store.get(3).expect("descriptor");
    assert_eq!(d.live_key, "key");
    assert_eq!(d.args, ["y".to_string()].to_vec());
}

#[test]
fn clear_arguments_keeps_credential() {
    let mut store = DescriptorStore::new();
    store.set_credential(2, "key".to_string());
    store.set_arguments(2, ["a".to_string()].to_vec());
    assert!(store.clear_arguments(2));
    let d = store.get(2).expect("descriptor");
    assert!(d.args.is_empty());
    assert_eq!(d.live_key, "key");
}

#[test]
fn clear_arguments_on_missing_room_is_noop() {
    let mut store = DescriptorStore::new();
    assert!(!store.clear_arguments(42));
    assert!(store.get(42).is_none());
}

#[test]
fn rooms_are_independent() {
    let mut store = DescriptorStore::new();
    store.set_credential(1, "one".to_string());
    store.set_credential(2, "two".to_string());
    assert_eq!(store.get(1).unwrap().live_key, "one");
    assert_eq!(store.get(2).unwrap().live_key, "two");
}
