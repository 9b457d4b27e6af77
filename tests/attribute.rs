use udp::{AnySendSyncClone, AttrValue, AttributeStore, InnerContext, PeerAddr};

#[test]
fn attribute_round_trip_same_type() {
    let mut ctx = InnerContext::new();
    ctx.set_data_value("k", &42i32);
    assert_eq!(ctx.get_data_value::<i32>("k"), Some(42));
    ctx.set_data_value("name", &String::from("alice"));
    assert_eq!(ctx.get_data_value::<String>("name"), Some(String::from("alice")));
    ctx.set_data_value("raw", &vec![1u8, 2, 3]);
    assert_eq!(ctx.get_data_value::<Vec<u8>>("raw"), Some(vec![1u8, 2, 3]));
    ctx.set_data_value("flag", &true);
    assert_eq!(ctx.get_data_value::<bool>("flag"), Some(true));
}

#[test]
fn attribute_other_type_reads_none() {
    let mut ctx = InnerContext::new();
    ctx.set_data_value("k", &42i32);
    assert_eq!(ctx.get_data_value::<i64>("k"), None);
    assert_eq!(ctx.get_data_value::<u32>("k"), None);
    assert_eq!(ctx.get_data_value::<String>("k"), None);
    assert_eq!(ctx.get_data_value::<i32>("k"), Some(42));
}

#[test]
fn missing_attribute_is_none() {
    let ctx = InnerContext::new();
    assert_eq!(ctx.get_data_value::<i32>("missing"), None);
}

#[test]
fn attribute_overwrite_remove_clear() {
    let mut ctx = InnerContext::new();
    ctx.set_data_value("a", &1u64);
    ctx.set_data_value("a", &2u64);
    assert_eq!(ctx.get_data_value::<u64>("a"), Some(2));
    ctx.set_data_value("a", &String::from("now text"));
    assert_eq!(ctx.get_data_value::<u64>("a"), None);
    assert_eq!(ctx.get_data_value::<String>("a"), Some(String::from("now text")));
    ctx.set_data_value("b", &7usize);
    ctx.remove_data_value("a");
    assert_eq!(ctx.get_data_value::<String>("a"), None);
    assert_eq!(ctx.get_data_value::<usize>("b"), Some(7));
    ctx.remove_data_value("not there");
    assert_eq!(ctx.get_data_value::<usize>("b"), Some(7));
    ctx.clear_data();
    assert_eq!(ctx.get_data_value::<usize>("b"), None);
}

#[test]
fn attribute_store_direct() {
    let mut store = AttributeStore::new();
    assert!(!store.contains("x"));
    store.set("x", &-5i64);
    assert!(store.contains("x"));
    assert_eq!(store.get::<i64>("x"), Some(-5));
    store.set("y", &9u32);
    store.set("z", &vec![0u8]);
    store.remove("y");
    assert!(!store.contains("y"));
    assert_eq!(store.get::<Vec<u8>>("z"), Some(vec![0u8]));
    assert_eq!(store.get::<i64>("x"), Some(-5));
    store.clear();
    assert!(!store.contains("x"));
    assert!(!store.contains("z"));
}

#[test]
fn attribute_value_tags() {
    let v = 3u32.to_attr();
    assert!(matches!(v, AttrValue::U32(3)));
    assert_eq!(<u64 as AnySendSyncClone>::from_attr(&v), None);
    assert_eq!(<u32 as AnySendSyncClone>::from_attr(&v), Some(3));
}

#[test]
fn concurrent_contexts_are_isolated() {
    let mut a = InnerContext::from_datagram(b"first".to_vec(), PeerAddr::v4(10, 0, 0, 1, 1000));
    let mut b = InnerContext::from_datagram(b"second".to_vec(), PeerAddr::v4(10, 0, 0, 2, 2000));
    a.set_data_value("user", &String::from("a"));
    let _ = a.prepare_send(b"reply to a".to_vec());
    assert_eq!(b.get_data_value::<String>("user"), None);
    assert!(b.get_response().get_response_data().is_empty());
    b.set_data_value("user", &String::from("b"));
    assert_eq!(a.get_data_value::<String>("user"), Some(String::from("a")));
    assert_eq!(a.get_request(), &b"first".to_vec());
    assert_eq!(b.get_request(), &b"second".to_vec());
    assert_eq!(a.get_response().get_response_data(), &b"reply to a".to_vec());
}
