use kvstore::commands::add_key;
use kvstore::commands::init_db;
use kvstore::commands::list_db;
use kvstore::commands::remove_db_key;
use kvstore::Store;
use kvstore::StoreError;

fn lookup(entries: &Vec<(String, String)>, key: &str) -> Option<String> {
    for (k, v) in entries.iter() {
        if k == key {
            return Some(v.clone());
        }
    }
    None
}

#[test]
fn init_seeds_exactly_two_fixed_entries() {
    let db = init_db();
    assert_eq!(db.len(), 2);
    let entries = list_db(&db);
    assert_eq!(lookup(entries, "hat"), Some("fedora".to_string()));
    assert_eq!(lookup(entries, "food"), Some("hotdog".to_string()));
}

#[test]
fn add_inserts_absent_key() {
    let mut db = Store::new();
    let r = add_key(&mut db, "color".to_string(), "blue".to_string());
    assert!(r.is_ok());
    assert_eq!(db.len(), 1);
    assert_eq!(lookup(list_db(&db), "color"), Some("blue".to_string()));
}

#[test]
fn add_rejects_present_key_and_leaves_store_unchanged() {
    let mut db = init_db();
    let r = add_key(&mut db, "hat".to_string(), "bowler".to_string());
    assert!(matches!(r, Err(StoreError::KeyAlreadyExists)));
    assert_eq!(db.len(), 2);
    assert_eq!(lookup(list_db(&db), "hat"), Some("fedora".to_string()));
}

#[test]
fn remove_deletes_present_key() {
    let mut db = init_db();
    let r = remove_db_key(&mut db, &"hat".to_string());
    assert!(r.is_ok());
    assert_eq!(db.len(), 1);
    assert_eq!(lookup(list_db(&db), "hat"), None);
    assert_eq!(lookup(list_db(&db), "food"), Some("hotdog".to_string()));
}

#[test]
fn remove_rejects_absent_key_and_carries_it() {
    let mut db = init_db();
    let r = remove_db_key(&mut db, &"color".to_string());
    match r {
        Err(StoreError::KeyDoesNotExist(w)) => assert_eq!(w.key, "color"),
        _ => panic!("expected KeyDoesNotExist"),
    }
    assert_eq!(db.len(), 2);
}

#[test]
fn from_rows_rejects_a_repeated_key() {
    let rows = vec![
        ("a".to_string(), "1".to_string()),
        ("b".to_string(), "2".to_string()),
        ("a".to_string(), "3".to_string()),
    ];
    let r = Store::from_rows(rows);
    assert!(matches!(r, Err(StoreError::DuplicateKey)));
}

#[test]
fn from_rows_accepts_unique_keys() {
    let rows = vec![
        ("a".to_string(), "1".to_string()),
        ("b".to_string(), "2".to_string()),
    ];
    let db = Store::from_rows(rows).unwrap();
    assert_eq!(db.len(), 2);
    assert!(db.contains_key(&"a".to_string()));
    assert!(!db.contains_key(&"c".to_string()));
}
