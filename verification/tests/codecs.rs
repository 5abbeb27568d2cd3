use kvstore::commands::add_key;
use kvstore::commands::init_db;
use kvstore::serializer::CsvSerializer;
use kvstore::serializer::JsonSerializer;
use kvstore::serializer::YamlSerializer;
use kvstore::Store;
use kvstore::StoreError;

fn sample() -> Store {
    let mut db = init_db();
    add_key(&mut db, "color".to_string(), "blue".to_string()).unwrap();
    add_key(&mut db, "empty".to_string(), "".to_string()).unwrap();
    db
}

fn lookup(db: &Store, key: &str) -> Option<String> {
    for (k, v) in db.entries().iter() {
        if k == key {
            return Some(v.clone());
        }
    }
    None
}

fn assert_same(a: &Store, b: &Store) {
    assert_eq!(a.len(), b.len());
    for (k, v) in a.entries().iter() {
        assert_eq!(lookup(b, k).as_deref(), Some(v.as_str()));
    }
}

#[test]
fn yaml_round_trip_preserves_the_mapping() {
    let db = sample();
    let doc = YamlSerializer {}.write_str(&db);
    let back = YamlSerializer {}.read_str(&doc).unwrap();
    assert_same(&db, &back);
    let doc2 = YamlSerializer {}.write_str(&back);
    assert_eq!(doc, doc2);
}

#[test]
fn json_round_trip_preserves_the_mapping() {
    let db = sample();
    let doc = JsonSerializer {}.write_str(&db);
    let back = JsonSerializer {}.read_str(&doc).unwrap();
    assert_same(&db, &back);
    let doc2 = JsonSerializer {}.write_str(&back);
    assert_eq!(doc, doc2);
}

#[test]
fn csv_round_trip_preserves_the_mapping() {
    let db = sample();
    let doc = CsvSerializer {}.write_str(&db);
    let back = CsvSerializer {}.read_str(&doc).unwrap();
    assert_same(&db, &back);
    let doc2 = CsvSerializer {}.write_str(&back);
    let back2 = CsvSerializer {}.read_str(&doc2).unwrap();
    assert_same(&back, &back2);
}

#[test]
fn csv_write_emits_header_then_rows() {
    let mut db = Store::new();
    add_key(&mut db, "color".to_string(), "blue".to_string()).unwrap();
    let doc = CsvSerializer {}.write_str(&db);
    assert_eq!(doc, "key,value\ncolor,blue\n");
}

#[test]
fn csv_read_rejects_a_repeated_key() {
    let doc = "key,value\na,1\nb,2\na,3\n";
    let r = CsvSerializer {}.read_str(doc);
    assert!(matches!(r, Err(StoreError::DuplicateKey)));
}

#[test]
fn csv_read_accepts_two_fields_per_record_only() {
    let doc = "key,value\na,1\nb,2,3\n";
    let r = CsvSerializer {}.read_str(doc);
    assert!(matches!(r, Err(StoreError::DecodeFailure)));
}

#[test]
fn yaml_read_rejects_a_non_mapping_document() {
    let r = YamlSerializer {}.read_str("- just\n- a\n- list\n");
    assert!(matches!(r, Err(StoreError::DecodeFailure)));
}

#[test]
fn json_read_rejects_a_malformed_document() {
    let r = JsonSerializer {}.read_str("{\"a\": ");
    assert!(matches!(r, Err(StoreError::DecodeFailure)));
}

#[test]
fn json_read_parses_an_object() {
    let db = JsonSerializer {}.read_str("{\"a\": \"1\", \"b\": \"2\"}").unwrap();
    assert_eq!(db.len(), 2);
    assert_eq!(lookup(&db, "a").as_deref(), Some("1"));
    assert_eq!(lookup(&db, "b").as_deref(), Some("2"));
}

#[test]
fn yaml_read_parses_a_mapping() {
    let db = YamlSerializer {}.read_str("a: '1'\nb: '2'\n").unwrap();
    assert_eq!(db.len(), 2);
    assert_eq!(lookup(&db, "a").as_deref(), Some("1"));
}

#[test]
fn empty_store_round_trips_through_every_text_backend() {
    let db = Store::new();
    let y = YamlSerializer {}.write_str(&db);
    assert_eq!(YamlSerializer {}.read_str(&y).unwrap().len(), 0);
    let j = JsonSerializer {}.write_str(&db);
    assert_eq!(JsonSerializer {}.read_str(&j).unwrap().len(), 0);
    let c = CsvSerializer {}.write_str(&db);
    assert_eq!(CsvSerializer {}.read_str(&c).unwrap().len(), 0);
}

#[test]
fn csv_round_trip_keeps_fields_with_commas_and_quotes() {
    let mut db = Store::new();
    add_key(&mut db, "a,b".to_string(), "c\"d".to_string()).unwrap();
    let doc = CsvSerializer {}.write_str(&db);
    let back = CsvSerializer {}.read_str(&doc).unwrap();
    assert_eq!(lookup(&back, "a,b").as_deref(), Some("c\"d"));
}

#[test]
fn round_trip_functions_return_the_same_mapping() {
    let db = sample();
    assert_same(&db, &kvstore::serializer::yaml_round_trip(&db));
    assert_same(&db, &kvstore::serializer::json_round_trip(&db));
    assert_same(&db, &kvstore::serializer::csv_round_trip(&db));
}
