use kvstore::backend::create_serializer;
use kvstore::Backend;

#[test]
fn yml_suffix_selects_yaml() {
    assert_eq!(create_serializer("x.yml"), (Backend::Yaml, false));
}

#[test]
fn json_suffix_selects_json() {
    assert_eq!(create_serializer("x.json"), (Backend::Json, false));
}

#[test]
fn db_and_sqlite_suffixes_select_sqlite() {
    assert_eq!(create_serializer("x.db"), (Backend::Sqlite, false));
    assert_eq!(create_serializer("x.sqlite"), (Backend::Sqlite, false));
}

#[test]
fn csv_suffix_selects_csv() {
    assert_eq!(create_serializer("x.csv"), (Backend::Csv, false));
}

#[test]
fn unknown_suffix_falls_back_to_yaml() {
    assert_eq!(create_serializer("x.txt"), (Backend::Yaml, true));
    assert_eq!(create_serializer("plain"), (Backend::Yaml, true));
}
