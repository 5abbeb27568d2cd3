use crate::error::StoreError;
use crate::store::map_of;
use crate::store::pair_views;
use crate::store::unique_keys;
use crate::store::Store;
use vstd::prelude::*;

verus! {

/// What serde_yaml::from_str yields on a document: the string-to-string
/// mapping it holds, or nothing when the document is not such a
/// mapping.
pub uninterp spec fn yaml_parse(doc: Seq<char>) -> Option<Map<Seq<char>, Seq<char>>>;

/// What serde_json::from_str yields on a document: the string-to-string
/// object it holds, or nothing when the document is not such an object.
pub uninterp spec fn json_parse(doc: Seq<char>) -> Option<Map<Seq<char>, Seq<char>>>;

/// What csv::Reader yields on a document: the records after the leading
/// header record, each a list of fields, or nothing when some record is
/// malformed.
pub uninterp spec fn csv_records(doc: Seq<char>) -> Option<Seq<Seq<Seq<char>>>>;

/// Every record has exactly two fields.
pub open spec fn csv_shape_ok(recs: Seq<Seq<Seq<char>>>) -> bool {
    forall|i: int| 0 <= i < recs.len() ==> (#[trigger] recs[i]).len() == 2
}

/// The key/value pair each two-field record holds.
pub open spec fn record_pairs(recs: Seq<Seq<Seq<char>>>) -> Seq<(Seq<char>, Seq<char>)> {
    recs.map_values(|r: Seq<Seq<char>>| (r[0], r[1]))
}

/// The records a list of entries is written out as.
pub open spec fn entry_records(prs: Seq<(Seq<char>, Seq<char>)>) -> Seq<Seq<Seq<char>>> {
    prs.map_values(|p: (Seq<char>, Seq<char>)| seq![p.0, p.1])
}

/// The header line every written CSV document starts with.
pub open spec fn csv_header_text() -> Seq<char> {
    "key,value\n"@
}

/// `\n` is the only line-break character of the sequence: no carriage
/// return, next-line, line-separator or paragraph-separator character.
pub open spec fn yaml_clean(s: Seq<char>) -> bool {
    forall|i: int|
        0 <= i < s.len() ==> (#[trigger] s[i]) != '\r' && s[i] != '\u{85}' && s[i] != '\u{2028}'
            && s[i] != '\u{2029}'
}

/// Every key and value of the mapping uses `\n` as its only break
/// character.
pub open spec fn yaml_clean_map(m: Map<Seq<char>, Seq<char>>) -> bool {
    forall|k: Seq<char>| #[trigger] m.contains_key(k) ==> yaml_clean(k) && yaml_clean(m[k])
}

/// The outcome a CSV read owes for a document: the mapping of its
/// records, DecodeFailure when the document or a record's field count
/// is malformed, DuplicateKey when two records share a key.
pub open spec fn csv_read_spec(doc: Seq<char>) -> Result<Map<Seq<char>, Seq<char>>, StoreError> {
    match csv_records(doc) {
        Option::None => Result::Err(StoreError::DecodeFailure),
        Option::Some(recs) => if !csv_shape_ok(recs) {
            Result::Err(StoreError::DecodeFailure)
        } else if !unique_keys(record_pairs(recs)) {
            Result::Err(StoreError::DuplicateKey)
        } else {
            Result::Ok(map_of(record_pairs(recs)))
        },
    }
}

/// Relies on serde_yaml::to_string on a std BTreeMap holding the
/// entries: serializing a map of strings into an in-memory string
/// cannot fail, and serde_yaml::from_str parses the emitted YAML
/// mapping back to exactly the mapping the entries denote — as long
/// as no key or value holds a break character other than `\n`. The
/// emitter writes `\r`, next-line and the Unicode separators as real
/// line breaks, which re-parsing folds rather than restores, so the
/// exact round trip is stated only for break-clean strings. The
/// unique keys make the loop below one-for-one.
#[verifier::external_body]
fn yaml_encode_entries(entries: &Vec<(String, String)>) -> (r: String)
    requires
        unique_keys(pair_views(entries@)),
    ensures
        yaml_clean_map(map_of(pair_views(entries@))) ==> yaml_parse(r@) == Some(
            map_of(pair_views(entries@)),
        ),
{
    let mut m: std::collections::BTreeMap<String, String> = std::collections::BTreeMap::new();
    for p in entries.iter() {
        m.insert(p.0.clone(), p.1.clone());
    }
    serde_yaml::to_string(&m).expect("serializing a string map cannot fail")
}

/// Relies on serde_yaml::from_str into a std BTreeMap: it succeeds
/// exactly when the document is a YAML mapping of strings to strings,
/// and the result is a function of the document alone.
#[verifier::external_body]
fn yaml_decode_doc(doc: &str) -> (r: Result<Vec<(String, String)>, StoreError>)
    ensures
        r is Ok <==> yaml_parse(doc@) is Some,
        r is Ok ==> (yaml_parse(doc@) matches Some(m) && unique_keys(pair_views(r->Ok_0@))
            && map_of(pair_views(r->Ok_0@)) == m),
        r is Err ==> r->Err_0 is DecodeFailure,
{
    match serde_yaml::from_str::<std::collections::BTreeMap<String, String>>(doc) {
        Ok(m) => Ok(m.into_iter().collect()),
        Err(_) => Err(StoreError::DecodeFailure),
    }
}

/// Relies on serde_json::to_string on a std BTreeMap holding the
/// entries: it fails only for a failing Serialize impl or non-string
/// map keys, neither of which a map of strings has, and
/// serde_json::from_str parses the emitted JSON object back to exactly
/// the mapping the entries denote. The unique keys make the loop below
/// one-for-one.
#[verifier::external_body]
fn json_encode_entries(entries: &Vec<(String, String)>) -> (r: String)
    requires
        unique_keys(pair_views(entries@)),
    ensures
        json_parse(r@) == Some(map_of(pair_views(entries@))),
{
    let mut m: std::collections::BTreeMap<String, String> = std::collections::BTreeMap::new();
    for p in entries.iter() {
        m.insert(p.0.clone(), p.1.clone());
    }
    serde_json::to_string(&m).expect("serializing a string map cannot fail")
}

/// Relies on serde_json::from_str into a std BTreeMap: it succeeds
/// exactly when the document is a JSON object of strings to strings,
/// and the result is a function of the document alone.
#[verifier::external_body]
fn json_decode_doc(doc: &str) -> (r: Result<Vec<(String, String)>, StoreError>)
    ensures
        r is Ok <==> json_parse(doc@) is Some,
        r is Ok ==> (json_parse(doc@) matches Some(m) && unique_keys(pair_views(r->Ok_0@))
            && map_of(pair_views(r->Ok_0@)) == m),
        r is Err ==> r->Err_0 is DecodeFailure,
{
    match serde_json::from_str::<std::collections::BTreeMap<String, String>>(doc) {
        Ok(m) => Ok(m.into_iter().collect()),
        Err(_) => Err(StoreError::DecodeFailure),
    }
}

/// Relies on csv::Writer: the document starts with the line key,value
/// and continues with one record per entry, in order, and csv::Reader
/// parses it back to exactly those records. Writing two-field records
/// of UTF-8 strings into an in-memory byte buffer cannot fail.
#[verifier::external_body]
fn csv_encode_entries(entries: &Vec<(String, String)>) -> (r: String)
    ensures
        csv_records(r@) == Some(entry_records(pair_views(entries@))),
        r@.len() >= csv_header_text().len(),
        r@.take(csv_header_text().len() as int) == csv_header_text(),
{
    let mut w = csv::Writer::from_writer(Vec::new());
    w.write_record(["key", "value"]).expect("writing to a byte buffer cannot fail");
    for p in entries.iter() {
        w.write_record([p.0.as_str(), p.1.as_str()]).expect(
            "writing a two-field record to a byte buffer cannot fail",
        );
    }
    let buf = w.into_inner().expect("flushing a byte buffer cannot fail");
    String::from_utf8(buf).expect("the writer emits UTF-8")
}

/// Relies on csv::Reader: skips the leading header record and yields
/// each following record's fields; the result is a function of the
/// document alone.
#[verifier::external_body]
fn csv_decode_doc(doc: &str) -> (r: Result<Vec<Vec<String>>, StoreError>)
    ensures
        r is Ok <==> csv_records(doc@) is Some,
        r is Ok ==> (csv_records(doc@) matches Some(recs) && r->Ok_0.deep_view() == recs),
        r is Err ==> r->Err_0 is DecodeFailure,
{
    let mut rdr = csv::Reader::from_reader(doc.as_bytes());
    let mut out: Vec<Vec<String>> = Vec::new();
    for rec in rdr.records() {
        match rec {
            Ok(fields) => out.push(fields.iter().map(|f| f.to_string()).collect()),
            Err(_) => return Err(StoreError::DecodeFailure),
        }
    }
    Ok(out)
}

/// Relies on rusqlite: opens the database at `fname` and returns every
/// (key, value) row of the kvstore table, in query order. What comes
/// back depends on what is on disk; IOFailure reports a database that
/// cannot be opened, DecodeFailure a table that cannot be queried as
/// two text columns.
#[verifier::external_body]
fn sqlite_read_rows(fname: &str) -> (r: Result<Vec<(String, String)>, StoreError>)
    ensures
        r is Err ==> (r->Err_0 is IOFailure || r->Err_0 is DecodeFailure),
{
    let conn = rusqlite::Connection::open(fname).map_err(|_| StoreError::IOFailure)?;
    let mut stmt = conn.prepare("SELECT key, value FROM kvstore").map_err(
        |_| StoreError::DecodeFailure,
    )?;
    let mut rows = stmt.query([]).map_err(|_| StoreError::DecodeFailure)?;
    let mut out: Vec<(String, String)> = Vec::new();
    while let Some(row) = rows.next().map_err(|_| StoreError::DecodeFailure)? {
        let k: String = row.get(0).map_err(|_| StoreError::DecodeFailure)?;
        let v: String = row.get(1).map_err(|_| StoreError::DecodeFailure)?;
        out.push((k, v));
    }
    Ok(out)
}

/// Relies on rusqlite: inside one transaction, drops and recreates the
/// kvstore table and inserts one row per entry, committing only after
/// every step succeeded; any failure leaves the transaction
/// uncommitted.
#[verifier::external_body]
fn sqlite_write_rows(fname: &str, entries: &Vec<(String, String)>) -> (r: Result<
    (),
    StoreError,
>)
    ensures
        r is Err ==> r->Err_0 is IOFailure,
{
    let sql = "CREATE TABLE kvstore(id INTEGER PRIMARY KEY AUTOINCREMENT NOT NULL, key TEXT UNIQUE NOT NULL, value TEXT NOT NULL)";
    let mut conn = rusqlite::Connection::open(fname).map_err(|_| StoreError::IOFailure)?;
    let t = conn.transaction().map_err(|_| StoreError::IOFailure)?;
    t.execute("DROP TABLE IF EXISTS kvstore", []).map_err(|_| StoreError::IOFailure)?;
    t.execute(sql, []).map_err(|_| StoreError::IOFailure)?;
    {
        let mut ins = t.prepare("INSERT INTO kvstore (key, value) VALUES (?,?)").map_err(|_| StoreError::IOFailure)?;
        for p in entries.iter() {
            ins.execute([p.0.as_str(), p.1.as_str()]).map_err(|_| StoreError::IOFailure)?;
        }
    }
    t.commit().map_err(|_| StoreError::IOFailure)
}

/// The YAML backend: a whole-document mapping of strings to strings.
pub struct YamlSerializer {}

impl YamlSerializer {
    /// Decodes a whole YAML document into a store.
    pub fn read_str(&self, doc: &str) -> (r: Result<Store, StoreError>)
        ensures
            r is Ok <==> yaml_parse(doc@) is Some,
            r is Ok ==> r->Ok_0.wf() && yaml_parse(doc@) == Some(r->Ok_0@),
            r is Err ==> r->Err_0 is DecodeFailure,
    {
        match yaml_decode_doc(doc) {
            Ok(rows) => Ok(Store::from_unique_rows(rows)),
            Err(e) => Err(e),
        }
    }

    /// Encodes a store as a whole YAML document; encoding never fails,
    /// and for a store whose keys and values hold no break character
    /// other than `\n`, the document re-reads to exactly the encoded
    /// mapping.
    pub fn write_str(&self, db: &Store) -> (r: String)
        requires
            db.wf(),
        ensures
            yaml_clean_map(db@) ==> yaml_parse(r@) == Some(db@),
    {
        yaml_encode_entries(db.entries())
    }
}

/// The JSON backend: a whole-document object of strings to strings.
pub struct JsonSerializer {}

impl JsonSerializer {
    /// Decodes a whole JSON document into a store.
    pub fn read_str(&self, doc: &str) -> (r: Result<Store, StoreError>)
        ensures
            r is Ok <==> json_parse(doc@) is Some,
            r is Ok ==> r->Ok_0.wf() && json_parse(doc@) == Some(r->Ok_0@),
            r is Err ==> r->Err_0 is DecodeFailure,
    {
        match json_decode_doc(doc) {
            Ok(rows) => Ok(Store::from_unique_rows(rows)),
            Err(e) => Err(e),
        }
    }

    /// Encodes a store as a whole JSON document; encoding never fails,
    /// and the document re-reads to exactly the encoded mapping.
    pub fn write_str(&self, db: &Store) -> (r: String)
        requires
            db.wf(),
        ensures
            json_parse(r@) == Some(db@),
    {
        json_encode_entries(db.entries())
    }
}

/// The CSV backend: a header record, then one record per entry.
pub struct CsvSerializer {}

impl CsvSerializer {
    /// Decodes a whole CSV document into a store: every record after
    /// the header must have exactly two fields, and a repeated key is
    /// rejected with DuplicateKey instead of silently overwriting.
    pub fn read_str(&self, doc: &str) -> (r: Result<Store, StoreError>)
        ensures
            r is Ok <==> csv_read_spec(doc@) is Ok,
            r is Ok ==> r->Ok_0.wf() && csv_read_spec(doc@) == Result::<_, StoreError>::Ok(
                r->Ok_0@,
            ),
            r is Err ==> csv_read_spec(doc@) == Result::<Map<Seq<char>, Seq<char>>, _>::Err(
                r->Err_0,
            ),
    {
        let recs = match csv_decode_doc(doc) {
            Ok(v) => v,
            Err(e) => {
                return Err(e);
            },
        };
        let ghost grecs = csv_records(doc@)->Some_0;
        let mut rows: Vec<(String, String)> = Vec::new();
        let mut i: usize = 0;
        while i < recs.len()
            invariant
                i <= recs@.len(),
                rows@.len() == i,
                csv_records(doc@) == Some(grecs),
                recs.deep_view() == grecs,
                grecs.len() == recs@.len(),
                forall|j: int| 0 <= j < i ==> (#[trigger] grecs[j]).len() == 2,
                forall|j: int|
                    0 <= j < i ==> #[trigger] pair_views(rows@)[j] == record_pairs(grecs)[j],
            decreases recs@.len() - i,
        {
            proof {
                assert(grecs[i as int] == recs@[i as int].deep_view());
            }
            let rec = &recs[i];
            if rec.len() != 2 {
                proof {
                    assert(!csv_shape_ok(grecs));
                }
                return Err(StoreError::DecodeFailure);
            }
            let k = rec[0].clone();
            let v = rec[1].clone();
            proof {
                assert(recs@[i as int].deep_view()[0] == recs@[i as int]@[0]@);
                assert(recs@[i as int].deep_view()[1] == recs@[i as int]@[1]@);
                let rows2 = rows@.push((k, v));
                assert forall|j: int| 0 <= j < i + 1 implies #[trigger] pair_views(rows2)[j]
                    == record_pairs(grecs)[j] by {
                    if j < i {
                        assert(pair_views(rows2)[j] == pair_views(rows@)[j]);
                    } else {
                        assert(pair_views(rows2)[j] == (k@, v@));
                        assert(record_pairs(grecs)[j] == (grecs[j][0], grecs[j][1]));
                    }
                }
            }
            rows.push((k, v));
            i = i + 1;
        }
        proof {
            assert(csv_shape_ok(grecs));
            assert(pair_views(rows@) =~= record_pairs(grecs));
        }
        match Store::from_rows(rows) {
            Ok(st) => Ok(st),
            Err(e) => Err(e),
        }
    }

    /// Encodes a store as a whole CSV document; encoding never fails,
    /// the document starts with the key,value header line, and it
    /// re-reads to exactly the encoded mapping.
    pub fn write_str(&self, db: &Store) -> (r: String)
        requires
            db.wf(),
        ensures
            csv_read_spec(r@) == Result::<_, StoreError>::Ok(db@),
            r@.len() >= csv_header_text().len(),
            r@.take(csv_header_text().len() as int) == csv_header_text(),
    {
        let entries = db.entries();
        let r = csv_encode_entries(entries);
        proof {
            let prs = pair_views(entries@);
            let recs = entry_records(prs);
            assert forall|i: int| 0 <= i < recs.len() implies (#[trigger] recs[i]).len()
                == 2 by {
                assert(recs[i] == seq![prs[i].0, prs[i].1]);
            }
            assert(record_pairs(recs) =~= prs);
        }
        r
    }
}

/// Writing a store as a YAML document and reading the document back
/// yields a store with exactly the same mapping, for a store whose
/// keys and values hold no break character other than `\n`.
pub fn yaml_round_trip(db: &Store) -> (r: Store)
    requires
        db.wf(),
        yaml_clean_map(db@),
    ensures
        r.wf(),
        r@ == db@,
{
    let doc = YamlSerializer {}.write_str(db);
    match (YamlSerializer {}).read_str(doc.as_str()) {
        Ok(st) => st,
        Err(_) => {
            proof {
                assert(false);
            }
            Store::new()
        },
    }
}

/// Writing a store as a JSON document and reading the document back
/// yields a store with exactly the same mapping.
pub fn json_round_trip(db: &Store) -> (r: Store)
    requires
        db.wf(),
    ensures
        r.wf(),
        r@ == db@,
{
    let doc = JsonSerializer {}.write_str(db);
    match (JsonSerializer {}).read_str(doc.as_str()) {
        Ok(st) => st,
        Err(_) => {
            proof {
                assert(false);
            }
            Store::new()
        },
    }
}

/// Writing a store as a CSV document and reading the document back
/// yields a store with exactly the same mapping.
pub fn csv_round_trip(db: &Store) -> (r: Store)
    requires
        db.wf(),
    ensures
        r.wf(),
        r@ == db@,
{
    let doc = CsvSerializer {}.write_str(db);
    match (CsvSerializer {}).read_str(doc.as_str()) {
        Ok(st) => st,
        Err(_) => {
            proof {
                assert(false);
            }
            Store::new()
        },
    }
}

/// The SQLite backend: a single two-text-column kvstore table.
pub struct SqliteSerializer {}

impl SqliteSerializer {
    /// Reads the whole kvstore table of the database at `fname` into a
    /// store, rejecting a repeated key with DuplicateKey instead of
    /// silently overwriting.
    pub fn read_from_file(&self, fname: &str) -> (r: Result<Store, StoreError>)
        ensures
            r is Ok ==> r->Ok_0.wf(),
            r is Err ==> (r->Err_0 is IOFailure || r->Err_0 is DecodeFailure
                || r->Err_0 is DuplicateKey),
    {
        match sqlite_read_rows(fname) {
            Ok(rows) => Store::from_rows(rows),
            Err(e) => Err(e),
        }
    }

    /// Replaces the whole kvstore table of the database at `fname` with
    /// the store's entries, atomically with respect to the connection.
    pub fn write_to_file(&self, fname: &str, db: &Store) -> (r: Result<(), StoreError>)
        ensures
            r is Err ==> r->Err_0 is IOFailure,
    {
        sqlite_write_rows(fname, db.entries())
    }
}

} // verus!
