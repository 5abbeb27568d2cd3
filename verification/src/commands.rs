use crate::error::KeyDoesNotExist;
use crate::error::StoreError;
use crate::store::map_of;
use crate::store::pair_views;
use crate::store::unique_keys;
use crate::store::Store;
use vstd::prelude::*;
use vstd::string::StringExecFns;

verus! {

/// The mapping Init seeds: exactly hat to fedora and food to hotdog.
pub open spec fn seed_map() -> Map<Seq<char>, Seq<char>> {
    map!["hat"@ => "fedora"@, "food"@ => "hotdog"@]
}

/// Builds the seed store, regardless of any prior resource content.
pub fn init_db() -> (r: Store)
    ensures
        r.wf(),
        r@ == seed_map(),
{
    proof {
        reveal_strlit("hat");
        reveal_strlit("food");
        assert("hat"@.len() == 3);
        assert("food"@.len() == 4);
    }
    let mut db = Store::new();
    db.insert(String::from_str("hat"), String::from_str("fedora"));
    db.insert(String::from_str("food"), String::from_str("hotdog"));
    proof {
        assert(db@ =~= seed_map());
    }
    db
}

/// Inserts a pair into the store; rejected with KeyAlreadyExists
/// exactly when the key is already present, and then the store is left
/// unchanged.
pub fn add_key(db: &mut Store, key: String, value: String) -> (r: Result<(), StoreError>)
    requires
        old(db).wf(),
    ensures
        final(db).wf(),
        r is Ok <==> !old(db)@.contains_key(key@),
        r is Ok ==> final(db)@ == old(db)@.insert(key@, value@),
        r is Err ==> *final(db) == *old(db) && r->Err_0 is KeyAlreadyExists,
{
    if db.contains_key(&key) {
        Err(StoreError::KeyAlreadyExists)
    } else {
        db.insert(key, value);
        Ok(())
    }
}

/// Deletes a key from the store; rejected with KeyDoesNotExist,
/// carrying the key, exactly when the key is absent, and then the
/// store is left unchanged.
pub fn remove_db_key(db: &mut Store, key: &String) -> (r: Result<(), StoreError>)
    requires
        old(db).wf(),
    ensures
        final(db).wf(),
        r is Ok <==> old(db)@.contains_key(key@),
        r is Ok ==> final(db)@ == old(db)@.remove(key@),
        r is Err ==> *final(db) == *old(db) && (r->Err_0 matches StoreError::KeyDoesNotExist(w)
            && w.key@ == key@),
{
    if db.contains_key(key) {
        db.remove(key);
        Ok(())
    } else {
        Err(StoreError::KeyDoesNotExist(KeyDoesNotExist { key: key.clone() }))
    }
}

/// The entries to print, in storage order: exactly the store's
/// mapping, one entry per key.
pub fn list_db(db: &Store) -> (r: &Vec<(String, String)>)
    requires
        db.wf(),
    ensures
        map_of(pair_views(r@)) == db@,
        unique_keys(pair_views(r@)),
        r@.len() == db@.len(),
{
    db.entries()
}

} // verus!
