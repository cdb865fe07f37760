//! Scenarios against the real embedded engine: open-or-fetch of databases,
//! document round-trips, transaction terminality and isolation.

use persistence::error::Error;
use persistence::state::Persistence;
use persistence::types::{CollectionSpecifier, ContextSpecifier, DatabaseSpecifier, DirProbe, FileProbe, OperationCount};

fn runtime() -> tokio::runtime::Runtime {
    tokio::runtime::Builder::new_current_thread()
        .enable_all()
        .build()
        .unwrap()
}

fn canonical_root(dir: &tempfile::TempDir) -> String {
    let rt = runtime();
    let p = rt.block_on(tokio::fs::canonicalize(dir.path())).unwrap();
    p.to_str().unwrap().to_string()
}

fn fresh_file_probe() -> FileProbe {
    FileProbe { exists: false, is_file: false }
}

fn doc1(key: &str, value: i32) -> bson::Document {
    let mut d = bson::Document::new();
    d.insert(key, value);
    d
}

#[test]
fn database_open_fetch_and_mismatch() {
    let dir = tempfile::tempdir().unwrap();
    let root = canonical_root(&dir);
    let mut p = Persistence::new();
    let ctx = p
        .open_context("proj", root.as_str(), DirProbe::ExistingDir)
        .unwrap();
    let canon = format!("{}/{}", root, "data.db");
    let db = ctx
        .open_database(&mut p, "main", "data.db", Some(canon.clone()), fresh_file_probe())
        .unwrap();
    assert_eq!(db.name(), "main");
    assert_eq!(db.path(), "data.db");

    // Same alias and path: answered from the registry.
    let again = ctx
        .open_database(
            &mut p,
            "main",
            "data.db",
            Some(canon.clone()),
            FileProbe { exists: true, is_file: true },
        )
        .unwrap();
    assert_eq!(again.path(), "data.db");

    // Same alias, different path: refused without mutating the first.
    let canon2 = format!("{}/{}", root, "other.db");
    let r = ctx.open_database(&mut p, "main", "other.db", Some(canon2), fresh_file_probe());
    assert!(matches!(
        r,
        Err(Error::OpenDatabase { reason, .. }) if reason == "Database is already open at another path."
    ));
    assert_eq!(ctx.database(&p, "main").unwrap().path(), "data.db");

    // A resolved target that exists but is not a regular file is refused.
    let canon3 = format!("{}/{}", root, "sub");
    let rt = runtime();
    rt.block_on(tokio::fs::create_dir(format!("{}/sub", root))).unwrap();
    let r = ctx.open_database(
        &mut p,
        "aux",
        "sub",
        Some(canon3),
        FileProbe { exists: true, is_file: false },
    );
    assert!(matches!(
        r,
        Err(Error::OpenDatabase { reason, .. }) if reason == "Specified path is not a file."
    ));
}

#[test]
fn engine_refusal_surfaces_as_open_database() {
    let dir = tempfile::tempdir().unwrap();
    let root = canonical_root(&dir);
    let rt = runtime();
    // Something that is a regular file but not a database.
    rt.block_on(tokio::fs::write(format!("{}/junk.db", root), b"not a database"))
        .unwrap();
    let mut p = Persistence::new();
    let ctx = p
        .open_context("bad", root.as_str(), DirProbe::ExistingDir)
        .unwrap();
    let canon = format!("{}/{}", root, "junk.db");
    let r = ctx.open_database(
        &mut p,
        "junk",
        "junk.db",
        Some(canon),
        FileProbe { exists: true, is_file: true },
    );
    assert!(matches!(r, Err(Error::OpenDatabase { .. })));
    // The failed open registered nothing.
    assert!(matches!(ctx.database(&p, "junk"), Err(Error::UnknownDatabase { .. })));
}

#[test]
fn engine_operation_failure_surfaces_as_database_error() {
    let dir = tempfile::tempdir().unwrap();
    let root = canonical_root(&dir);
    let mut p = Persistence::new();
    let ctx = p
        .open_context("err", root.as_str(), DirProbe::ExistingDir)
        .unwrap();
    let canon = format!("{}/{}", root, "err.db");
    let db = ctx
        .open_database(&mut p, "main", "err.db", Some(canon), fresh_file_probe())
        .unwrap();
    let col = db.collection("items");
    col.insert_one(&mut p, doc1("a", 1)).unwrap();
    // An update document without any update operator is refused by the
    // engine.
    let r = col.update_documents(&mut p, doc1("a", 1), doc1("a", 2), OperationCount::One);
    assert!(matches!(r, Err(Error::DatabaseError { .. })));
}

#[test]
fn document_roundtrip_by_generated_id() {
    let dir = tempfile::tempdir().unwrap();
    let root = canonical_root(&dir);
    let mut p = Persistence::new();
    let ctx = p
        .open_context("rt", root.as_str(), DirProbe::ExistingDir)
        .unwrap();
    let canon = format!("{}/{}", root, "rt.db");
    let db = ctx
        .open_database(&mut p, "main", "rt.db", Some(canon), fresh_file_probe())
        .unwrap();
    let col = db.collection("things");
    let mut original = bson::Document::new();
    original.insert("title", "laws");
    original.insert("rank", 3i32);
    let id = col.insert_one(&mut p, original.clone()).unwrap();

    let mut filter = bson::Document::new();
    filter.insert("_id", id);
    let mut found = col.find_one(&mut p, filter).unwrap().unwrap();
    found.remove("_id");
    assert_eq!(found, original);
}

#[test]
fn count_find_update_delete_against_engine() {
    let dir = tempfile::tempdir().unwrap();
    let root = canonical_root(&dir);
    let mut p = Persistence::new();
    let ctx = p
        .open_context("proj", root.as_str(), DirProbe::ExistingDir)
        .unwrap();
    let canon = format!("{}/{}", root, "data.db");
    let db = ctx
        .open_database(&mut p, "main", "data.db", Some(canon), fresh_file_probe())
        .unwrap();
    let col = db.collection("items");
    let ids = col
        .insert_many(&mut p, vec![doc1("a", 1), doc1("a", 2), doc1("a", 3)])
        .unwrap();
    assert_eq!(ids.len(), 3);
    assert_eq!(col.count_documents(&mut p).unwrap(), 3);

    let found = col.find(&mut p, doc1("a", 1), None, None).unwrap();
    assert_eq!(found.len(), 1);
    let mut fd = found[0].clone();
    fd.remove("_id");
    assert_eq!(fd, doc1("a", 1));

    // Window modifiers applied to the materialized result list.
    let all = col.find(&mut p, bson::Document::new(), None, None).unwrap();
    assert_eq!(all.len(), 3);
    let windowed = col
        .find(&mut p, bson::Document::new(), Some(1), Some(1))
        .unwrap();
    assert_eq!(windowed.len(), 1);
    assert_eq!(windowed[0], all[1]);
    let skipped_all = col
        .find(&mut p, bson::Document::new(), Some(9), None)
        .unwrap();
    assert_eq!(skipped_all.len(), 0);

    let mut set = bson::Document::new();
    set.insert("$set", doc1("a", 9));
    let u = col
        .update_documents(&mut p, doc1("a", 2), set, OperationCount::One)
        .unwrap();
    assert_eq!(u.modified, 1);
    assert_eq!(u.matched, u.modified);

    let deleted = col
        .delete_documents(&mut p, doc1("a", 9), OperationCount::Many)
        .unwrap();
    assert_eq!(deleted, 1);
    assert_eq!(col.count_documents(&mut p).unwrap(), 2);

    // Closing the database makes every further use fail as unknown.
    db.close(&mut p).unwrap();
    assert!(matches!(
        col.count_documents(&mut p),
        Err(Error::UnknownDatabase { .. })
    ));
    assert!(matches!(ctx.database(&p, "main"), Err(Error::UnknownDatabase { .. })));
}

#[test]
fn project_context_scenario() {
    // Context "proj" at a fresh directory, database "main" at "data.db",
    // two documents, a count, a filtered find, then close.
    let dir = tempfile::tempdir().unwrap();
    let root = canonical_root(&dir);
    let mut p = Persistence::new();
    let ctx = p
        .open_context("proj", root.as_str(), DirProbe::ExistingDir)
        .unwrap();
    let canon = format!("{}/{}", root, "data.db");
    let db = ctx
        .open_database(&mut p, "main", "data.db", Some(canon), fresh_file_probe())
        .unwrap();
    let col = db.collection("docs");
    col.insert_one(&mut p, doc1("a", 1)).unwrap();
    col.insert_one(&mut p, doc1("a", 2)).unwrap();
    assert_eq!(col.count_documents(&mut p).unwrap(), 2);
    let found = col.find(&mut p, doc1("a", 1), None, None).unwrap();
    assert_eq!(found.len(), 1);
    let mut fd = found[0].clone();
    assert!(fd.get("_id").is_some());
    fd.remove("_id");
    assert_eq!(fd, doc1("a", 1));
    db.close(&mut p).unwrap();
    assert!(matches!(
        ctx.database(&p, "main"),
        Err(Error::UnknownDatabase { .. })
    ));
    assert!(matches!(
        col.count_documents(&mut p),
        Err(Error::UnknownDatabase { .. })
    ));
}

#[test]
fn transaction_commit_is_terminal() {
    let dir = tempfile::tempdir().unwrap();
    let root = canonical_root(&dir);
    let mut p = Persistence::new();
    let ctx = p
        .open_context("tx", root.as_str(), DirProbe::ExistingDir)
        .unwrap();
    let canon = format!("{}/{}", root, "tx.db");
    let db = ctx
        .open_database(&mut p, "main", "tx.db", Some(canon), fresh_file_probe())
        .unwrap();

    let txn = db.start_transaction(&mut p).unwrap();
    let id = txn.id();
    let tcol = txn.collection("items");
    tcol.insert_one(&mut p, doc1("a", 1)).unwrap();
    db.commit_transaction(&mut p, id.as_str()).unwrap();

    // A second termination of the same id fails, whichever way round.
    assert!(matches!(
        db.commit_transaction(&mut p, id.as_str()),
        Err(Error::UnknownTransaction { reason }) if reason == id
    ));
    assert!(matches!(
        db.rollback_transaction(&mut p, id.as_str()),
        Err(Error::UnknownTransaction { .. })
    ));
    // Collections scoped to the terminated id no longer resolve.
    assert!(matches!(
        tcol.count_documents(&mut p),
        Err(Error::UnknownTransaction { .. })
    ));
    assert!(matches!(
        db.get_transaction(&p, id.as_str()),
        Err(Error::UnknownTransaction { .. })
    ));
}

#[test]
fn transaction_rollback_is_terminal_and_discards() {
    let dir = tempfile::tempdir().unwrap();
    let root = canonical_root(&dir);
    let mut p = Persistence::new();
    let ctx = p
        .open_context("rb", root.as_str(), DirProbe::ExistingDir)
        .unwrap();
    let canon = format!("{}/{}", root, "rb.db");
    let db = ctx
        .open_database(&mut p, "main", "rb.db", Some(canon), fresh_file_probe())
        .unwrap();
    let col = db.collection("items");
    col.insert_one(&mut p, doc1("a", 1)).unwrap();

    let txn = db.start_transaction(&mut p).unwrap();
    let id = txn.id();
    let tcol = txn.collection("items");
    tcol.insert_one(&mut p, doc1("a", 2)).unwrap();
    txn.rollback(&mut p).unwrap();

    assert!(matches!(
        db.rollback_transaction(&mut p, id.as_str()),
        Err(Error::UnknownTransaction { .. })
    ));
    // The rolled-back insert is not visible.
    assert_eq!(col.count_documents(&mut p).unwrap(), 1);
}

#[test]
fn transaction_isolation_before_commit() {
    let dir = tempfile::tempdir().unwrap();
    let root = canonical_root(&dir);
    let mut p = Persistence::new();
    let ctx = p
        .open_context("iso", root.as_str(), DirProbe::ExistingDir)
        .unwrap();
    let canon = format!("{}/{}", root, "iso.db");
    let db = ctx
        .open_database(&mut p, "main", "iso.db", Some(canon), fresh_file_probe())
        .unwrap();
    let plain = db.collection("events");
    let txn = db.start_transaction(&mut p).unwrap();
    let scoped = txn.collection("events");

    scoped.insert_one(&mut p, doc1("n", 1)).unwrap();
    // Before the commit, the non-transactional view does not see the insert.
    let before = plain.find(&mut p, doc1("n", 1), None, None).unwrap();
    assert_eq!(before.len(), 0);

    txn.commit(&mut p).unwrap();
    let after = plain.find(&mut p, doc1("n", 1), None, None).unwrap();
    assert_eq!(after.len(), 1);
}

#[test]
fn collections_are_listed_from_the_engine() {
    let dir = tempfile::tempdir().unwrap();
    let root = canonical_root(&dir);
    let mut p = Persistence::new();
    let ctx = p
        .open_context("ls", root.as_str(), DirProbe::ExistingDir)
        .unwrap();
    let canon = format!("{}/{}", root, "ls.db");
    let db = ctx
        .open_database(&mut p, "main", "ls.db", Some(canon), fresh_file_probe())
        .unwrap();
    let col = db.collection("boxes");
    col.insert_one(&mut p, doc1("x", 1)).unwrap();
    let names = db.collections(&p).unwrap();
    assert!(names.iter().any(|n| n == "boxes"));
}

#[test]
fn specifier_facades_resolve_nested_resources() {
    let dir = tempfile::tempdir().unwrap();
    let root = canonical_root(&dir);
    let mut p = Persistence::new();
    let ctx_spec = ContextSpecifier::Direct { alias: String::from("proj"), path: root.clone() };
    let db_spec = DatabaseSpecifier::Direct {
        alias: String::from("main"),
        path: String::from("data.db"),
    };
    let canon = format!("{}/{}", root, "data.db");
    let d = p
        .database(
            &ctx_spec,
            DirProbe::ExistingDir,
            &db_spec,
            Some(canon.clone()),
            fresh_file_probe(),
        )
        .unwrap();
    assert_eq!(d.name(), "main");

    let col_spec = CollectionSpecifier::Global { name: String::from("items") };
    let col = p
        .collection(
            &ctx_spec,
            DirProbe::ExistingDir,
            &db_spec,
            Some(canon.clone()),
            FileProbe { exists: true, is_file: true },
            &col_spec,
        )
        .unwrap();
    col.insert_one(&mut p, doc1("k", 5)).unwrap();

    let txn = d.start_transaction(&mut p).unwrap();
    let got = p
        .transaction(
            &ctx_spec,
            DirProbe::ExistingDir,
            &db_spec,
            Some(canon.clone()),
            FileProbe { exists: true, is_file: true },
            txn.id().as_str(),
        )
        .unwrap();
    assert_eq!(got.id(), txn.id());

    let tcol_spec = CollectionSpecifier::Transaction {
        transaction: txn.id(),
        name: String::from("items"),
    };
    let tcol = p
        .collection(
            &ctx_spec,
            DirProbe::ExistingDir,
            &db_spec,
            Some(canon),
            FileProbe { exists: true, is_file: true },
            &tcol_spec,
        )
        .unwrap();
    tcol.insert_one(&mut p, doc1("k", 6)).unwrap();
    txn.commit(&mut p).unwrap();
    assert_eq!(col.count_documents(&mut p).unwrap(), 2);
}
