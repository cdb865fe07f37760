//! The narrow trusted interface to the embedded database engine and to the
//! handful of outside values the registries carry.
//!
//! Every function here is a wrapper around one outside call; Verus believes
//! the stated contract and does not read the body. The engine's behaviour on
//! disk (what a query matches, what a commit persists) is deliberately left
//! unstated: the registry logic is verified for every outcome of these calls.

use vstd::prelude::*;

verus! {

/// The engine's live database connection, held opaquely: the descriptor
/// types of this library use the engine's type names, so the connection is
/// wrapped instead of declared.
#[verifier::external_body]
pub struct EngineConnection {
    inner: polodb_core::Database,
}

#[verifier::external_type_specification]
#[verifier::external_body]
/// The engine's session type; one active transaction runs per session.
pub struct ExClientSession(polodb_core::ClientSession);

/// The engine's handle for one named collection of schemaless documents,
/// held opaquely for the same reason as the connection.
#[verifier::external_body]
pub struct EngineCollection {
    inner: polodb_core::Collection<bson::Document>,
}

#[verifier::external_type_specification]
#[verifier::external_body]
/// A schemaless document, the payload of every collection operation.
pub struct ExDocument(bson::Document);

#[verifier::external_type_specification]
#[verifier::external_body]
/// A single schemaless value, such as a generated document id.
pub struct ExBson(bson::Bson);

#[verifier::external_type_specification]
#[verifier::external_body]
/// An open file of the asynchronous runtime.
pub struct ExFile(tokio::fs::File);

#[verifier::external_type_specification]
#[verifier::external_body]
#[verifier::reject_recursive_types(T)]
/// A shareable handle to a duplicable asynchronous value.
pub struct ExAsyncArc<T>(async_dup::Arc<T>);

#[verifier::external_type_specification]
#[verifier::external_body]
#[verifier::reject_recursive_types(T)]
/// A mutual-exclusion wrapper for a duplicable asynchronous value.
pub struct ExAsyncMutex<T>(async_dup::Mutex<T>);

/// A shareable reference to an open file, guarded for exclusive access
/// during any single read or write call.
pub type FileRef = async_dup::Arc<async_dup::Mutex<tokio::fs::File>>;

/// Relies on `polodb_core::Database::open_file`: opens (creating if missing)
/// the database at the given absolute path.
#[verifier::external_body]
pub(crate) fn db_open(path: &str) -> Result<EngineConnection, String> {
    let db = polodb_core::Database::open_file(path).map_err(|e| e.to_string())?;
    Ok(EngineConnection { inner: db })
}

/// Relies on `polodb_core::Database::list_collection_names`.
#[verifier::external_body]
pub(crate) fn db_list_collections(db: &EngineConnection) -> Result<
    Vec<String>,
    String,
> {
    db.inner.list_collection_names().map_err(|e| e.to_string())
}

/// Relies on `polodb_core::Database::collection`: a handle for the named
/// collection, bound directly to the connection.
#[verifier::external_body]
pub(crate) fn db_collection(db: &EngineConnection, name: &str) -> EngineCollection {
    EngineCollection { inner: db.inner.collection::<bson::Document>(name) }
}

/// Relies on `polodb_core::Database::start_session`.
#[verifier::external_body]
pub(crate) fn db_start_session(db: &EngineConnection) -> Result<
    polodb_core::ClientSession,
    String,
> {
    db.inner.start_session().map_err(|e| e.to_string())
}

/// Relies on `polodb_core::ClientSession::start_transaction` with the
/// engine's default transaction type.
#[verifier::external_body]
pub(crate) fn session_begin(s: &mut polodb_core::ClientSession) -> Result<
    (),
    String,
> {
    s.start_transaction(None).map_err(|e| e.to_string())
}

/// Relies on `polodb_core::ClientSession::commit_transaction`.
#[verifier::external_body]
pub(crate) fn session_commit(s: &mut polodb_core::ClientSession) -> Result<
    (),
    String,
> {
    s.commit_transaction().map_err(|e| e.to_string())
}

/// Relies on `polodb_core::ClientSession::abort_transaction`.
#[verifier::external_body]
pub(crate) fn session_abort(s: &mut polodb_core::ClientSession) -> Result<
    (),
    String,
> {
    s.abort_transaction().map_err(|e| e.to_string())
}

/// Relies on `polodb_core::Collection::count_documents`.
#[verifier::external_body]
pub(crate) fn col_count(c: &EngineCollection) -> Result<
    u64,
    String,
> {
    c.inner.count_documents().map_err(|e| e.to_string())
}

/// Relies on `polodb_core::Collection::count_documents_with_session`.
#[verifier::external_body]
pub(crate) fn col_count_in(
    c: &EngineCollection,
    s: &mut polodb_core::ClientSession,
) -> Result<u64, String> {
    c.inner.count_documents_with_session(s).map_err(|e| e.to_string())
}

/// Relies on `polodb_core::Collection::update_one`; the engine reports the
/// number of documents it modified.
#[verifier::external_body]
pub(crate) fn col_update_one(
    c: &EngineCollection,
    query: bson::Document,
    update: bson::Document,
) -> Result<u64, String> {
    c.inner.update_one(query, update).map(|r| r.modified_count).map_err(|e| e.to_string())
}

/// Relies on `polodb_core::Collection::update_one_with_session`.
#[verifier::external_body]
pub(crate) fn col_update_one_in(
    c: &EngineCollection,
    query: bson::Document,
    update: bson::Document,
    s: &mut polodb_core::ClientSession,
) -> Result<u64, String> {
    c.inner.update_one_with_session(query, update, s).map(|r| r.modified_count).map_err(|e| e.to_string())
}

/// Relies on `polodb_core::Collection::update_many`.
#[verifier::external_body]
pub(crate) fn col_update_many(
    c: &EngineCollection,
    query: bson::Document,
    update: bson::Document,
) -> Result<u64, String> {
    c.inner.update_many(query, update).map(|r| r.modified_count).map_err(|e| e.to_string())
}

/// Relies on `polodb_core::Collection::update_many_with_session`.
#[verifier::external_body]
pub(crate) fn col_update_many_in(
    c: &EngineCollection,
    query: bson::Document,
    update: bson::Document,
    s: &mut polodb_core::ClientSession,
) -> Result<u64, String> {
    c.inner.update_many_with_session(query, update, s).map(|r| r.modified_count).map_err(|e| e.to_string())
}

/// Relies on `polodb_core::Collection::delete_one`; the engine reports the
/// number of documents it deleted.
#[verifier::external_body]
pub(crate) fn col_delete_one(
    c: &EngineCollection,
    query: bson::Document,
) -> Result<u64, String> {
    c.inner.delete_one(query).map(|r| r.deleted_count).map_err(|e| e.to_string())
}

/// Relies on `polodb_core::Collection::delete_one_with_session`.
#[verifier::external_body]
pub(crate) fn col_delete_one_in(
    c: &EngineCollection,
    query: bson::Document,
    s: &mut polodb_core::ClientSession,
) -> Result<u64, String> {
    c.inner.delete_one_with_session(query, s).map(|r| r.deleted_count).map_err(|e| e.to_string())
}

/// Relies on `polodb_core::Collection::delete_many`.
#[verifier::external_body]
pub(crate) fn col_delete_many(
    c: &EngineCollection,
    query: bson::Document,
) -> Result<u64, String> {
    c.inner.delete_many(query).map(|r| r.deleted_count).map_err(|e| e.to_string())
}

/// Relies on `polodb_core::Collection::delete_many_with_session`.
#[verifier::external_body]
pub(crate) fn col_delete_many_in(
    c: &EngineCollection,
    query: bson::Document,
    s: &mut polodb_core::ClientSession,
) -> Result<u64, String> {
    c.inner.delete_many_with_session(query, s).map(|r| r.deleted_count).map_err(|e| e.to_string())
}

/// Relies on `polodb_core::Collection::create_index`, building the index
/// model from the given keys, optional name and optional uniqueness.
#[verifier::external_body]
pub(crate) fn col_create_index(
    c: &EngineCollection,
    keys: bson::Document,
    name: Option<String>,
    unique: Option<bool>,
) -> Result<(), String> {
    c.inner.create_index(polodb_core::IndexModel {
        keys,
        options: Some(polodb_core::IndexOptions { name, unique }),
    }).map_err(|e| e.to_string())
}

/// Relies on `polodb_core::Collection::create_index_with_session`.
#[verifier::external_body]
pub(crate) fn col_create_index_in(
    c: &EngineCollection,
    keys: bson::Document,
    name: Option<String>,
    unique: Option<bool>,
    s: &mut polodb_core::ClientSession,
) -> Result<(), String> {
    let model = polodb_core::IndexModel {
        keys,
        options: Some(polodb_core::IndexOptions { name, unique }),
    };
    c.inner.create_index_with_session(model, s).map_err(|e| e.to_string())
}

/// Relies on `polodb_core::Collection::drop_index`.
#[verifier::external_body]
pub(crate) fn col_drop_index(
    c: &EngineCollection,
    name: &str,
) -> Result<(), String> {
    c.inner.drop_index(name).map_err(|e| e.to_string())
}

/// Relies on `polodb_core::Collection::drop_index_with_session`.
#[verifier::external_body]
pub(crate) fn col_drop_index_in(
    c: &EngineCollection,
    name: &str,
    s: &mut polodb_core::ClientSession,
) -> Result<(), String> {
    c.inner.drop_index_with_session(name, s).map_err(|e| e.to_string())
}

/// Relies on `polodb_core::Collection::drop`.
#[verifier::external_body]
pub(crate) fn col_drop(c: &EngineCollection) -> Result<
    (),
    String,
> {
    c.inner.drop().map_err(|e| e.to_string())
}

/// Relies on `polodb_core::Collection::drop_with_session`.
#[verifier::external_body]
pub(crate) fn col_drop_in(
    c: &EngineCollection,
    s: &mut polodb_core::ClientSession,
) -> Result<(), String> {
    c.inner.drop_with_session(s).map_err(|e| e.to_string())
}

/// Relies on `polodb_core::Collection::insert_one`: on success the engine
/// returns the `_id` of the inserted document.
#[verifier::external_body]
pub(crate) fn col_insert_one(
    c: &EngineCollection,
    doc: bson::Document,
) -> Result<bson::Bson, String> {
    c.inner.insert_one(doc).map(|r| r.inserted_id).map_err(|e| e.to_string())
}

/// Relies on `polodb_core::Collection::insert_one_with_session`.
#[verifier::external_body]
pub(crate) fn col_insert_one_in(
    c: &EngineCollection,
    doc: bson::Document,
    s: &mut polodb_core::ClientSession,
) -> Result<bson::Bson, String> {
    c.inner.insert_one_with_session(doc, s).map(|r| r.inserted_id).map_err(|e| e.to_string())
}

/// Relies on `polodb_core::Collection::insert_many`: the engine inserts the
/// documents in order and returns one generated id per input index.
#[verifier::external_body]
pub(crate) fn col_insert_many(
    c: &EngineCollection,
    docs: Vec<bson::Document>,
) -> (r: Result<Vec<(usize, bson::Bson)>, String>)
    ensures
        r matches Ok(ids) ==> ids@.len() == docs@.len(),
{
    let res = c.inner.insert_many(docs).map_err(|e| e.to_string())?;
    Ok(res.inserted_ids.into_iter().collect())
}

/// Relies on `polodb_core::Collection::insert_many_with_session`.
#[verifier::external_body]
pub(crate) fn col_insert_many_in(
    c: &EngineCollection,
    docs: Vec<bson::Document>,
    s: &mut polodb_core::ClientSession,
) -> (r: Result<Vec<(usize, bson::Bson)>, String>)
    ensures
        r matches Ok(ids) ==> ids@.len() == docs@.len(),
{
    let res = c.inner.insert_many_with_session(docs, s).map_err(|e| e.to_string())?;
    Ok(res.inserted_ids.into_iter().collect())
}

/// Relies on `polodb_core::Collection::find` and the cursor it returns: all
/// matching documents, materialized eagerly.
#[verifier::external_body]
pub(crate) fn col_find_all(
    c: &EngineCollection,
    filter: bson::Document,
) -> Result<Vec<bson::Document>, String> {
    let cursor = c.inner.find(filter).map_err(|e| e.to_string())?;
    cursor.collect::<polodb_core::Result<Vec<bson::Document>>>().map_err(|e| e.to_string())
}

/// Relies on `polodb_core::Collection::find_with_session` and the session
/// cursor it returns.
#[verifier::external_body]
pub(crate) fn col_find_all_in(
    c: &EngineCollection,
    filter: bson::Document,
    s: &mut polodb_core::ClientSession,
) -> Result<Vec<bson::Document>, String> {
    let mut cursor = c.inner.find_with_session(filter, s).map_err(|e| e.to_string())?;
    let docs: polodb_core::Result<Vec<bson::Document>> = cursor.iter(s).collect();
    docs.map_err(|e| e.to_string())
}

/// Relies on `polodb_core::Collection::find_one`.
#[verifier::external_body]
pub(crate) fn col_find_one(
    c: &EngineCollection,
    filter: bson::Document,
) -> Result<Option<bson::Document>, String> {
    c.inner.find_one(filter).map_err(|e| e.to_string())
}

/// Relies on `polodb_core::Collection::find_one_with_session`.
#[verifier::external_body]
pub(crate) fn col_find_one_in(
    c: &EngineCollection,
    filter: bson::Document,
    s: &mut polodb_core::ClientSession,
) -> Result<Option<bson::Document>, String> {
    c.inner.find_one_with_session(filter, s).map_err(|e| e.to_string())
}

/// Relies on `bson::Uuid::new` and its canonical textual rendering: a random
/// identifier; nothing is promised of its value.
#[verifier::external_body]
pub(crate) fn fresh_id() -> String {
    bson::Uuid::new().to_string()
}

/// Relies on `Clone` of `async_dup::Arc`: another handle to the same open
/// file.
#[verifier::external_body]
pub(crate) fn file_ref_clone(h: &FileRef) -> FileRef {
    h.clone()
}

/// Relies on `String::from_utf8`: succeeds exactly on valid UTF-8 input,
/// decoding it.
#[verifier::external_body]
pub(crate) fn string_from_utf8(bytes: Vec<u8>) -> (r: Result<String, ()>)
    ensures
        match r {
            Ok(s) => vstd::utf8::valid_utf8(bytes@) && s@ == vstd::utf8::decode_utf8(bytes@),
            Err(_) => !vstd::utf8::valid_utf8(bytes@),
        },
{
    match String::from_utf8(bytes) {
        Ok(s) => Ok(s),
        Err(_) => Err(()),
    }
}

} // verus!
