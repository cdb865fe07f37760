//! Collections: a named view resolved on demand against either a database
//! directly or against one of its active transactions. The descriptor keys
//! the resolution; every operation re-resolves, so a closed database or a
//! terminated transaction is observed immediately as an unknown-resource
//! failure. Documents are schemaless payloads handed through to the engine.

use vstd::prelude::*;

use crate::error::Error;
use crate::handles::{Database, Transaction};
use crate::paths::opt_str_view;
use crate::state::{ColResolve, Persistence, resolve_collection};
use crate::types::{OperationCount, UpdateResult};

verus! {

/// A descriptor of a collection: its owning database, its name and, when it
/// is scoped to a transaction, that transaction's id.
pub struct Collection {
    pub database: Database,
    pub name: String,
    pub transaction_id: Option<String>,
}

/// The window that optional skip and limit modifiers cut from a result list:
/// `skip` leading documents are dropped (all of them if fewer), then at most
/// `limit` documents are kept.
pub open spec fn spec_window(
    full: Seq<bson::Document>,
    skip: Option<u64>,
    limit: Option<u64>,
) -> Seq<bson::Document> {
    let s = match skip {
        Option::Some(n) => if n <= full.len() {
            n as int
        } else {
            full.len() as int
        },
        Option::None => 0,
    };
    let e = match limit {
        Option::Some(l) => if s + l <= full.len() {
            s + l
        } else {
            full.len() as int
        },
        Option::None => full.len() as int,
    };
    full.subrange(s, e)
}

/// Applies optional skip and limit modifiers to a materialized result list,
/// keeping document order.
pub fn apply_window(docs: Vec<bson::Document>, skip: Option<u64>, limit: Option<u64>) -> (r: Vec<
    bson::Document,
>)
    ensures
        r@ == spec_window(docs@, skip, limit),
{
    let mut docs = docs;
    let ghost orig = docs@;
    let n = docs.len();
    let start: usize = match skip {
        Option::Some(s) => if s < n as u64 {
            s as usize
        } else {
            n
        },
        Option::None => 0,
    };
    let count: usize = match limit {
        Option::Some(l) => {
            let rem = n - start;
            if l < rem as u64 {
                l as usize
            } else {
                rem
            }
        },
        Option::None => n - start,
    };
    let mut out: Vec<bson::Document> = Vec::new();
    let mut t: usize = 0;
    proof {
        assert(out@ =~= orig.subrange(start as int, start as int));
        assert(docs@ =~= orig.subrange(0, start as int) + orig.subrange(start as int, n as int));
    }
    while t < count
        invariant
            start + count <= n,
            n == orig.len(),
            t <= count,
            out@ == orig.subrange(start as int, start + t),
            docs@ == orig.subrange(0, start as int) + orig.subrange(start + t, n as int),
        decreases count - t,
    {
        let d = docs.remove(start);
        proof {
            assert(docs@.len() == n - start - t - 1 + start);
            assert(d == orig.subrange(start + t, n as int)[0]);
            assert(d == orig[start + t]);
        }
        out.push(d);
        proof {
            assert(out@ =~= orig.subrange(start as int, start + t + 1));
            assert(docs@ =~= orig.subrange(0, start as int) + orig.subrange(
                start + t + 1,
                n as int,
            ));
        }
        t += 1;
    }
    proof {
        assert(out@ == spec_window(orig, skip, limit));
    }
    out
}

impl Collection {
    /// Builds a collection descriptor.
    pub(crate) fn create(database: Database, name: String, transaction_id: Option<String>) -> (r:
        Self)
        ensures
            r.database == database,
            r.name@ == name@,
            r.transaction_id == transaction_id,
    {
        Collection { database, name, transaction_id }
    }

    /// The collection's name.
    pub fn name(&self) -> (r: String)
        ensures
            r@ == self.name@,
    {
        self.name.clone()
    }

    /// Counts the documents of this collection.
    pub fn count_documents(&self, p: &mut Persistence) -> (r: Result<u64, Error>)
        requires
            old(p).inv(),
        ensures
            final(p).inv(),
            final(p)@ == old(p)@,
            match self.resolution(old(p)@) {
                ColResolve::UnknownDb => r matches Err(e) && (e matches Error::UnknownDatabase {
                    reason,
                } && reason@ == self.database.name@),
                ColResolve::UnknownTxn => r matches Err(e) && (
                e matches Error::UnknownTransaction { reason } && (
                self.transaction_id matches Some(tid) && reason@ == tid@)),
                _ => (r matches Err(e) ==> (e matches Error::DatabaseError { .. })),
            },
    {
        let ghost m0 = p@;
        match p.find_db(self.database.context.name.as_str(), self.database.name.as_str()) {
            None => Err(Error::unknown_database(self.database.name.as_str())),
            Some(i) => {
                let col = crate::engine::db_collection(
                    &p.databases[i].database,
                    self.name.as_str(),
                );
                match &self.transaction_id {
                    None => {
                        match crate::engine::col_count(&col) {
                            Ok(v) => {
                                Ok(v)
                            },
                            Err(m) => Err(Error::database_error(m)),
                        }
                    },
                    Some(tid) => {
                        match p.find_txn(
                            self.database.context.name.as_str(),
                            self.database.name.as_str(),
                            tid.as_str(),
                        ) {
                            None => Err(Error::unknown_transaction(tid.as_str())),
                            Some(j) => {
                                let ghost t0 = p.transactions@;
                                let mut entry = p.transactions.remove(j);
                                let out = crate::engine::col_count_in(&col, &mut entry.session);
                                let ghost ev = entry;
                                p.transactions.insert(j, entry);
                                proof {
                                    crate::state::lemma_reinsert_view(
                                        t0,
                                        p.transactions@,
                                        j as int,
                                        ev,
                                    );
                                    assert(p@ =~~= m0);
                                }
                                match out {
                                    Ok(v) => {
                                        Ok(v)
                                    },
                                    Err(m) => Err(Error::database_error(m)),
                                }
                            },
                        }
                    },
                }
            },
        }
    }

    /// Updates up to one document matching `query`; the engine reports a
    /// single count of updated documents, carried in both result fields.
    pub fn update_one(&self, p: &mut Persistence, query: bson::Document, update: bson::Document) -> (r: Result<UpdateResult, Error>)
        requires
            old(p).inv(),
        ensures
            final(p).inv(),
            final(p)@ == old(p)@,
            match self.resolution(old(p)@) {
                ColResolve::UnknownDb => r matches Err(e) && (e matches Error::UnknownDatabase {
                    reason,
                } && reason@ == self.database.name@),
                ColResolve::UnknownTxn => r matches Err(e) && (
                e matches Error::UnknownTransaction { reason } && (
                self.transaction_id matches Some(tid) && reason@ == tid@)),
                _ => (r matches Err(e) ==> (e matches Error::DatabaseError { .. })),
            },
            r matches Ok(u) ==> u.matched == u.modified,
    {
        let ghost m0 = p@;
        match p.find_db(self.database.context.name.as_str(), self.database.name.as_str()) {
            None => Err(Error::unknown_database(self.database.name.as_str())),
            Some(i) => {
                let col = crate::engine::db_collection(
                    &p.databases[i].database,
                    self.name.as_str(),
                );
                match &self.transaction_id {
                    None => {
                        match crate::engine::col_update_one(&col, query, update) {
                            Ok(v) => {
                                Ok(UpdateResult { matched: v, modified: v })
                            },
                            Err(m) => Err(Error::database_error(m)),
                        }
                    },
                    Some(tid) => {
                        match p.find_txn(
                            self.database.context.name.as_str(),
                            self.database.name.as_str(),
                            tid.as_str(),
                        ) {
                            None => Err(Error::unknown_transaction(tid.as_str())),
                            Some(j) => {
                                let ghost t0 = p.transactions@;
                                let mut entry = p.transactions.remove(j);
                                let out = crate::engine::col_update_one_in(&col, query, update, &mut entry.session);
                                let ghost ev = entry;
                                p.transactions.insert(j, entry);
                                proof {
                                    crate::state::lemma_reinsert_view(
                                        t0,
                                        p.transactions@,
                                        j as int,
                                        ev,
                                    );
                                    assert(p@ =~~= m0);
                                }
                                match out {
                                    Ok(v) => {
                                        Ok(UpdateResult { matched: v, modified: v })
                                    },
                                    Err(m) => Err(Error::database_error(m)),
                                }
                            },
                        }
                    },
                }
            },
        }
    }

    /// Updates all documents matching `query`; the engine reports a single
    /// count of updated documents, carried in both result fields.
    pub fn update_many(&self, p: &mut Persistence, query: bson::Document, update: bson::Document) -> (r: Result<UpdateResult, Error>)
        requires
            old(p).inv(),
        ensures
            final(p).inv(),
            final(p)@ == old(p)@,
            match self.resolution(old(p)@) {
                ColResolve::UnknownDb => r matches Err(e) && (e matches Error::UnknownDatabase {
                    reason,
                } && reason@ == self.database.name@),
                ColResolve::UnknownTxn => r matches Err(e) && (
                e matches Error::UnknownTransaction { reason } && (
                self.transaction_id matches Some(tid) && reason@ == tid@)),
                _ => (r matches Err(e) ==> (e matches Error::DatabaseError { .. })),
            },
            r matches Ok(u) ==> u.matched == u.modified,
    {
        let ghost m0 = p@;
        match p.find_db(self.database.context.name.as_str(), self.database.name.as_str()) {
            None => Err(Error::unknown_database(self.database.name.as_str())),
            Some(i) => {
                let col = crate::engine::db_collection(
                    &p.databases[i].database,
                    self.name.as_str(),
                );
                match &self.transaction_id {
                    None => {
                        match crate::engine::col_update_many(&col, query, update) {
                            Ok(v) => {
                                Ok(UpdateResult { matched: v, modified: v })
                            },
                            Err(m) => Err(Error::database_error(m)),
                        }
                    },
                    Some(tid) => {
                        match p.find_txn(
                            self.database.context.name.as_str(),
                            self.database.name.as_str(),
                            tid.as_str(),
                        ) {
                            None => Err(Error::unknown_transaction(tid.as_str())),
                            Some(j) => {
                                let ghost t0 = p.transactions@;
                                let mut entry = p.transactions.remove(j);
                                let out = crate::engine::col_update_many_in(&col, query, update, &mut entry.session);
                                let ghost ev = entry;
                                p.transactions.insert(j, entry);
                                proof {
                                    crate::state::lemma_reinsert_view(
                                        t0,
                                        p.transactions@,
                                        j as int,
                                        ev,
                                    );
                                    assert(p@ =~~= m0);
                                }
                                match out {
                                    Ok(v) => {
                                        Ok(UpdateResult { matched: v, modified: v })
                                    },
                                    Err(m) => Err(Error::database_error(m)),
                                }
                            },
                        }
                    },
                }
            },
        }
    }

    /// Deletes up to one document matching `query`, returning how many were
    /// deleted.
    pub fn delete_one(&self, p: &mut Persistence, query: bson::Document) -> (r: Result<u64, Error>)
        requires
            old(p).inv(),
        ensures
            final(p).inv(),
            final(p)@ == old(p)@,
            match self.resolution(old(p)@) {
                ColResolve::UnknownDb => r matches Err(e) && (e matches Error::UnknownDatabase {
                    reason,
                } && reason@ == self.database.name@),
                ColResolve::UnknownTxn => r matches Err(e) && (
                e matches Error::UnknownTransaction { reason } && (
                self.transaction_id matches Some(tid) && reason@ == tid@)),
                _ => (r matches Err(e) ==> (e matches Error::DatabaseError { .. })),
            },
    {
        let ghost m0 = p@;
        match p.find_db(self.database.context.name.as_str(), self.database.name.as_str()) {
            None => Err(Error::unknown_database(self.database.name.as_str())),
            Some(i) => {
                let col = crate::engine::db_collection(
                    &p.databases[i].database,
                    self.name.as_str(),
                );
                match &self.transaction_id {
                    None => {
                        match crate::engine::col_delete_one(&col, query) {
                            Ok(v) => {
                                Ok(v)
                            },
                            Err(m) => Err(Error::database_error(m)),
                        }
                    },
                    Some(tid) => {
                        match p.find_txn(
                            self.database.context.name.as_str(),
                            self.database.name.as_str(),
                            tid.as_str(),
                        ) {
                            None => Err(Error::unknown_transaction(tid.as_str())),
                            Some(j) => {
                                let ghost t0 = p.transactions@;
                                let mut entry = p.transactions.remove(j);
                                let out = crate::engine::col_delete_one_in(&col, query, &mut entry.session);
                                let ghost ev = entry;
                                p.transactions.insert(j, entry);
                                proof {
                                    crate::state::lemma_reinsert_view(
                                        t0,
                                        p.transactions@,
                                        j as int,
                                        ev,
                                    );
                                    assert(p@ =~~= m0);
                                }
                                match out {
                                    Ok(v) => {
                                        Ok(v)
                                    },
                                    Err(m) => Err(Error::database_error(m)),
                                }
                            },
                        }
                    },
                }
            },
        }
    }

    /// Deletes all documents matching `query`, returning how many were
    /// deleted.
    pub fn delete_many(&self, p: &mut Persistence, query: bson::Document) -> (r: Result<u64, Error>)
        requires
            old(p).inv(),
        ensures
            final(p).inv(),
            final(p)@ == old(p)@,
            match self.resolution(old(p)@) {
                ColResolve::UnknownDb => r matches Err(e) && (e matches Error::UnknownDatabase {
                    reason,
                } && reason@ == self.database.name@),
                ColResolve::UnknownTxn => r matches Err(e) && (
                e matches Error::UnknownTransaction { reason } && (
                self.transaction_id matches Some(tid) && reason@ == tid@)),
                _ => (r matches Err(e) ==> (e matches Error::DatabaseError { .. })),
            },
    {
        let ghost m0 = p@;
        match p.find_db(self.database.context.name.as_str(), self.database.name.as_str()) {
            None => Err(Error::unknown_database(self.database.name.as_str())),
            Some(i) => {
                let col = crate::engine::db_collection(
                    &p.databases[i].database,
                    self.name.as_str(),
                );
                match &self.transaction_id {
                    None => {
                        match crate::engine::col_delete_many(&col, query) {
                            Ok(v) => {
                                Ok(v)
                            },
                            Err(m) => Err(Error::database_error(m)),
                        }
                    },
                    Some(tid) => {
                        match p.find_txn(
                            self.database.context.name.as_str(),
                            self.database.name.as_str(),
                            tid.as_str(),
                        ) {
                            None => Err(Error::unknown_transaction(tid.as_str())),
                            Some(j) => {
                                let ghost t0 = p.transactions@;
                                let mut entry = p.transactions.remove(j);
                                let out = crate::engine::col_delete_many_in(&col, query, &mut entry.session);
                                let ghost ev = entry;
                                p.transactions.insert(j, entry);
                                proof {
                                    crate::state::lemma_reinsert_view(
                                        t0,
                                        p.transactions@,
                                        j as int,
                                        ev,
                                    );
                                    assert(p@ =~~= m0);
                                }
                                match out {
                                    Ok(v) => {
                                        Ok(v)
                                    },
                                    Err(m) => Err(Error::database_error(m)),
                                }
                            },
                        }
                    },
                }
            },
        }
    }

    /// Creates an index over `keys`, with an optional name and uniqueness.
    pub fn create_index(&self, p: &mut Persistence, keys: bson::Document, name: Option<String>, unique: Option<bool>) -> (r: Result<(), Error>)
        requires
            old(p).inv(),
        ensures
            final(p).inv(),
            final(p)@ == old(p)@,
            match self.resolution(old(p)@) {
                ColResolve::UnknownDb => r matches Err(e) && (e matches Error::UnknownDatabase {
                    reason,
                } && reason@ == self.database.name@),
                ColResolve::UnknownTxn => r matches Err(e) && (
                e matches Error::UnknownTransaction { reason } && (
                self.transaction_id matches Some(tid) && reason@ == tid@)),
                _ => (r matches Err(e) ==> (e matches Error::DatabaseError { .. })),
            },
    {
        let ghost m0 = p@;
        match p.find_db(self.database.context.name.as_str(), self.database.name.as_str()) {
            None => Err(Error::unknown_database(self.database.name.as_str())),
            Some(i) => {
                let col = crate::engine::db_collection(
                    &p.databases[i].database,
                    self.name.as_str(),
                );
                match &self.transaction_id {
                    None => {
                        match crate::engine::col_create_index(&col, keys, name, unique) {
                            Ok(v) => {
                                Ok(v)
                            },
                            Err(m) => Err(Error::database_error(m)),
                        }
                    },
                    Some(tid) => {
                        match p.find_txn(
                            self.database.context.name.as_str(),
                            self.database.name.as_str(),
                            tid.as_str(),
                        ) {
                            None => Err(Error::unknown_transaction(tid.as_str())),
                            Some(j) => {
                                let ghost t0 = p.transactions@;
                                let mut entry = p.transactions.remove(j);
                                let out = crate::engine::col_create_index_in(&col, keys, name, unique, &mut entry.session);
                                let ghost ev = entry;
                                p.transactions.insert(j, entry);
                                proof {
                                    crate::state::lemma_reinsert_view(
                                        t0,
                                        p.transactions@,
                                        j as int,
                                        ev,
                                    );
                                    assert(p@ =~~= m0);
                                }
                                match out {
                                    Ok(v) => {
                                        Ok(v)
                                    },
                                    Err(m) => Err(Error::database_error(m)),
                                }
                            },
                        }
                    },
                }
            },
        }
    }

    /// Drops the index with the given name.
    pub fn drop_index(&self, p: &mut Persistence, name: &str) -> (r: Result<(), Error>)
        requires
            old(p).inv(),
        ensures
            final(p).inv(),
            final(p)@ == old(p)@,
            match self.resolution(old(p)@) {
                ColResolve::UnknownDb => r matches Err(e) && (e matches Error::UnknownDatabase {
                    reason,
                } && reason@ == self.database.name@),
                ColResolve::UnknownTxn => r matches Err(e) && (
                e matches Error::UnknownTransaction { reason } && (
                self.transaction_id matches Some(tid) && reason@ == tid@)),
                _ => (r matches Err(e) ==> (e matches Error::DatabaseError { .. })),
            },
    {
        let ghost m0 = p@;
        match p.find_db(self.database.context.name.as_str(), self.database.name.as_str()) {
            None => Err(Error::unknown_database(self.database.name.as_str())),
            Some(i) => {
                let col = crate::engine::db_collection(
                    &p.databases[i].database,
                    self.name.as_str(),
                );
                match &self.transaction_id {
                    None => {
                        match crate::engine::col_drop_index(&col, name) {
                            Ok(v) => {
                                Ok(v)
                            },
                            Err(m) => Err(Error::database_error(m)),
                        }
                    },
                    Some(tid) => {
                        match p.find_txn(
                            self.database.context.name.as_str(),
                            self.database.name.as_str(),
                            tid.as_str(),
                        ) {
                            None => Err(Error::unknown_transaction(tid.as_str())),
                            Some(j) => {
                                let ghost t0 = p.transactions@;
                                let mut entry = p.transactions.remove(j);
                                let out = crate::engine::col_drop_index_in(&col, name, &mut entry.session);
                                let ghost ev = entry;
                                p.transactions.insert(j, entry);
                                proof {
                                    crate::state::lemma_reinsert_view(
                                        t0,
                                        p.transactions@,
                                        j as int,
                                        ev,
                                    );
                                    assert(p@ =~~= m0);
                                }
                                match out {
                                    Ok(v) => {
                                        Ok(v)
                                    },
                                    Err(m) => Err(Error::database_error(m)),
                                }
                            },
                        }
                    },
                }
            },
        }
    }

    /// Drops this collection and all its documents.
    pub fn drop(&self, p: &mut Persistence) -> (r: Result<(), Error>)
        requires
            old(p).inv(),
        ensures
            final(p).inv(),
            final(p)@ == old(p)@,
            match self.resolution(old(p)@) {
                ColResolve::UnknownDb => r matches Err(e) && (e matches Error::UnknownDatabase {
                    reason,
                } && reason@ == self.database.name@),
                ColResolve::UnknownTxn => r matches Err(e) && (
                e matches Error::UnknownTransaction { reason } && (
                self.transaction_id matches Some(tid) && reason@ == tid@)),
                _ => (r matches Err(e) ==> (e matches Error::DatabaseError { .. })),
            },
    {
        let ghost m0 = p@;
        match p.find_db(self.database.context.name.as_str(), self.database.name.as_str()) {
            None => Err(Error::unknown_database(self.database.name.as_str())),
            Some(i) => {
                let col = crate::engine::db_collection(
                    &p.databases[i].database,
                    self.name.as_str(),
                );
                match &self.transaction_id {
                    None => {
                        match crate::engine::col_drop(&col) {
                            Ok(v) => {
                                Ok(v)
                            },
                            Err(m) => Err(Error::database_error(m)),
                        }
                    },
                    Some(tid) => {
                        match p.find_txn(
                            self.database.context.name.as_str(),
                            self.database.name.as_str(),
                            tid.as_str(),
                        ) {
                            None => Err(Error::unknown_transaction(tid.as_str())),
                            Some(j) => {
                                let ghost t0 = p.transactions@;
                                let mut entry = p.transactions.remove(j);
                                let out = crate::engine::col_drop_in(&col, &mut entry.session);
                                let ghost ev = entry;
                                p.transactions.insert(j, entry);
                                proof {
                                    crate::state::lemma_reinsert_view(
                                        t0,
                                        p.transactions@,
                                        j as int,
                                        ev,
                                    );
                                    assert(p@ =~~= m0);
                                }
                                match out {
                                    Ok(v) => {
                                        Ok(v)
                                    },
                                    Err(m) => Err(Error::database_error(m)),
                                }
                            },
                        }
                    },
                }
            },
        }
    }

    /// Inserts one document, returning the generated id.
    pub fn insert_one(&self, p: &mut Persistence, doc: bson::Document) -> (r: Result<bson::Bson, Error>)
        requires
            old(p).inv(),
        ensures
            final(p).inv(),
            final(p)@ == old(p)@,
            match self.resolution(old(p)@) {
                ColResolve::UnknownDb => r matches Err(e) && (e matches Error::UnknownDatabase {
                    reason,
                } && reason@ == self.database.name@),
                ColResolve::UnknownTxn => r matches Err(e) && (
                e matches Error::UnknownTransaction { reason } && (
                self.transaction_id matches Some(tid) && reason@ == tid@)),
                _ => (r matches Err(e) ==> (e matches Error::DatabaseError { .. })),
            },
    {
        let ghost m0 = p@;
        match p.find_db(self.database.context.name.as_str(), self.database.name.as_str()) {
            None => Err(Error::unknown_database(self.database.name.as_str())),
            Some(i) => {
                let col = crate::engine::db_collection(
                    &p.databases[i].database,
                    self.name.as_str(),
                );
                match &self.transaction_id {
                    None => {
                        match crate::engine::col_insert_one(&col, doc) {
                            Ok(v) => {
                                Ok(v)
                            },
                            Err(m) => Err(Error::database_error(m)),
                        }
                    },
                    Some(tid) => {
                        match p.find_txn(
                            self.database.context.name.as_str(),
                            self.database.name.as_str(),
                            tid.as_str(),
                        ) {
                            None => Err(Error::unknown_transaction(tid.as_str())),
                            Some(j) => {
                                let ghost t0 = p.transactions@;
                                let mut entry = p.transactions.remove(j);
                                let out = crate::engine::col_insert_one_in(&col, doc, &mut entry.session);
                                let ghost ev = entry;
                                p.transactions.insert(j, entry);
                                proof {
                                    crate::state::lemma_reinsert_view(
                                        t0,
                                        p.transactions@,
                                        j as int,
                                        ev,
                                    );
                                    assert(p@ =~~= m0);
                                }
                                match out {
                                    Ok(v) => {
                                        Ok(v)
                                    },
                                    Err(m) => Err(Error::database_error(m)),
                                }
                            },
                        }
                    },
                }
            },
        }
    }

    /// Inserts the given documents in order, returning one generated id per
    /// input index.
    pub fn insert_many(&self, p: &mut Persistence, docs: Vec<bson::Document>) -> (r: Result<Vec<(usize, bson::Bson)>, Error>)
        requires
            old(p).inv(),
        ensures
            final(p).inv(),
            final(p)@ == old(p)@,
            match self.resolution(old(p)@) {
                ColResolve::UnknownDb => r matches Err(e) && (e matches Error::UnknownDatabase {
                    reason,
                } && reason@ == self.database.name@),
                ColResolve::UnknownTxn => r matches Err(e) && (
                e matches Error::UnknownTransaction { reason } && (
                self.transaction_id matches Some(tid) && reason@ == tid@)),
                _ => (r matches Err(e) ==> (e matches Error::DatabaseError { .. })),
            },
            r matches Ok(ids) ==> ids@.len() == docs@.len(),
    {
        let ghost m0 = p@;
        match p.find_db(self.database.context.name.as_str(), self.database.name.as_str()) {
            None => Err(Error::unknown_database(self.database.name.as_str())),
            Some(i) => {
                let col = crate::engine::db_collection(
                    &p.databases[i].database,
                    self.name.as_str(),
                );
                match &self.transaction_id {
                    None => {
                        match crate::engine::col_insert_many(&col, docs) {
                            Ok(v) => {
                                Ok(v)
                            },
                            Err(m) => Err(Error::database_error(m)),
                        }
                    },
                    Some(tid) => {
                        match p.find_txn(
                            self.database.context.name.as_str(),
                            self.database.name.as_str(),
                            tid.as_str(),
                        ) {
                            None => Err(Error::unknown_transaction(tid.as_str())),
                            Some(j) => {
                                let ghost t0 = p.transactions@;
                                let mut entry = p.transactions.remove(j);
                                let out = crate::engine::col_insert_many_in(&col, docs, &mut entry.session);
                                let ghost ev = entry;
                                p.transactions.insert(j, entry);
                                proof {
                                    crate::state::lemma_reinsert_view(
                                        t0,
                                        p.transactions@,
                                        j as int,
                                        ev,
                                    );
                                    assert(p@ =~~= m0);
                                }
                                match out {
                                    Ok(v) => {
                                        Ok(v)
                                    },
                                    Err(m) => Err(Error::database_error(m)),
                                }
                            },
                        }
                    },
                }
            },
        }
    }

    /// Finds all documents matching `filter`, materialized eagerly, with the
    /// optional skip and limit modifiers applied to the result list in
    /// order.
    pub fn find(&self, p: &mut Persistence, filter: bson::Document, skip: Option<u64>, limit: Option<u64>) -> (r: Result<Vec<bson::Document>, Error>)
        requires
            old(p).inv(),
        ensures
            final(p).inv(),
            final(p)@ == old(p)@,
            match self.resolution(old(p)@) {
                ColResolve::UnknownDb => r matches Err(e) && (e matches Error::UnknownDatabase {
                    reason,
                } && reason@ == self.database.name@),
                ColResolve::UnknownTxn => r matches Err(e) && (
                e matches Error::UnknownTransaction { reason } && (
                self.transaction_id matches Some(tid) && reason@ == tid@)),
                _ => (r matches Err(e) ==> (e matches Error::DatabaseError { .. })),
            },
            r matches Ok(v) ==> exists|full: Seq<bson::Document>|
                v@ == #[trigger] spec_window(full, skip, limit),
    {
        let ghost m0 = p@;
        match p.find_db(self.database.context.name.as_str(), self.database.name.as_str()) {
            None => Err(Error::unknown_database(self.database.name.as_str())),
            Some(i) => {
                let col = crate::engine::db_collection(
                    &p.databases[i].database,
                    self.name.as_str(),
                );
                match &self.transaction_id {
                    None => {
                        match crate::engine::col_find_all(&col, filter) {
                            Ok(v) => {
                                let ghost fv = v@;
                                let w = apply_window(v, skip, limit);
                                proof {
                                    assert(w@ == spec_window(fv, skip, limit));
                                }
                                Ok(w)
                            },
                            Err(m) => Err(Error::database_error(m)),
                        }
                    },
                    Some(tid) => {
                        match p.find_txn(
                            self.database.context.name.as_str(),
                            self.database.name.as_str(),
                            tid.as_str(),
                        ) {
                            None => Err(Error::unknown_transaction(tid.as_str())),
                            Some(j) => {
                                let ghost t0 = p.transactions@;
                                let mut entry = p.transactions.remove(j);
                                let out = crate::engine::col_find_all_in(&col, filter, &mut entry.session);
                                let ghost ev = entry;
                                p.transactions.insert(j, entry);
                                proof {
                                    crate::state::lemma_reinsert_view(
                                        t0,
                                        p.transactions@,
                                        j as int,
                                        ev,
                                    );
                                    assert(p@ =~~= m0);
                                }
                                match out {
                                    Ok(v) => {
                                        let ghost fv = v@;
                                let w = apply_window(v, skip, limit);
                                proof {
                                    assert(w@ == spec_window(fv, skip, limit));
                                }
                                Ok(w)
                                    },
                                    Err(m) => Err(Error::database_error(m)),
                                }
                            },
                        }
                    },
                }
            },
        }
    }

    /// Finds a single document matching `filter`.
    pub fn find_one(&self, p: &mut Persistence, filter: bson::Document) -> (r: Result<Option<bson::Document>, Error>)
        requires
            old(p).inv(),
        ensures
            final(p).inv(),
            final(p)@ == old(p)@,
            match self.resolution(old(p)@) {
                ColResolve::UnknownDb => r matches Err(e) && (e matches Error::UnknownDatabase {
                    reason,
                } && reason@ == self.database.name@),
                ColResolve::UnknownTxn => r matches Err(e) && (
                e matches Error::UnknownTransaction { reason } && (
                self.transaction_id matches Some(tid) && reason@ == tid@)),
                _ => (r matches Err(e) ==> (e matches Error::DatabaseError { .. })),
            },
    {
        let ghost m0 = p@;
        match p.find_db(self.database.context.name.as_str(), self.database.name.as_str()) {
            None => Err(Error::unknown_database(self.database.name.as_str())),
            Some(i) => {
                let col = crate::engine::db_collection(
                    &p.databases[i].database,
                    self.name.as_str(),
                );
                match &self.transaction_id {
                    None => {
                        match crate::engine::col_find_one(&col, filter) {
                            Ok(v) => {
                                Ok(v)
                            },
                            Err(m) => Err(Error::database_error(m)),
                        }
                    },
                    Some(tid) => {
                        match p.find_txn(
                            self.database.context.name.as_str(),
                            self.database.name.as_str(),
                            tid.as_str(),
                        ) {
                            None => Err(Error::unknown_transaction(tid.as_str())),
                            Some(j) => {
                                let ghost t0 = p.transactions@;
                                let mut entry = p.transactions.remove(j);
                                let out = crate::engine::col_find_one_in(&col, filter, &mut entry.session);
                                let ghost ev = entry;
                                p.transactions.insert(j, entry);
                                proof {
                                    crate::state::lemma_reinsert_view(
                                        t0,
                                        p.transactions@,
                                        j as int,
                                        ev,
                                    );
                                    assert(p@ =~~= m0);
                                }
                                match out {
                                    Ok(v) => {
                                        Ok(v)
                                    },
                                    Err(m) => Err(Error::database_error(m)),
                                }
                            },
                        }
                    },
                }
            },
        }
    }

    /// Updates one or many documents by the requested operation count; the
    /// engine reports a single count of updated documents, carried in both
    /// result fields.
    pub fn update_documents(
        &self,
        p: &mut Persistence,
        query: bson::Document,
        update: bson::Document,
        operations: OperationCount,
    ) -> (r: Result<UpdateResult, Error>)
        requires
            old(p).inv(),
        ensures
            final(p).inv(),
            final(p)@ == old(p)@,
            match self.resolution(old(p)@) {
                ColResolve::UnknownDb => r matches Err(e) && (e matches Error::UnknownDatabase {
                    reason,
                } && reason@ == self.database.name@),
                ColResolve::UnknownTxn => r matches Err(e) && (
                e matches Error::UnknownTransaction { reason } && (
                self.transaction_id matches Some(tid) && reason@ == tid@)),
                _ => (r matches Err(e) ==> (e matches Error::DatabaseError { .. })),
            },
            r matches Ok(u) ==> u.matched == u.modified,
    {
        match operations {
            OperationCount::One => self.update_one(p, query, update),
            OperationCount::Many => self.update_many(p, query, update),
        }
    }

    /// Deletes one or many documents by the requested operation count,
    /// returning how many were deleted.
    pub fn delete_documents(
        &self,
        p: &mut Persistence,
        query: bson::Document,
        operations: OperationCount,
    ) -> (r: Result<u64, Error>)
        requires
            old(p).inv(),
        ensures
            final(p).inv(),
            final(p)@ == old(p)@,
            match self.resolution(old(p)@) {
                ColResolve::UnknownDb => r matches Err(e) && (e matches Error::UnknownDatabase {
                    reason,
                } && reason@ == self.database.name@),
                ColResolve::UnknownTxn => r matches Err(e) && (
                e matches Error::UnknownTransaction { reason } && (
                self.transaction_id matches Some(tid) && reason@ == tid@)),
                _ => (r matches Err(e) ==> (e matches Error::DatabaseError { .. })),
            },
    {
        match operations {
            OperationCount::One => self.delete_one(p, query),
            OperationCount::Many => self.delete_many(p, query),
        }
    }

    /// How this collection resolves in the given registry state.
    pub open spec fn resolution(&self, m: crate::state::Model) -> ColResolve {
        resolve_collection(
            m,
            self.database.context.name@,
            self.database.name@,
            opt_str_view(self.transaction_id),
        )
    }
}

impl Database {
    /// A collection of this database, bound directly to the connection.
    pub fn collection(&self, name: &str) -> (r: Collection)
        ensures
            r.database.context.name@ == self.context.name@,
            r.database.context.path@ == self.context.path@,
            r.database.name@ == self.name@,
            r.database.path@ == self.path@,
            r.name@ == name@,
            r.transaction_id matches None,
    {
        Collection::create(
            Database::create(
                crate::handles::Context::create(self.context.name.clone(), self.context.path.clone()),
                self.name.clone(),
                self.path.clone(),
            ),
            name.to_owned(),
            None,
        )
    }
}

impl Transaction {
    /// A collection of the owning database, scoped to this transaction.
    pub fn collection(&self, name: &str) -> (r: Collection)
        ensures
            r.database.context.name@ == self.database.context.name@,
            r.database.context.path@ == self.database.context.path@,
            r.database.name@ == self.database.name@,
            r.database.path@ == self.database.path@,
            r.name@ == name@,
            r.transaction_id matches Some(tid) && tid@ == self.id@,
    {
        Collection::create(
            Database::create(
                crate::handles::Context::create(
                    self.database.context.name.clone(),
                    self.database.context.path.clone(),
                ),
                self.database.name.clone(),
                self.database.path.clone(),
            ),
            name.to_owned(),
            Some(self.id.clone()),
        )
    }
}

impl Clone for Collection {
    /// Another descriptor of the same collection.
    fn clone(&self) -> (r: Self)
        ensures
            r.database.context.name@ == self.database.context.name@,
            r.database.context.path@ == self.database.context.path@,
            r.database.name@ == self.database.name@,
            r.database.path@ == self.database.path@,
            r.name@ == self.name@,
            self.transaction_id matches Some(t) ==> (r.transaction_id matches Some(t2) && t2@
                == t@),
            self.transaction_id matches None ==> r.transaction_id matches None,
    {
        let transaction_id = match &self.transaction_id {
            Some(t) => Some(t.clone()),
            None => None,
        };
        Collection { database: self.database.clone(), name: self.name.clone(), transaction_id }
    }
}

} // verus!
