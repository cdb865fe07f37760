//! Registry operations on the process-wide state: opening and fetching
//! contexts, and dispatching a context specifier.

use vstd::prelude::*;
use vstd::string::StringExecFns;

use crate::error::Error;
use crate::handles::{Context, Database, FileHandle, Transaction};
use crate::paths::{PathOutcome, opt_str_view, resolve_outcome};
use crate::state::{
    ContextDB, ContextState, Model, ModelContext, ModelDb, Persistence, ctxs_view, dbs_view,
    ContextFileHandle, EndTxnRes, ModelFile, ModelTxn, TransactionEntry, end_txn_res, end_txn_tr,
    files_view, lemma_files_unique_push, lemma_files_unique_remove, lemma_files_unique_update,
    register_file_tr, ctx_stage_name, ctx_stage_next, ctx_stage_ok, ctx_stage_root,
    db_stage_alias, db_stage_next, db_stage_ok, db_stage_path, lemma_ctxs_unique_push,
    lemma_dbs_unique_push, lemma_dbs_unique_remove, lemma_open_database_registers,
    lemma_txns_unique_push,
    lemma_txns_unique_remove, open_context_ok, open_context_tr, open_database_ok,
    open_database_tr, probe_blocks, start_txn_tr, survives_pred, txns_view,
};
use crate::types::{CollectionSpecifier, ContextSpecifier, DatabaseSpecifier, DirProbe, FileHandleMode, FileOpenPlan, FileProbe};
use crate::collection::Collection;
use crate::engine::FileRef;

verus! {

impl Persistence {
    /// Opens a context at a path, or returns the existing context if it is
    /// already open at that path; asking for an existing context under a
    /// different path fails without changing anything. For a new name the
    /// directory facts decide: an existing directory or a freshly created
    /// one registers the context, anything else fails.
    pub fn open_context(&mut self, name: &str, path: &str, probe: DirProbe) -> (r: Result<
        Context,
        Error,
    >)
        requires
            old(self).inv(),
        ensures
            final(self).inv(),
            final(self)@ == open_context_tr(old(self)@, name@, path@, probe),
            (r matches Ok(_)) == open_context_ok(old(self)@, name@, path@, probe),
            r matches Ok(c) ==> c.name@ == name@ && c.path@ == path@,
            r matches Err(e) ==> e matches Error::OpenContext { name: n, path: p, reason: s }
                && n@ == name@ && p@ == path@,
            old(self)@.has_context(name@) ==> (r matches Err(e) ==> (
            e matches Error::OpenContext { reason: s, .. }
                && s@ == "Context already open at a different path."@)),
            !old(self)@.has_context(name@) ==> (probe matches DirProbe::ExistingNotDir ==> (
            r matches Err(e) ==> (e matches Error::OpenContext { reason: s, .. } && s@
                == "Specified path is not a directory."@))),
            !old(self)@.has_context(name@) ==> (probe matches DirProbe::CreateFailed { message }
                ==> (r matches Err(e) ==> (e matches Error::OpenContext { reason: s, .. } && s@
                == message@))),
    {
        let ghost m0 = self@;
        match self.find_context(name) {
            Some(i) => {
                if crate::text::str_eq(self.contexts[i].root_path.as_str(), path) {
                    proof {
                        assert(m0.context_root(name@) == path@);
                    }
                    Ok(Context::create(name.to_owned(), path.to_owned()))
                } else {
                    proof {
                        assert(m0.context_root(name@) != path@);
                    }
                    Err(Error::open_context(name, path, "Context already open at a different path."))
                }
            },
            None => {
                match probe {
                    DirProbe::ExistingDir | DirProbe::Created => {
                        let entry = ContextState { name: name.to_owned(), root_path: path.to_owned() };
                        self.contexts.push(entry);
                        proof {
                            let e = ModelContext { name: name@, root: path@ };
                            assert(ctxs_view(self.contexts@) =~= m0.contexts.push(e));
                            assert(self@ == open_context_tr(m0, name@, path@, probe)) by {
                                assert(self@.contexts =~= open_context_tr(
                                    m0,
                                    name@,
                                    path@,
                                    probe,
                                ).contexts);
                                assert(self@ =~~= open_context_tr(m0, name@, path@, probe));
                            }
                            assert forall|k: int| 0 <= k < m0.contexts.len() implies m0.contexts[k].name
                                != name@ by {}
                            lemma_ctxs_unique_push(m0.contexts, e);
                        }
                        Ok(Context::create(name.to_owned(), path.to_owned()))
                    },
                    DirProbe::ExistingNotDir => {
                        Err(Error::open_context(name, path, "Specified path is not a directory."))
                    },
                    DirProbe::CreateFailed { message } => {
                        Err(Error::open_context(name, path, message.as_str()))
                    },
                }
            },
        }
    }

    /// Returns the already-open context of the given name, and `UnknownContext`
    /// when no such context is registered.
    pub fn aliased_context(&self, name: &str) -> (r: Result<Context, Error>)
        requires
            self.inv(),
        ensures
            (r matches Ok(_)) == self@.has_context(name@),
            r matches Ok(c) ==> c.name@ == name@ && c.path@ == self@.context_root(name@),
            r matches Err(e) ==> e matches Error::UnknownContext { reason } && reason@ == name@,
    {
        match self.find_context(name) {
            Some(i) => {
                let root = self.contexts[i].root_path.clone();
                proof {
                    assert(self@.contexts[i as int].root == root@);
                }
                Ok(Context::create(name.to_owned(), root))
            },
            None => Err(Error::unknown_context(name)),
        }
    }

    /// Resolves a context specifier: a direct specifier opens or fetches, an
    /// aliased one only fetches.
    pub fn context(&mut self, spec: &ContextSpecifier, probe: DirProbe) -> (r: Result<
        Context,
        Error,
    >)
        requires
            old(self).inv(),
        ensures
            final(self).inv(),
            match spec {
                ContextSpecifier::Direct { alias, path } => {
                    &&& final(self)@ == open_context_tr(old(self)@, alias@, path@, probe)
                    &&& (r matches Ok(_)) == open_context_ok(old(self)@, alias@, path@, probe)
                    &&& (r matches Ok(c) ==> c.name@ == alias@ && c.path@ == path@)
                    &&& (r matches Err(e) ==> e matches Error::OpenContext { .. })
                },
                ContextSpecifier::Aliased { alias } => {
                    &&& *final(self) == *old(self)
                    &&& (r matches Ok(_)) == old(self)@.has_context(alias@)
                    &&& (r matches Ok(c) ==> c.name@ == alias@ && c.path@ == old(self)@.context_root(
                        alias@,
                    ))
                    &&& (r matches Err(e) ==> e matches Error::UnknownContext { reason }
                        && reason@ == alias@)
                },
            },
    {
        match spec {
            ContextSpecifier::Direct { alias, path } => self.open_context(
                alias.as_str(),
                path.as_str(),
                probe,
            ),
            ContextSpecifier::Aliased { alias } => self.aliased_context(alias.as_str()),
        }
    }
}

impl Context {
    /// Opens a database under `alias` at the relative path `rel`, or returns
    /// the existing database if it is already open at that path; asking for
    /// an existing alias under a different path fails without changing
    /// anything. For a new alias the path must resolve inside the sandbox,
    /// the resolved target must be absent or a regular file, and the engine
    /// must open it.
    pub fn open_database(
        &self,
        p: &mut Persistence,
        alias: &str,
        rel: &str,
        canon: Option<String>,
        probe: FileProbe,
    ) -> (r: Result<Database, Error>)
        requires
            old(p).inv(),
        ensures
            final(p).inv(),
            exists|eng: bool|
                {
                    &&& final(p)@ == #[trigger] open_database_tr(
                        old(p)@,
                        self.name@,
                        self.path@,
                        alias@,
                        rel@,
                        opt_str_view(canon),
                        probe_blocks(probe.exists, probe.is_file),
                        eng,
                    )
                    &&& (r matches Ok(_)) == open_database_ok(
                        old(p)@,
                        self.name@,
                        self.path@,
                        alias@,
                        rel@,
                        opt_str_view(canon),
                        probe_blocks(probe.exists, probe.is_file),
                        eng,
                    )
                },
            r matches Ok(d) ==> d.context.name@ == self.name@ && d.context.path@ == self.path@
                && d.name@ == alias@ && d.path@ == rel@,
            match resolve_outcome(self.path@, rel@, opt_str_view(canon)) {
                PathOutcome::Absolute => r matches Err(Error::NoAbsolutePaths { reason })
                    && reason@ == rel@,
                PathOutcome::NotCanonical => r matches Err(Error::InvalidPath { reason })
                    && reason@ == rel@,
                PathOutcome::Escapes => r matches Err(Error::PathEscapesContext { reason })
                    && reason@ == rel@,
                PathOutcome::Resolved(_) => (r matches Err(e) ==> (e matches Error::OpenDatabase {
                    name: n,
                    context: c,
                    path: dp,
                    reason: s,
                } && n@ == alias@ && c@ == self.name@ && dp@ == rel@)),
            },
            (resolve_outcome(self.path@, rel@, opt_str_view(canon)) matches PathOutcome::Resolved(
                _,
            )) && old(p)@.has_db(self.name@, alias@) && old(p)@.db_path(self.name@, alias@) != rel@
                ==> (r matches Err(e) && (e matches Error::OpenDatabase { reason: s, .. } && s@
                == "Database is already open at another path."@)),
            (resolve_outcome(self.path@, rel@, opt_str_view(canon)) matches PathOutcome::Resolved(
                _,
            )) && !old(p)@.has_db(self.name@, alias@) && probe.exists && !probe.is_file ==> (
            r matches Err(e) && (e matches Error::OpenDatabase { reason: s, .. } && s@
                == "Specified path is not a file."@)),
    {
        let ghost m0 = p@;
        let ghost cv = opt_str_view(canon);
        let ghost enf = probe_blocks(probe.exists, probe.is_file);
        let resolved = match self.get_path(rel, canon) {
            Ok(s) => s,
            Err(e) => {
                proof {
                    assert(open_database_tr(m0, self.name@, self.path@, alias@, rel@, cv, enf, false)
                        == m0);
                    assert(!open_database_ok(
                        m0,
                        self.name@,
                        self.path@,
                        alias@,
                        rel@,
                        cv,
                        enf,
                        false,
                    ));
                }
                return Err(e);
            },
        };
        match p.find_db(self.name.as_str(), alias) {
            Some(i) => {
                if crate::text::str_eq(p.databases[i].path.as_str(), rel) {
                    proof {
                        assert(m0.db_path(self.name@, alias@) == rel@);
                        assert(open_database_tr(
                            m0,
                            self.name@,
                            self.path@,
                            alias@,
                            rel@,
                            cv,
                            enf,
                            false,
                        ) == m0);
                        assert(open_database_ok(
                            m0,
                            self.name@,
                            self.path@,
                            alias@,
                            rel@,
                            cv,
                            enf,
                            false,
                        ));
                    }
                    Ok(Database::create(
                        Context::create(self.name.clone(), self.path.clone()),
                        alias.to_owned(),
                        rel.to_owned(),
                    ))
                } else {
                    proof {
                        assert(m0.db_path(self.name@, alias@) != rel@);
                        assert(open_database_tr(
                            m0,
                            self.name@,
                            self.path@,
                            alias@,
                            rel@,
                            cv,
                            enf,
                            false,
                        ) == m0);
                        assert(!open_database_ok(
                            m0,
                            self.name@,
                            self.path@,
                            alias@,
                            rel@,
                            cv,
                            enf,
                            false,
                        ));
                    }
                    Err(Error::open_database(
                        alias,
                        self.name.as_str(),
                        rel,
                        "Database is already open at another path.",
                    ))
                }
            },
            None => {
                if probe.exists && !probe.is_file {
                    proof {
                        assert(open_database_tr(
                            m0,
                            self.name@,
                            self.path@,
                            alias@,
                            rel@,
                            cv,
                            enf,
                            false,
                        ) == m0);
                        assert(!open_database_ok(
                            m0,
                            self.name@,
                            self.path@,
                            alias@,
                            rel@,
                            cv,
                            enf,
                            false,
                        ));
                    }
                    Err(Error::open_database(
                        alias,
                        self.name.as_str(),
                        rel,
                        "Specified path is not a file.",
                    ))
                } else {
                    match crate::engine::db_open(resolved.as_str()) {
                        Err(msg) => {
                            proof {
                                assert(open_database_tr(
                                    m0,
                                    self.name@,
                                    self.path@,
                                    alias@,
                                    rel@,
                                    cv,
                                    enf,
                                    false,
                                ) == m0);
                                assert(!open_database_ok(
                                    m0,
                                    self.name@,
                                    self.path@,
                                    alias@,
                                    rel@,
                                    cv,
                                    enf,
                                    false,
                                ));
                            }
                            Err(Error::open_database(alias, self.name.as_str(), rel, msg.as_str()))
                        },
                        Ok(db) => {
                            let entry = ContextDB {
                                context: self.name.clone(),
                                name: alias.to_owned(),
                                path: rel.to_owned(),
                                database: db,
                            };
                            p.databases.push(entry);
                            proof {
                                let e = ModelDb { context: self.name@, alias: alias@, path: rel@ };
                                assert(dbs_view(p.databases@) =~= m0.dbs.push(e));
                                let m1 = open_database_tr(
                                    m0,
                                    self.name@,
                                    self.path@,
                                    alias@,
                                    rel@,
                                    cv,
                                    enf,
                                    true,
                                );
                                assert(p@.dbs =~= m1.dbs);
                                assert(p@ =~~= m1);
                                assert(open_database_ok(
                                    m0,
                                    self.name@,
                                    self.path@,
                                    alias@,
                                    rel@,
                                    cv,
                                    enf,
                                    true,
                                ));
                                assert forall|k: int| 0 <= k < m0.dbs.len() implies !(m0.dbs[k].context
                                    == e.context && m0.dbs[k].alias == e.alias) by {}
                                lemma_dbs_unique_push(m0.dbs, e);
                            }
                            Ok(Database::create(
                                Context::create(self.name.clone(), self.path.clone()),
                                alias.to_owned(),
                                rel.to_owned(),
                            ))
                        },
                    }
                }
            },
        }
    }

    /// Returns the already-open database `alias` of this context, and
    /// `UnknownDatabase` when no such database is registered.
    pub fn database(&self, p: &Persistence, alias: &str) -> (r: Result<Database, Error>)
        requires
            p.inv(),
        ensures
            (r matches Ok(_)) == p@.has_db(self.name@, alias@),
            r matches Ok(d) ==> d.context.name@ == self.name@ && d.context.path@ == self.path@
                && d.name@ == alias@ && d.path@ == p@.db_path(self.name@, alias@),
            r matches Err(e) ==> e matches Error::UnknownDatabase { reason } && reason@ == alias@,
    {
        match p.find_db(self.name.as_str(), alias) {
            Some(i) => {
                let stored = p.databases[i].path.clone();
                proof {
                    assert(p@.dbs[i as int].path == stored@);
                }
                Ok(Database::create(
                    Context::create(self.name.clone(), self.path.clone()),
                    alias.to_owned(),
                    stored,
                ))
            },
            None => Err(Error::unknown_database(alias)),
        }
    }

    /// Closes the database `alias` of this context: the registry entry is
    /// removed together with every transaction of that database, and is
    /// irreversible; `UnknownDatabase` when no such database is registered.
    pub fn close_database(&self, p: &mut Persistence, alias: &str) -> (r: Result<(), Error>)
        requires
            old(p).inv(),
        ensures
            final(p).inv(),
            !old(p)@.has_db(self.name@, alias@) ==> (*final(p) == *old(p) && (r matches Err(e) && (
            e matches Error::UnknownDatabase { reason } && reason@ == alias@))),
            old(p)@.has_db(self.name@, alias@) ==> ({
                &&& r matches Ok(_)
                &&& final(p)@.contexts == old(p)@.contexts
                &&& final(p)@.files == old(p)@.files
                &&& final(p)@.dbs == old(p)@.dbs.remove(old(p)@.db_index(self.name@, alias@))
                &&& final(p)@.txns == old(p)@.txns.filter(survives_pred(self.name@, alias@))
                &&& !final(p)@.has_db(self.name@, alias@)
            }),
    {
        let ghost m0 = p@;
        match p.find_db(self.name.as_str(), alias) {
            None => Err(Error::unknown_database(alias)),
            Some(i) => {
                let _removed = p.databases.remove(i);
                proof {
                    assert(dbs_view(p.databases@) =~= m0.dbs.remove(i as int));
                    lemma_dbs_unique_remove(m0.dbs, i as int);
                    m0.dbs.remove_ensures(i as int);
                    assert forall|k: int| 0 <= k < p@.dbs.len() implies !(p@.dbs[k].context
                        == self.name@ && p@.dbs[k].alias == alias@) by {
                        if k < i as int {
                            assert(p@.dbs[k] == m0.dbs[k]);
                        } else {
                            assert(p@.dbs[k] == m0.dbs[k + 1]);
                        }
                    }
                }
                self.purge_transactions(p, alias);
                Ok(())
            },
        }
    }

    /// Removes every transaction record of the database `alias` of this
    /// context, leaving all other transactions in order.
    fn purge_transactions(&self, p: &mut Persistence, alias: &str)
        requires
            old(p).inv(),
        ensures
            final(p).inv(),
            final(p)@.contexts == old(p)@.contexts,
            final(p)@.dbs == old(p)@.dbs,
            final(p)@.files == old(p)@.files,
            final(p)@.txns == old(p)@.txns.filter(survives_pred(self.name@, alias@)),
    {
        let ghost orig = p.transactions@;
        let ghost cs0 = p.contexts@;
        let ghost ds0 = p.databases@;
        let ghost fs0 = p.files@;
        let mut kept: Vec<crate::state::TransactionEntry> = Vec::new();
        proof {
            assert(orig.subrange(0, 0) =~= Seq::<crate::state::TransactionEntry>::empty());
            assert(txns_view(orig.subrange(0, 0)).filter(survives_pred(self.name@, alias@))
                =~= txns_view(kept@)) by {
                reveal(Seq::filter);
            }
            assert(p.transactions@ =~= orig.subrange(0, orig.len() as int));
        }
        while p.transactions.len() > 0
            invariant
                p.contexts@ == cs0,
                p.databases@ == ds0,
                p.files@ == fs0,
                p.transactions@.len() <= orig.len(),
                p.transactions@ == orig.subrange(
                    orig.len() - p.transactions@.len(),
                    orig.len() as int,
                ),
                txns_view(kept@) == txns_view(
                    orig.subrange(0, orig.len() - p.transactions@.len()),
                ).filter(survives_pred(self.name@, alias@)),
                forall|a: int|
                    #![trigger kept@[a]]
                    0 <= a < kept@.len() ==> exists|j: int|
                        #![trigger orig[j]]
                        0 <= j < orig.len() - p.transactions@.len() && kept@[a]@ == orig[j]@,
                crate::state::txns_unique(txns_view(orig)),
                crate::state::txns_unique(txns_view(kept@)),
            decreases p.transactions@.len(),
        {
            let ghost done = orig.len() - p.transactions@.len();
            let e = p.transactions.remove(0);
            proof {
                assert(e == orig[done]);
                assert(p.transactions@ =~= orig.subrange(done + 1, orig.len() as int));
            }
            let keep = !(crate::text::str_eq(e.context.as_str(), self.name.as_str())
                && crate::text::str_eq(e.database.as_str(), alias));
            let ghost kept0 = kept@;
            if keep {
                proof {
                    assert(survives_pred(self.name@, alias@)(e@));
                    assert forall|a: int| 0 <= a < kept0.len() implies !(txns_view(kept0)[a].context
                        == e@.context && txns_view(kept0)[a].database == e@.database && txns_view(
                        kept0,
                    )[a].id == e@.id) by {
                        let j = choose|j: int|
                            #![trigger orig[j]]
                            0 <= j < done && kept0[a]@ == orig[j]@;
                        assert(txns_view(orig)[j] == orig[j]@);
                        assert(txns_view(orig)[done] == orig[done]@);
                        assert(!(txns_view(orig)[j].context == txns_view(orig)[done].context
                            && txns_view(orig)[j].database == txns_view(orig)[done].database
                            && txns_view(orig)[j].id == txns_view(orig)[done].id));
                    }
                    crate::state::lemma_txns_unique_push(txns_view(kept0), e@);
                }
                kept.push(e);
                proof {
                    assert(txns_view(kept@) =~= txns_view(kept0).push(e@));
                }
            } else {
                proof {
                    assert(!survives_pred(self.name@, alias@)(e@));
                }
            }
            proof {
                let pre = orig.subrange(0, done);
                let cur = orig.subrange(0, done + 1);
                assert(cur =~= pre.push(orig[done]));
                assert(txns_view(cur) =~= txns_view(pre).push(orig[done]@));
                assert(txns_view(cur).drop_last() =~= txns_view(pre));
                assert(txns_view(cur).last() == orig[done]@);
                reveal(Seq::filter);
                assert(txns_view(cur).filter(survives_pred(self.name@, alias@)) == if survives_pred(
                    self.name@,
                    alias@,
                )(orig[done]@) {
                    txns_view(pre).filter(survives_pred(self.name@, alias@)).push(orig[done]@)
                } else {
                    txns_view(pre).filter(survives_pred(self.name@, alias@))
                });
                assert(txns_view(kept@) == txns_view(cur).filter(survives_pred(self.name@, alias@)));
            }
        }
        p.transactions = kept;
        proof {
            assert(orig.subrange(0, orig.len() as int) =~= orig);
            assert(txns_view(orig.subrange(0, orig.len() as int)) =~= txns_view(orig));
            assert(txns_view(p.transactions@) == txns_view(orig).filter(survives_pred(
                self.name@,
                alias@,
            )));
        }
    }
}

impl Database {
    /// Lists the collection names of this database from the live engine
    /// connection; `UnknownDatabase` when the database has been closed.
    pub fn collections(&self, p: &Persistence) -> (r: Result<Vec<String>, Error>)
        requires
            p.inv(),
        ensures
            !p@.has_db(self.context.name@, self.name@) ==> (r matches Err(e) && (
            e matches Error::UnknownDatabase { reason } && reason@ == self.name@)),
            p@.has_db(self.context.name@, self.name@) ==> (r matches Err(e) ==> (
            e matches Error::DatabaseError { .. })),
    {
        match p.find_db(self.context.name.as_str(), self.name.as_str()) {
            None => Err(Error::unknown_database(self.name.as_str())),
            Some(i) => {
                match crate::engine::db_list_collections(&p.databases[i].database) {
                    Ok(v) => Ok(v),
                    Err(msg) => Err(Error::database_error(msg)),
                }
            },
        }
    }

    /// Starts a transaction: a unit-of-work is begun against the engine,
    /// registered under a fresh identifier, and returned as a descriptor;
    /// `UnknownDatabase` when the database has been closed, `DatabaseError`
    /// when the engine refuses.
    pub fn start_transaction(&self, p: &mut Persistence) -> (r: Result<Transaction, Error>)
        requires
            old(p).inv(),
        ensures
            final(p).inv(),
            !old(p)@.has_db(self.context.name@, self.name@) ==> (*final(p) == *old(p) && (
            r matches Err(e) && (e matches Error::UnknownDatabase { reason } && reason@
                == self.name@))),
            old(p)@.has_db(self.context.name@, self.name@) ==> match r {
                Result::Err(e) => *final(p) == *old(p) && e matches Error::DatabaseError { .. },
                Result::Ok(t) => {
                    &&& t.database.context.name@ == self.context.name@
                    &&& t.database.context.path@ == self.context.path@
                    &&& t.database.name@ == self.name@
                    &&& t.database.path@ == self.path@
                    &&& final(p)@ == start_txn_tr(
                        old(p)@,
                        self.context.name@,
                        self.name@,
                        t.id@,
                    )
                    &&& final(p)@.has_txn(self.context.name@, self.name@, t.id@)
                },
            },
    {
        let ghost m0 = p@;
        match p.find_db(self.context.name.as_str(), self.name.as_str()) {
            None => Err(Error::unknown_database(self.name.as_str())),
            Some(_i) => {
                let mut session = match crate::engine::db_start_session(&p.databases[_i].database) {
                    Ok(s) => s,
                    Err(msg) => {
                        return Err(Error::database_error(msg));
                    },
                };
                match crate::engine::session_begin(&mut session) {
                    Err(msg) => Err(Error::database_error(msg)),
                    Ok(_) => {
                        let id = crate::engine::fresh_id();
                        let entry = TransactionEntry {
                            context: self.context.name.clone(),
                            database: self.name.clone(),
                            id: id.clone(),
                            session,
                        };
                        match p.find_txn(
                            self.context.name.as_str(),
                            self.name.as_str(),
                            id.as_str(),
                        ) {
                            Some(j) => {
                                let ghost t0 = p.transactions@;
                                let _old_entry = p.transactions.remove(j);
                                p.transactions.insert(j, entry);
                                proof {
                                    assert(p.transactions@ =~= t0.update(j as int, entry));
                                    assert(txns_view(p.transactions@) =~= m0.txns) by {
                                        assert forall|k: int|
                                            0 <= k < p.transactions@.len() implies p.transactions@[k]@
                                            == m0.txns[k] by {
                                            if k == j as int {
                                                assert(entry@ == t0[j as int]@);
                                            }
                                        }
                                    }
                                    assert(p@ =~~= start_txn_tr(m0, self.context.name@, self.name@, id@));
                                }
                                Ok(Transaction::create(
                                    Database::create(
                                        Context::create(
                                            self.context.name.clone(),
                                            self.context.path.clone(),
                                        ),
                                        self.name.clone(),
                                        self.path.clone(),
                                    ),
                                    id,
                                ))
                            },
                            None => {
                                p.transactions.push(entry);
                                proof {
                                    let e = ModelTxn {
                                        context: self.context.name@,
                                        database: self.name@,
                                        id: id@,
                                    };
                                    assert(txns_view(p.transactions@) =~= m0.txns.push(e));
                                    assert(p@ =~~= start_txn_tr(m0, self.context.name@, self.name@, id@));
                                    assert forall|k: int| 0 <= k < m0.txns.len() implies !(m0.txns[k].context
                                        == e.context && m0.txns[k].database == e.database
                                        && m0.txns[k].id == e.id) by {}
                                    lemma_txns_unique_push(m0.txns, e);
                                    assert(final(p)@.has_txn(self.context.name@, self.name@, id@)) by {
                                        assert(p@.txns[m0.txns.len() as int] == e);
                                    }
                                }
                                Ok(Transaction::create(
                                    Database::create(
                                        Context::create(
                                            self.context.name.clone(),
                                            self.context.path.clone(),
                                        ),
                                        self.name.clone(),
                                        self.path.clone(),
                                    ),
                                    id,
                                ))
                            },
                        }
                    },
                }
            },
        }
    }

    /// Returns a descriptor of the active transaction with the given id;
    /// `UnknownDatabase` when the database has been closed and
    /// `UnknownTransaction` when the id is not active.
    pub fn get_transaction(&self, p: &Persistence, id: &str) -> (r: Result<Transaction, Error>)
        requires
            p.inv(),
        ensures
            (r matches Ok(_)) == (p@.has_db(self.context.name@, self.name@) && p@.has_txn(
                self.context.name@,
                self.name@,
                id@,
            )),
            r matches Ok(t) ==> t.id@ == id@ && t.database.context.name@ == self.context.name@
                && t.database.context.path@ == self.context.path@ && t.database.name@
                == self.name@ && t.database.path@ == self.path@,
            !p@.has_db(self.context.name@, self.name@) ==> (r matches Err(e) && (
            e matches Error::UnknownDatabase { reason } && reason@ == self.name@)),
            p@.has_db(self.context.name@, self.name@) && !p@.has_txn(
                self.context.name@,
                self.name@,
                id@,
            ) ==> (r matches Err(e) && (e matches Error::UnknownTransaction { reason } && reason@
                == id@)),
    {
        match p.find_db(self.context.name.as_str(), self.name.as_str()) {
            None => Err(Error::unknown_database(self.name.as_str())),
            Some(_i) => {
                match p.find_txn(self.context.name.as_str(), self.name.as_str(), id) {
                    None => Err(Error::unknown_transaction(id)),
                    Some(_j) => Ok(Transaction::create(
                        Database::create(
                            Context::create(self.context.name.clone(), self.context.path.clone()),
                            self.name.clone(),
                            self.path.clone(),
                        ),
                        id.to_owned(),
                    )),
                }
            },
        }
    }

    /// Commits the transaction with the given id: the registry entry is
    /// removed first, so the identifier is never usable twice, and the
    /// engine is then asked to commit; failures of the engine surface as
    /// `DatabaseError` with the entry already gone.
    pub fn commit_transaction(&self, p: &mut Persistence, id: &str) -> (r: Result<(), Error>)
        requires
            old(p).inv(),
        ensures
            final(p).inv(),
            final(p)@ == end_txn_tr(old(p)@, self.context.name@, self.name@, id@),
            match end_txn_res(old(p)@, self.context.name@, self.name@, id@) {
                EndTxnRes::UnknownDb => r matches Err(e) && (e matches Error::UnknownDatabase {
                    reason,
                } && reason@ == self.name@),
                EndTxnRes::UnknownTxn => r matches Err(e) && (
                e matches Error::UnknownTransaction { reason } && reason@ == id@),
                EndTxnRes::Ended => (r matches Err(e) ==> (e matches Error::DatabaseError { .. })),
            },
    {
        self.end_transaction(p, id, true)
    }

    /// Rolls back the transaction with the given id: the registry entry is
    /// removed first, exactly as for a commit, and the engine is then asked
    /// to abort the work.
    pub fn rollback_transaction(&self, p: &mut Persistence, id: &str) -> (r: Result<(), Error>)
        requires
            old(p).inv(),
        ensures
            final(p).inv(),
            final(p)@ == end_txn_tr(old(p)@, self.context.name@, self.name@, id@),
            match end_txn_res(old(p)@, self.context.name@, self.name@, id@) {
                EndTxnRes::UnknownDb => r matches Err(e) && (e matches Error::UnknownDatabase {
                    reason,
                } && reason@ == self.name@),
                EndTxnRes::UnknownTxn => r matches Err(e) && (
                e matches Error::UnknownTransaction { reason } && reason@ == id@),
                EndTxnRes::Ended => (r matches Err(e) ==> (e matches Error::DatabaseError { .. })),
            },
    {
        self.end_transaction(p, id, false)
    }

    /// Removes the transaction record and asks the engine to finish the
    /// unit-of-work, committing when `commit` is set and aborting otherwise.
    fn end_transaction(&self, p: &mut Persistence, id: &str, commit: bool) -> (r: Result<(), Error>)
        requires
            old(p).inv(),
        ensures
            final(p).inv(),
            final(p)@ == end_txn_tr(old(p)@, self.context.name@, self.name@, id@),
            match end_txn_res(old(p)@, self.context.name@, self.name@, id@) {
                EndTxnRes::UnknownDb => r matches Err(e) && (e matches Error::UnknownDatabase {
                    reason,
                } && reason@ == self.name@),
                EndTxnRes::UnknownTxn => r matches Err(e) && (
                e matches Error::UnknownTransaction { reason } && reason@ == id@),
                EndTxnRes::Ended => (r matches Err(e) ==> (e matches Error::DatabaseError { .. })),
            },
    {
        let ghost m0 = p@;
        match p.find_db(self.context.name.as_str(), self.name.as_str()) {
            None => Err(Error::unknown_database(self.name.as_str())),
            Some(_i) => {
                match p.find_txn(self.context.name.as_str(), self.name.as_str(), id) {
                    None => Err(Error::unknown_transaction(id)),
                    Some(j) => {
                        let mut entry = p.transactions.remove(j);
                        proof {
                            assert(txns_view(p.transactions@) =~= m0.txns.remove(j as int));
                            lemma_txns_unique_remove(m0.txns, j as int);
                            assert(p@ =~~= end_txn_tr(m0, self.context.name@, self.name@, id@));
                        }
                        let outcome = if commit {
                            crate::engine::session_commit(&mut entry.session)
                        } else {
                            crate::engine::session_abort(&mut entry.session)
                        };
                        match outcome {
                            Ok(_) => Ok(()),
                            Err(msg) => Err(Error::database_error(msg)),
                        }
                    },
                }
            },
        }
    }

    /// Closes this database: its registry entry and every transaction of it
    /// are removed, irreversibly; `UnknownDatabase` when it is already gone.
    pub fn close(self, p: &mut Persistence) -> (r: Result<(), Error>)
        requires
            old(p).inv(),
        ensures
            final(p).inv(),
            !old(p)@.has_db(self.context.name@, self.name@) ==> (*final(p) == *old(p) && (
            r matches Err(e) && (e matches Error::UnknownDatabase { reason } && reason@
                == self.name@))),
            old(p)@.has_db(self.context.name@, self.name@) ==> ({
                &&& r matches Ok(_)
                &&& final(p)@.contexts == old(p)@.contexts
                &&& final(p)@.files == old(p)@.files
                &&& final(p)@.dbs == old(p)@.dbs.remove(old(p)@.db_index(
                    self.context.name@,
                    self.name@,
                ))
                &&& final(p)@.txns == old(p)@.txns.filter(survives_pred(
                    self.context.name@,
                    self.name@,
                ))
                &&& !final(p)@.has_db(self.context.name@, self.name@)
            }),
    {
        self.context.close_database(p, self.name.as_str())
    }
}

impl Transaction {
    /// Commits this transaction through its owning database.
    pub fn commit(self, p: &mut Persistence) -> (r: Result<(), Error>)
        requires
            old(p).inv(),
        ensures
            final(p).inv(),
            final(p)@ == end_txn_tr(
                old(p)@,
                self.database.context.name@,
                self.database.name@,
                self.id@,
            ),
            match end_txn_res(
                old(p)@,
                self.database.context.name@,
                self.database.name@,
                self.id@,
            ) {
                EndTxnRes::UnknownDb => r matches Err(e) && (e matches Error::UnknownDatabase {
                    reason,
                } && reason@ == self.database.name@),
                EndTxnRes::UnknownTxn => r matches Err(e) && (
                e matches Error::UnknownTransaction { reason } && reason@ == self.id@),
                EndTxnRes::Ended => (r matches Err(e) ==> (e matches Error::DatabaseError { .. })),
            },
    {
        self.database.commit_transaction(p, self.id.as_str())
    }

    /// Rolls back this transaction through its owning database.
    pub fn rollback(self, p: &mut Persistence) -> (r: Result<(), Error>)
        requires
            old(p).inv(),
        ensures
            final(p).inv(),
            final(p)@ == end_txn_tr(
                old(p)@,
                self.database.context.name@,
                self.database.name@,
                self.id@,
            ),
            match end_txn_res(
                old(p)@,
                self.database.context.name@,
                self.database.name@,
                self.id@,
            ) {
                EndTxnRes::UnknownDb => r matches Err(e) && (e matches Error::UnknownDatabase {
                    reason,
                } && reason@ == self.database.name@),
                EndTxnRes::UnknownTxn => r matches Err(e) && (
                e matches Error::UnknownTransaction { reason } && reason@ == self.id@),
                EndTxnRes::Ended => (r matches Err(e) ==> (e matches Error::DatabaseError { .. })),
            },
    {
        self.database.rollback_transaction(p, self.id.as_str())
    }
}

impl Context {
    /// Plans the opening of a file handle: resolves the relative path in the
    /// sandbox, derives the open flags of the requested mode, and decides
    /// whether missing parent directories must be created first (only a
    /// creating mode on a missing target with a parent).
    pub fn plan_file_open(
        &self,
        path: &str,
        mode: &FileHandleMode,
        canon: Option<String>,
        target_exists: bool,
        has_parent: bool,
    ) -> (r: Result<FileOpenPlan, Error>)
        ensures
            match resolve_outcome(self.path@, path@, opt_str_view(canon)) {
                PathOutcome::Absolute => r matches Err(Error::NoAbsolutePaths { reason })
                    && reason@ == path@,
                PathOutcome::NotCanonical => r matches Err(Error::InvalidPath { reason })
                    && reason@ == path@,
                PathOutcome::Escapes => r matches Err(Error::PathEscapesContext { reason })
                    && reason@ == path@,
                PathOutcome::Resolved(c) => r matches Ok(plan) && plan.absolute@ == c
                    && plan.flags == mode.spec_open_flags() && plan.create_parents == ((
                *mode matches FileHandleMode::Create { .. }) && !target_exists && has_parent),
            },
    {
        let absolute = match self.get_path(path, canon) {
            Ok(s) => s,
            Err(e) => {
                return Err(e);
            },
        };
        let create_parents = mode.create() && !target_exists && has_parent;
        Ok(FileOpenPlan { absolute, flags: mode.open_flags(), create_parents })
    }

    /// Registers an opened file under a fresh identifier and returns its
    /// descriptor; the registry owns the open file from here on.
    pub fn register_file_handle(
        &self,
        p: &mut Persistence,
        path: &str,
        mode: FileHandleMode,
        file: FileRef,
    ) -> (r: FileHandle)
        requires
            old(p).inv(),
        ensures
            final(p).inv(),
            r.context.name@ == self.name@,
            r.context.path@ == self.path@,
            r.path@ == path@,
            final(p)@ == register_file_tr(old(p)@, self.name@, r.id@, path@, mode),
            final(p)@.has_file(self.name@, r.id@),
            final(p)@.file_path(self.name@, r.id@) == path@,
            final(p)@.file_mode(self.name@, r.id@) == mode,
    {
        let ghost m0 = p@;
        let id = crate::engine::fresh_id();
        let entry = ContextFileHandle {
            context: self.name.clone(),
            id: id.clone(),
            path: path.to_owned(),
            mode,
            handle: file,
        };
        let ghost ev = ModelFile { context: self.name@, id: id@, path: path@, mode };
        match p.find_file(self.name.as_str(), id.as_str()) {
            Some(j) => {
                let ghost f0 = p.files@;
                let _old_entry = p.files.remove(j);
                p.files.insert(j, entry);
                proof {
                    f0.remove_ensures(j as int);
                    f0.remove(j as int).insert_ensures(j as int, p.files@[j as int]);
                    assert(files_view(p.files@) =~= m0.files.update(j as int, ev));
                    assert(p@ =~~= register_file_tr(m0, self.name@, id@, path@, mode));
                    lemma_files_unique_update(m0.files, j as int, ev);
                    assert(final(p)@.has_file(self.name@, id@)) by {
                        assert(p@.files[j as int] == ev);
                    }
                    assert(p@.file_index(self.name@, id@) == j as int) by {
                        let k = p@.file_index(self.name@, id@);
                        assert(p@.files[k].context == self.name@ && p@.files[k].id == id@);
                        if k != j as int {
                            assert(!(p@.files[k].context == p@.files[j as int].context
                                && p@.files[k].id == p@.files[j as int].id));
                        }
                    }
                }
                FileHandle::create(
                    Context::create(self.name.clone(), self.path.clone()),
                    id,
                    path.to_owned(),
                )
            },
            None => {
                p.files.push(entry);
                proof {
                    assert(files_view(p.files@) =~= m0.files.push(ev));
                    assert(p@ =~~= register_file_tr(m0, self.name@, id@, path@, mode));
                    assert forall|k: int| 0 <= k < m0.files.len() implies !(m0.files[k].context
                        == ev.context && m0.files[k].id == ev.id) by {}
                    lemma_files_unique_push(m0.files, ev);
                    assert(final(p)@.has_file(self.name@, id@)) by {
                        assert(p@.files[m0.files.len() as int] == ev);
                    }
                    assert(p@.file_index(self.name@, id@) == m0.files.len() as int) by {
                        let k = p@.file_index(self.name@, id@);
                        assert(p@.files[k].context == self.name@ && p@.files[k].id == id@);
                        if k != m0.files.len() as int {
                            assert(!(p@.files[k].context == p@.files[m0.files.len() as int].context
                                && p@.files[k].id == p@.files[m0.files.len() as int].id));
                        }
                    }
                }
                FileHandle::create(
                    Context::create(self.name.clone(), self.path.clone()),
                    id,
                    path.to_owned(),
                )
            },
        }
    }

    /// Returns a descriptor of the open file handle with the given id, and
    /// `UnknownFileHandle` when no such handle is registered.
    pub fn file_handle(&self, p: &Persistence, id: &str) -> (r: Result<FileHandle, Error>)
        requires
            p.inv(),
        ensures
            (r matches Ok(_)) == p@.has_file(self.name@, id@),
            r matches Ok(f) ==> f.context.name@ == self.name@ && f.context.path@ == self.path@
                && f.id@ == id@ && f.path@ == p@.file_path(self.name@, id@),
            r matches Err(e) ==> e matches Error::UnknownFileHandle { reason } && reason@ == id@,
    {
        match p.find_file(self.name.as_str(), id) {
            Some(i) => {
                let stored = p.files[i].path.clone();
                proof {
                    assert(p@.files[i as int].path == stored@);
                }
                Ok(FileHandle::create(
                    Context::create(self.name.clone(), self.path.clone()),
                    id.to_owned(),
                    stored,
                ))
            },
            None => Err(Error::unknown_file_handle(id)),
        }
    }

    /// Closes the file handle with the given id: its registry entry is
    /// removed and the open file dropped; `UnknownFileHandle` when no such
    /// handle is registered.
    pub fn close_file_handle(&self, p: &mut Persistence, id: &str) -> (r: Result<(), Error>)
        requires
            old(p).inv(),
        ensures
            final(p).inv(),
            !old(p)@.has_file(self.name@, id@) ==> (*final(p) == *old(p) && (r matches Err(e) && (
            e matches Error::UnknownFileHandle { reason } && reason@ == id@))),
            old(p)@.has_file(self.name@, id@) ==> ({
                &&& r matches Ok(_)
                &&& final(p)@.contexts == old(p)@.contexts
                &&& final(p)@.dbs == old(p)@.dbs
                &&& final(p)@.txns == old(p)@.txns
                &&& final(p)@.files == old(p)@.files.remove(old(p)@.file_index(self.name@, id@))
                &&& !final(p)@.has_file(self.name@, id@)
            }),
    {
        let ghost m0 = p@;
        match p.find_file(self.name.as_str(), id) {
            None => Err(Error::unknown_file_handle(id)),
            Some(i) => {
                let _removed = p.files.remove(i);
                proof {
                    assert(files_view(p.files@) =~= m0.files.remove(i as int));
                    lemma_files_unique_remove(m0.files, i as int);
                    m0.files.remove_ensures(i as int);
                    assert forall|k: int| 0 <= k < p@.files.len() implies !(p@.files[k].context
                        == self.name@ && p@.files[k].id == id@) by {
                        if k < i as int {
                            assert(p@.files[k] == m0.files[k]);
                        } else {
                            assert(p@.files[k] == m0.files[k + 1]);
                        }
                    }
                }
                Ok(())
            },
        }
    }
}

impl FileHandle {
    /// The mode this handle was opened with, re-resolved from the registry;
    /// `UnknownFileHandle` once the handle has been closed.
    pub fn mode(&self, p: &Persistence) -> (r: Result<FileHandleMode, Error>)
        requires
            p.inv(),
        ensures
            (r matches Ok(_)) == p@.has_file(self.context.name@, self.id@),
            r matches Ok(m) ==> m == p@.file_mode(self.context.name@, self.id@),
            r matches Err(e) ==> e matches Error::UnknownFileHandle { reason } && reason@
                == self.id@,
    {
        match p.find_file(self.context.name.as_str(), self.id.as_str()) {
            Some(i) => {
                let m = p.files[i].mode.clone();
                proof {
                    assert(p@.files[i as int].mode == m);
                }
                Ok(m)
            },
            None => Err(Error::unknown_file_handle(self.id.as_str())),
        }
    }

    /// Another reference to the open file, for one read or write call;
    /// `UnknownFileHandle` once the handle has been closed.
    pub fn handle(&self, p: &Persistence) -> (r: Result<FileRef, Error>)
        requires
            p.inv(),
        ensures
            (r matches Ok(_)) == p@.has_file(self.context.name@, self.id@),
            r matches Err(e) ==> e matches Error::UnknownFileHandle { reason } && reason@
                == self.id@,
    {
        match p.find_file(self.context.name.as_str(), self.id.as_str()) {
            Some(i) => Ok(crate::engine::file_ref_clone(&p.files[i].handle)),
            None => Err(Error::unknown_file_handle(self.id.as_str())),
        }
    }

    /// Closes this file handle through its owning context.
    pub fn close(self, p: &mut Persistence) -> (r: Result<(), Error>)
        requires
            old(p).inv(),
        ensures
            final(p).inv(),
            !old(p)@.has_file(self.context.name@, self.id@) ==> (*final(p) == *old(p) && (
            r matches Err(e) && (e matches Error::UnknownFileHandle { reason } && reason@
                == self.id@))),
            old(p)@.has_file(self.context.name@, self.id@) ==> ({
                &&& r matches Ok(_)
                &&& final(p)@.files == old(p)@.files.remove(old(p)@.file_index(
                    self.context.name@,
                    self.id@,
                ))
                &&& !final(p)@.has_file(self.context.name@, self.id@)
            }),
    {
        self.context.close_file_handle(p, self.id.as_str())
    }
}

impl Persistence {
    /// Resolves a context specifier and then a database specifier within the
    /// resolved context: a direct database specifier opens or fetches, an
    /// aliased one only fetches.
    pub fn database(
        &mut self,
        ctx: &ContextSpecifier,
        probe: DirProbe,
        db: &DatabaseSpecifier,
        canon: Option<String>,
        fprobe: FileProbe,
    ) -> (r: Result<Database, Error>)
        requires
            old(self).inv(),
        ensures
            final(self).inv(),
            !ctx_stage_ok(old(self)@, *ctx, probe) ==> (final(self)@ == ctx_stage_next(
                old(self)@,
                *ctx,
                probe,
            ) && (r matches Err(e) && (e matches Error::OpenContext { .. }
                || e matches Error::UnknownContext { .. }))),
            ctx_stage_ok(old(self)@, *ctx, probe) ==> exists|eng: bool|
                {
                    &&& final(self)@ == #[trigger] db_stage_next(
                        ctx_stage_next(old(self)@, *ctx, probe),
                        ctx_stage_name(*ctx),
                        ctx_stage_root(old(self)@, *ctx),
                        *db,
                        opt_str_view(canon),
                        probe_blocks(fprobe.exists, fprobe.is_file),
                        eng,
                    )
                    &&& (r matches Ok(_)) == db_stage_ok(
                        ctx_stage_next(old(self)@, *ctx, probe),
                        ctx_stage_name(*ctx),
                        ctx_stage_root(old(self)@, *ctx),
                        *db,
                        opt_str_view(canon),
                        probe_blocks(fprobe.exists, fprobe.is_file),
                        eng,
                    )
                },
            r matches Ok(d) ==> d.context.name@ == ctx_stage_name(*ctx) && d.context.path@
                == ctx_stage_root(old(self)@, *ctx) && d.name@ == db_stage_alias(*db) && d.path@
                == db_stage_path(ctx_stage_next(old(self)@, *ctx, probe), ctx_stage_name(*ctx), *db),
    {
        let ghost m0 = self@;
        let ghost cv = opt_str_view(canon);
        let ghost enf = probe_blocks(fprobe.exists, fprobe.is_file);
        let c = match self.context(ctx, probe) {
            Ok(c) => c,
            Err(e) => {
                return Err(e);
            },
        };
        let ghost mb = self@;
        proof {
            assert(mb == ctx_stage_next(m0, *ctx, probe));
            assert(c.name@ == ctx_stage_name(*ctx));
            assert(c.path@ == ctx_stage_root(m0, *ctx));
        }
        match db {
            DatabaseSpecifier::Aliased { alias } => {
                let rr = c.database(self, alias.as_str());
                proof {
                    assert(self@ == db_stage_next(mb, ctx_stage_name(*ctx), ctx_stage_root(m0, *ctx), *db, cv, enf, true));
                    assert((rr matches Ok(_)) == db_stage_ok(mb, ctx_stage_name(*ctx), ctx_stage_root(m0, *ctx), *db, cv, enf, true));
                }
                rr
            },
            DatabaseSpecifier::Direct { alias, path } => {
                let rr = c.open_database(self, alias.as_str(), path.as_str(), canon, fprobe);
                proof {
                    let eng = choose|eng: bool|
                        {
                            &&& self@ == #[trigger] open_database_tr(mb, c.name@, c.path@, alias@, path@, cv, enf, eng)
                            &&& (rr matches Ok(_)) == open_database_ok(mb, c.name@, c.path@, alias@, path@, cv, enf, eng)
                        };
                    assert(self@ == db_stage_next(mb, ctx_stage_name(*ctx), ctx_stage_root(m0, *ctx), *db, cv, enf, eng));
                    assert((rr matches Ok(_)) == db_stage_ok(mb, ctx_stage_name(*ctx), ctx_stage_root(m0, *ctx), *db, cv, enf, eng));
                }
                rr
            },
        }
    }

    /// Resolves a context and database specifier and returns the active
    /// transaction with the given id of that database.
    pub fn transaction(
        &mut self,
        ctx: &ContextSpecifier,
        probe: DirProbe,
        db: &DatabaseSpecifier,
        canon: Option<String>,
        fprobe: FileProbe,
        id: &str,
    ) -> (r: Result<Transaction, Error>)
        requires
            old(self).inv(),
        ensures
            final(self).inv(),
            !ctx_stage_ok(old(self)@, *ctx, probe) ==> (final(self)@ == ctx_stage_next(
                old(self)@,
                *ctx,
                probe,
            ) && (r matches Err(e) && (e matches Error::OpenContext { .. }
                || e matches Error::UnknownContext { .. }))),
            ctx_stage_ok(old(self)@, *ctx, probe) ==> exists|eng: bool|
                {
                    &&& final(self)@ == #[trigger] db_stage_next(
                        ctx_stage_next(old(self)@, *ctx, probe),
                        ctx_stage_name(*ctx),
                        ctx_stage_root(old(self)@, *ctx),
                        *db,
                        opt_str_view(canon),
                        probe_blocks(fprobe.exists, fprobe.is_file),
                        eng,
                    )
                    &&& (r matches Ok(_)) == (db_stage_ok(
                        ctx_stage_next(old(self)@, *ctx, probe),
                        ctx_stage_name(*ctx),
                        ctx_stage_root(old(self)@, *ctx),
                        *db,
                        opt_str_view(canon),
                        probe_blocks(fprobe.exists, fprobe.is_file),
                        eng,
                    ) && final(self)@.has_txn(ctx_stage_name(*ctx), db_stage_alias(*db), id@))
                },
            r matches Ok(t) ==> t.id@ == id@ && t.database.context.name@ == ctx_stage_name(*ctx)
                && t.database.name@ == db_stage_alias(*db),
    {
        let ghost m0 = self@;
        let ghost cv = opt_str_view(canon);
        let ghost enf = probe_blocks(fprobe.exists, fprobe.is_file);
        let rr = self.database(ctx, probe, db, canon, fprobe);
        proof {
            if ctx_stage_ok(m0, *ctx, probe) {
                let eng = choose|eng: bool|
                    {
                        &&& self@ == #[trigger] db_stage_next(ctx_stage_next(m0, *ctx, probe), ctx_stage_name(*ctx), ctx_stage_root(m0, *ctx), *db, cv, enf, eng)
                        &&& (rr matches Ok(_)) == db_stage_ok(ctx_stage_next(m0, *ctx, probe), ctx_stage_name(*ctx), ctx_stage_root(m0, *ctx), *db, cv, enf, eng)
                    };
                if rr matches Ok(_) {
                    match *db {
                        DatabaseSpecifier::Direct { .. } => {
                            lemma_open_database_registers(
                                ctx_stage_next(m0, *ctx, probe),
                                ctx_stage_name(*ctx),
                                ctx_stage_root(m0, *ctx),
                                db_stage_alias(*db),
                                db_stage_path(ctx_stage_next(m0, *ctx, probe), ctx_stage_name(*ctx), *db),
                                cv,
                                enf,
                                eng,
                            );
                        },
                        DatabaseSpecifier::Aliased { .. } => {},
                    }
                    assert(self@.has_db(ctx_stage_name(*ctx), db_stage_alias(*db)));
                }
            }
        }
        match rr {
            Err(e) => Err(e),
            Ok(d) => d.get_transaction(self, id),
        }
    }

    /// Resolves a context and database specifier and returns a collection
    /// descriptor: global, or scoped to a transaction that must be active at
    /// resolution time.
    pub fn collection(
        &mut self,
        ctx: &ContextSpecifier,
        probe: DirProbe,
        db: &DatabaseSpecifier,
        canon: Option<String>,
        fprobe: FileProbe,
        col: &CollectionSpecifier,
    ) -> (r: Result<Collection, Error>)
        requires
            old(self).inv(),
        ensures
            final(self).inv(),
            !ctx_stage_ok(old(self)@, *ctx, probe) ==> (final(self)@ == ctx_stage_next(
                old(self)@,
                *ctx,
                probe,
            ) && (r matches Err(e) && (e matches Error::OpenContext { .. }
                || e matches Error::UnknownContext { .. }))),
            ctx_stage_ok(old(self)@, *ctx, probe) ==> exists|eng: bool|
                {
                    &&& final(self)@ == #[trigger] db_stage_next(
                        ctx_stage_next(old(self)@, *ctx, probe),
                        ctx_stage_name(*ctx),
                        ctx_stage_root(old(self)@, *ctx),
                        *db,
                        opt_str_view(canon),
                        probe_blocks(fprobe.exists, fprobe.is_file),
                        eng,
                    )
                    &&& (r matches Ok(_)) == (db_stage_ok(
                        ctx_stage_next(old(self)@, *ctx, probe),
                        ctx_stage_name(*ctx),
                        ctx_stage_root(old(self)@, *ctx),
                        *db,
                        opt_str_view(canon),
                        probe_blocks(fprobe.exists, fprobe.is_file),
                        eng,
                    ) && match col {
                        CollectionSpecifier::Global { .. } => true,
                        CollectionSpecifier::Transaction { transaction, .. } =>
                            final(self)@.has_txn(
                                ctx_stage_name(*ctx),
                                db_stage_alias(*db),
                                transaction@,
                            ),
                    })
                },
            r matches Ok(c) ==> c.database.context.name@ == ctx_stage_name(*ctx)
                && c.database.name@ == db_stage_alias(*db) && match col {
                CollectionSpecifier::Global { name } => c.name@ == name@ && (
                c.transaction_id matches None),
                CollectionSpecifier::Transaction { transaction, name } => c.name@ == name@ && (
                c.transaction_id matches Some(tid) && tid@ == transaction@),
            },
    {
        let ghost m0 = self@;
        let ghost cv = opt_str_view(canon);
        let ghost enf = probe_blocks(fprobe.exists, fprobe.is_file);
        let rr = self.database(ctx, probe, db, canon, fprobe);
        proof {
            if ctx_stage_ok(m0, *ctx, probe) {
                let eng = choose|eng: bool|
                    {
                        &&& self@ == #[trigger] db_stage_next(ctx_stage_next(m0, *ctx, probe), ctx_stage_name(*ctx), ctx_stage_root(m0, *ctx), *db, cv, enf, eng)
                        &&& (rr matches Ok(_)) == db_stage_ok(ctx_stage_next(m0, *ctx, probe), ctx_stage_name(*ctx), ctx_stage_root(m0, *ctx), *db, cv, enf, eng)
                    };
                if rr matches Ok(_) {
                    match *db {
                        DatabaseSpecifier::Direct { .. } => {
                            lemma_open_database_registers(
                                ctx_stage_next(m0, *ctx, probe),
                                ctx_stage_name(*ctx),
                                ctx_stage_root(m0, *ctx),
                                db_stage_alias(*db),
                                db_stage_path(ctx_stage_next(m0, *ctx, probe), ctx_stage_name(*ctx), *db),
                                cv,
                                enf,
                                eng,
                            );
                        },
                        DatabaseSpecifier::Aliased { .. } => {},
                    }
                    assert(self@.has_db(ctx_stage_name(*ctx), db_stage_alias(*db)));
                }
            }
        }
        match rr {
            Err(e) => Err(e),
            Ok(d) => {
                match col {
                    CollectionSpecifier::Global { name } => Ok(d.collection(name.as_str())),
                    CollectionSpecifier::Transaction { transaction, name } => {
                        let t = match d.get_transaction(self, transaction.as_str()) {
                            Ok(t) => t,
                            Err(e) => {
                                return Err(e);
                            },
                        };
                        Ok(t.collection(name.as_str()))
                    },
                }
            },
        }
    }
}

} // verus!
