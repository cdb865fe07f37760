//! The process-wide registry state: contexts, their databases, the active
//! transactions of each database, and open file handles.
//!
//! Every entry is owned exclusively by the registry and found by key (name,
//! alias or id); callers hold descriptors that re-resolve on every operation,
//! so removal is observed immediately. The mathematical model of the state is
//! a tuple of sequences of key/attribute records, well-formed when every key
//! is unique.

use vstd::prelude::*;

use crate::engine::{EngineConnection, FileRef};
use crate::types::{ContextSpecifier, DatabaseSpecifier, DirProbe, FileHandleMode};
use crate::paths::{PathOutcome, resolve_outcome};

verus! {

/// One open database owned by a context.
pub struct ContextDB {
    /// Name of the owning context.
    pub context: String,
    /// Alias the database is registered under.
    pub name: String,
    /// Path of the database file, relative to the context root.
    pub path: String,
    /// The live engine connection.
    pub database: EngineConnection,
}

/// One active unit-of-work of a database.
pub struct TransactionEntry {
    /// Name of the owning context.
    pub context: String,
    /// Alias of the owning database.
    pub database: String,
    /// Identifier of the transaction.
    pub id: String,
    /// The engine session carrying the active transaction.
    pub session: polodb_core::ClientSession,
}

/// One open file handle owned by a context.
pub struct ContextFileHandle {
    /// Name of the owning context.
    pub context: String,
    /// Identifier of the handle.
    pub id: String,
    /// Path of the file, relative to the context root.
    pub path: String,
    /// Mode the file was opened with.
    pub mode: FileHandleMode,
    /// The open file, shared and lock-guarded per call.
    pub handle: FileRef,
}

/// One registered context.
pub struct ContextState {
    /// Unique context name.
    pub name: String,
    /// Root directory the context is sandboxed to.
    pub root_path: String,
}

/// Model of one context: its key and root.
pub struct ModelContext {
    pub name: Seq<char>,
    pub root: Seq<char>,
}

/// Model of one database: its composite key and relative path.
pub struct ModelDb {
    pub context: Seq<char>,
    pub alias: Seq<char>,
    pub path: Seq<char>,
}

/// Model of one active transaction: its composite key.
pub struct ModelTxn {
    pub context: Seq<char>,
    pub database: Seq<char>,
    pub id: Seq<char>,
}

/// Model of one open file handle: its key, path and mode.
pub struct ModelFile {
    pub context: Seq<char>,
    pub id: Seq<char>,
    pub path: Seq<char>,
    pub mode: FileHandleMode,
}

/// The model of the whole registry state.
pub struct Model {
    pub contexts: Seq<ModelContext>,
    pub dbs: Seq<ModelDb>,
    pub txns: Seq<ModelTxn>,
    pub files: Seq<ModelFile>,
}

impl View for ContextState {
    type V = ModelContext;

    open spec fn view(&self) -> ModelContext {
        ModelContext { name: self.name@, root: self.root_path@ }
    }
}

impl View for ContextDB {
    type V = ModelDb;

    open spec fn view(&self) -> ModelDb {
        ModelDb { context: self.context@, alias: self.name@, path: self.path@ }
    }
}

impl View for TransactionEntry {
    type V = ModelTxn;

    open spec fn view(&self) -> ModelTxn {
        ModelTxn { context: self.context@, database: self.database@, id: self.id@ }
    }
}

impl View for ContextFileHandle {
    type V = ModelFile;

    open spec fn view(&self) -> ModelFile {
        ModelFile { context: self.context@, id: self.id@, path: self.path@, mode: self.mode }
    }
}

/// The views of a sequence of context entries.
pub open spec fn ctxs_view(v: Seq<ContextState>) -> Seq<ModelContext> {
    Seq::new(v.len(), |i: int| v[i]@)
}

/// The views of a sequence of database entries.
pub open spec fn dbs_view(v: Seq<ContextDB>) -> Seq<ModelDb> {
    Seq::new(v.len(), |i: int| v[i]@)
}

/// The views of a sequence of transaction entries.
pub open spec fn txns_view(v: Seq<TransactionEntry>) -> Seq<ModelTxn> {
    Seq::new(v.len(), |i: int| v[i]@)
}

/// The views of a sequence of file handle entries.
pub open spec fn files_view(v: Seq<ContextFileHandle>) -> Seq<ModelFile> {
    Seq::new(v.len(), |i: int| v[i]@)
}

impl Model {
    /// Whether a context of the given name is registered.
    pub open spec fn has_context(self, name: Seq<char>) -> bool {
        exists|i: int| 0 <= i < self.contexts.len() && self.contexts[i].name == name
    }

    /// The index of the context with the given name.
    pub open spec fn context_index(self, name: Seq<char>) -> int {
        choose|i: int| 0 <= i < self.contexts.len() && self.contexts[i].name == name
    }

    /// The root path the named context was opened at.
    pub open spec fn context_root(self, name: Seq<char>) -> Seq<char> {
        self.contexts[self.context_index(name)].root
    }

    /// Whether the context `ctx` has a database registered under `alias`.
    pub open spec fn has_db(self, ctx: Seq<char>, alias: Seq<char>) -> bool {
        exists|i: int|
            0 <= i < self.dbs.len() && self.dbs[i].context == ctx && self.dbs[i].alias == alias
    }

    /// The index of the database `alias` of context `ctx`.
    pub open spec fn db_index(self, ctx: Seq<char>, alias: Seq<char>) -> int {
        choose|i: int|
            0 <= i < self.dbs.len() && self.dbs[i].context == ctx && self.dbs[i].alias == alias
    }

    /// The relative path the database `alias` of context `ctx` was opened at.
    pub open spec fn db_path(self, ctx: Seq<char>, alias: Seq<char>) -> Seq<char> {
        self.dbs[self.db_index(ctx, alias)].path
    }

    /// Whether the database `alias` of context `ctx` has an active
    /// transaction with the given id.
    pub open spec fn has_txn(self, ctx: Seq<char>, alias: Seq<char>, id: Seq<char>) -> bool {
        exists|i: int|
            0 <= i < self.txns.len() && self.txns[i].context == ctx && self.txns[i].database
                == alias && self.txns[i].id == id
    }

    /// The index of the given transaction.
    pub open spec fn txn_index(self, ctx: Seq<char>, alias: Seq<char>, id: Seq<char>) -> int {
        choose|i: int|
            0 <= i < self.txns.len() && self.txns[i].context == ctx && self.txns[i].database
                == alias && self.txns[i].id == id
    }

    /// Whether the context `ctx` has an open file handle with the given id.
    pub open spec fn has_file(self, ctx: Seq<char>, id: Seq<char>) -> bool {
        exists|i: int|
            0 <= i < self.files.len() && self.files[i].context == ctx && self.files[i].id == id
    }

    /// The index of the file handle with the given id.
    pub open spec fn file_index(self, ctx: Seq<char>, id: Seq<char>) -> int {
        choose|i: int|
            0 <= i < self.files.len() && self.files[i].context == ctx && self.files[i].id == id
    }

    /// The relative path of the given file handle.
    pub open spec fn file_path(self, ctx: Seq<char>, id: Seq<char>) -> Seq<char> {
        self.files[self.file_index(ctx, id)].path
    }

    /// The mode of the given file handle.
    pub open spec fn file_mode(self, ctx: Seq<char>, id: Seq<char>) -> FileHandleMode {
        self.files[self.file_index(ctx, id)].mode
    }

    /// Well-formedness: every key is unique at its level — context names,
    /// (context, alias) pairs, (context, alias, id) triples and
    /// (context, id) pairs.
    pub open spec fn wf(self) -> bool {
        &&& ctxs_unique(self.contexts)
        &&& dbs_unique(self.dbs)
        &&& txns_unique(self.txns)
        &&& files_unique(self.files)
    }
}

/// No two context records share a name.
pub open spec fn ctxs_unique(s: Seq<ModelContext>) -> bool {
    forall|i: int, j: int|
        #![trigger s[i], s[j]]
        0 <= i < s.len() && 0 <= j < s.len() && i != j ==> s[i].name != s[j].name
}

/// No two database records share their (context, alias) key.
pub open spec fn dbs_unique(s: Seq<ModelDb>) -> bool {
    forall|i: int, j: int|
        #![trigger s[i], s[j]]
        0 <= i < s.len() && 0 <= j < s.len() && i != j ==> !(s[i].context == s[j].context
            && s[i].alias == s[j].alias)
}

/// No two transaction records share their (context, database, id) key.
pub open spec fn txns_unique(s: Seq<ModelTxn>) -> bool {
    forall|i: int, j: int|
        #![trigger s[i], s[j]]
        0 <= i < s.len() && 0 <= j < s.len() && i != j ==> !(s[i].context == s[j].context
            && s[i].database == s[j].database && s[i].id == s[j].id)
}

/// No two file handle records share their (context, id) key.
pub open spec fn files_unique(s: Seq<ModelFile>) -> bool {
    forall|i: int, j: int|
        #![trigger s[i], s[j]]
        0 <= i < s.len() && 0 <= j < s.len() && i != j ==> !(s[i].context == s[j].context
            && s[i].id == s[j].id)
}

/// Whether the file probe forbids opening a database: something exists at
/// the resolved path and it is not a regular file.
pub open spec fn probe_blocks(exists_at: bool, is_file: bool) -> bool {
    exists_at && !is_file
}

/// The predicate selecting the transaction records that survive closing the
/// database `alias` of context `ctx`: those of any other database.
pub open spec fn survives_pred(ctx: Seq<char>, alias: Seq<char>) -> spec_fn(ModelTxn) -> bool {
    |t: ModelTxn| !(t.context == ctx && t.database == alias)
}

/// Uniqueness of context names survives adding a name not yet present.
pub proof fn lemma_ctxs_unique_push(s: Seq<ModelContext>, e: ModelContext)
    requires
        ctxs_unique(s),
        forall|k: int| 0 <= k < s.len() ==> s[k].name != e.name,
    ensures
        ctxs_unique(s.push(e)),
{
}

/// Uniqueness of database keys survives adding a key not yet present.
pub proof fn lemma_dbs_unique_push(s: Seq<ModelDb>, e: ModelDb)
    requires
        dbs_unique(s),
        forall|k: int| 0 <= k < s.len() ==> !(s[k].context == e.context && s[k].alias == e.alias),
    ensures
        dbs_unique(s.push(e)),
{
}

/// Uniqueness of transaction keys survives adding a key not yet present.
pub proof fn lemma_txns_unique_push(s: Seq<ModelTxn>, e: ModelTxn)
    requires
        txns_unique(s),
        forall|k: int|
            0 <= k < s.len() ==> !(s[k].context == e.context && s[k].database == e.database
                && s[k].id == e.id),
    ensures
        txns_unique(s.push(e)),
{
}

/// Uniqueness of file handle keys survives adding a key not yet present.
pub proof fn lemma_files_unique_push(s: Seq<ModelFile>, e: ModelFile)
    requires
        files_unique(s),
        forall|k: int| 0 <= k < s.len() ==> !(s[k].context == e.context && s[k].id == e.id),
    ensures
        files_unique(s.push(e)),
{
}

/// Removing a transaction record and re-inserting one with the same key at
/// the same position leaves the model sequence unchanged.
pub proof fn lemma_reinsert_view(
    t0: Seq<TransactionEntry>,
    t1: Seq<TransactionEntry>,
    j: int,
    e: TransactionEntry,
)
    requires
        0 <= j < t0.len(),
        t1 == t0.remove(j).insert(j, e),
        e@ == t0[j]@,
    ensures
        txns_view(t1) == txns_view(t0),
{
    t0.remove_ensures(j);
    t0.remove(j).insert_ensures(j, e);
    assert forall|k: int| 0 <= k < t0.len() implies t1[k]@ == t0[k]@ by {
        if k < j {
            assert(t1[k] == t0.remove(j)[k]);
        } else if k == j {
            assert(t1[k] == e);
        } else {
            assert(t1[k] == t0.remove(j)[k - 1]);
        }
    }
    assert(txns_view(t1) =~= txns_view(t0));
}

/// Uniqueness of database keys survives removing a record.
pub proof fn lemma_dbs_unique_remove(s: Seq<ModelDb>, i: int)
    requires
        dbs_unique(s),
        0 <= i < s.len(),
    ensures
        dbs_unique(s.remove(i)),
{
    s.remove_ensures(i);
}

/// Uniqueness of transaction keys survives removing a record.
pub proof fn lemma_txns_unique_remove(s: Seq<ModelTxn>, i: int)
    requires
        txns_unique(s),
        0 <= i < s.len(),
    ensures
        txns_unique(s.remove(i)),
{
    s.remove_ensures(i);
}

/// Uniqueness of file handle keys survives replacing a record by one with
/// the same key.
pub proof fn lemma_files_unique_update(s: Seq<ModelFile>, j: int, e: ModelFile)
    requires
        files_unique(s),
        0 <= j < s.len(),
        e.context == s[j].context,
        e.id == s[j].id,
    ensures
        files_unique(s.update(j, e)),
{
}

/// Uniqueness of file handle keys survives removing a record.
pub proof fn lemma_files_unique_remove(s: Seq<ModelFile>, i: int)
    requires
        files_unique(s),
        0 <= i < s.len(),
    ensures
        files_unique(s.remove(i)),
{
    s.remove_ensures(i);
}

/// Whether the directory facts allow registering a new context: the root
/// exists as a directory, or was just created.
pub open spec fn probe_allows(probe: DirProbe) -> bool {
    probe matches DirProbe::ExistingDir || probe matches DirProbe::Created
}

/// The state after asking to open (or fetch) a context: registering `name`
/// at root `path` when it is new and the directory facts allow it; any other
/// request leaves the state unchanged.
pub open spec fn open_context_tr(m: Model, name: Seq<char>, path: Seq<char>, probe: DirProbe) -> Model {
    if m.has_context(name) {
        m
    } else if probe_allows(probe) {
        Model { contexts: m.contexts.push(ModelContext { name, root: path }), ..m }
    } else {
        m
    }
}

/// Whether asking to open (or fetch) a context succeeds: an existing context
/// must be asked for under its original root; a new one needs an existing or
/// freshly created directory.
pub open spec fn open_context_ok(m: Model, name: Seq<char>, path: Seq<char>, probe: DirProbe) -> bool {
    if m.has_context(name) {
        m.context_root(name) == path
    } else {
        probe_allows(probe)
    }
}

/// The state after asking to open (or fetch) a database: registering
/// `alias` at relative path `rel` in context `ctx` when the path resolves,
/// the alias is new, the resolved target is absent or a regular file, and
/// the engine opened it (`engine_ok`); any other request leaves the state
/// unchanged.
pub open spec fn open_database_tr(
    m: Model,
    ctx: Seq<char>,
    root: Seq<char>,
    alias: Seq<char>,
    rel: Seq<char>,
    canon: Option<Seq<char>>,
    exists_not_file: bool,
    engine_ok: bool,
) -> Model {
    if !(resolve_outcome(root, rel, canon) matches PathOutcome::Resolved(_)) {
        m
    } else if m.has_db(ctx, alias) {
        m
    } else if exists_not_file {
        m
    } else if engine_ok {
        Model { dbs: m.dbs.push(ModelDb { context: ctx, alias, path: rel }), ..m }
    } else {
        m
    }
}

/// A successful database-open request leaves the alias registered.
pub proof fn lemma_open_database_registers(
    m: Model,
    ctx: Seq<char>,
    root: Seq<char>,
    alias: Seq<char>,
    rel: Seq<char>,
    canon: Option<Seq<char>>,
    enf: bool,
    eng: bool,
)
    requires
        open_database_ok(m, ctx, root, alias, rel, canon, enf, eng),
    ensures
        open_database_tr(m, ctx, root, alias, rel, canon, enf, eng).has_db(ctx, alias),
{
    let m1 = open_database_tr(m, ctx, root, alias, rel, canon, enf, eng);
    if !m.has_db(ctx, alias) {
        assert(m1.dbs[m.dbs.len() as int].context == ctx && m1.dbs[m.dbs.len() as int].alias
            == alias);
    }
}

/// Whether asking to open (or fetch) a database succeeds.
pub open spec fn open_database_ok(
    m: Model,
    ctx: Seq<char>,
    root: Seq<char>,
    alias: Seq<char>,
    rel: Seq<char>,
    canon: Option<Seq<char>>,
    exists_not_file: bool,
    engine_ok: bool,
) -> bool {
    &&& resolve_outcome(root, rel, canon) matches PathOutcome::Resolved(_)
    &&& if m.has_db(ctx, alias) {
        m.db_path(ctx, alias) == rel
    } else {
        !exists_not_file && engine_ok
    }
}

/// The state after starting a transaction under a fresh identifier: the new
/// record is added; should the identifier already be in use, its record is
/// replaced, which the model (holding keys only) does not observe.
pub open spec fn start_txn_tr(m: Model, ctx: Seq<char>, alias: Seq<char>, id: Seq<char>) -> Model {
    if m.has_txn(ctx, alias, id) {
        m
    } else {
        Model { txns: m.txns.push(ModelTxn { context: ctx, database: alias, id }), ..m }
    }
}

/// The state after registering a file handle under the given identifier:
/// the record is added; should the identifier already be in use, its record
/// is replaced.
pub open spec fn register_file_tr(
    m: Model,
    ctx: Seq<char>,
    id: Seq<char>,
    path: Seq<char>,
    mode: FileHandleMode,
) -> Model {
    if m.has_file(ctx, id) {
        Model {
            files: m.files.update(
                m.file_index(ctx, id),
                ModelFile { context: ctx, id, path, mode },
            ),
            ..m
        }
    } else {
        Model { files: m.files.push(ModelFile { context: ctx, id, path, mode }), ..m }
    }
}

/// The state after ending (committing or rolling back) a transaction: the
/// entry is removed exactly when its database and id are found; the entry is
/// removed whether or not the engine's terminal operation succeeds.
pub open spec fn end_txn_tr(m: Model, ctx: Seq<char>, alias: Seq<char>, id: Seq<char>) -> Model {
    if !m.has_db(ctx, alias) {
        m
    } else if !m.has_txn(ctx, alias, id) {
        m
    } else {
        Model { txns: m.txns.remove(m.txn_index(ctx, alias, id)), ..m }
    }
}

/// How a request to end a transaction is classified: unknown database,
/// unknown transaction, or handed on to the engine.
pub enum EndTxnRes {
    /// The owning database is not registered.
    UnknownDb,
    /// The id is not an active transaction of that database.
    UnknownTxn,
    /// The entry was removed and the engine was asked to finish the work.
    Ended,
}

/// Classifies a request to end a transaction.
pub open spec fn end_txn_res(m: Model, ctx: Seq<char>, alias: Seq<char>, id: Seq<char>) -> EndTxnRes {
    if !m.has_db(ctx, alias) {
        EndTxnRes::UnknownDb
    } else if !m.has_txn(ctx, alias, id) {
        EndTxnRes::UnknownTxn
    } else {
        EndTxnRes::Ended
    }
}

/// How resolving a collection is answered: against the database directly, or
/// against one of its active transactions.
pub enum ColResolve {
    /// The owning database is not registered.
    UnknownDb,
    /// The requested transaction is not active.
    UnknownTxn,
    /// Resolved against the bare database connection.
    Standalone,
    /// Resolved against the active transaction.
    InTxn,
}

/// Classifies a request to resolve a collection of database `alias` in
/// context `ctx`, optionally scoped to transaction `txn`.
pub open spec fn resolve_collection(
    m: Model,
    ctx: Seq<char>,
    alias: Seq<char>,
    txn: Option<Seq<char>>,
) -> ColResolve {
    if !m.has_db(ctx, alias) {
        ColResolve::UnknownDb
    } else {
        match txn {
            Option::None => ColResolve::Standalone,
            Option::Some(id) => if m.has_txn(ctx, alias, id) {
                ColResolve::InTxn
            } else {
                ColResolve::UnknownTxn
            },
        }
    }
}


/// The context name a specifier asks for.
pub open spec fn ctx_stage_name(spec: ContextSpecifier) -> Seq<char> {
    match spec {
        ContextSpecifier::Direct { alias, .. } => alias@,
        ContextSpecifier::Aliased { alias } => alias@,
    }
}

/// Whether resolving a context specifier succeeds: a direct one by the
/// open-or-fetch rule, an aliased one only when the context is registered.
pub open spec fn ctx_stage_ok(m: Model, spec: ContextSpecifier, probe: DirProbe) -> bool {
    match spec {
        ContextSpecifier::Direct { alias, path } => open_context_ok(m, alias@, path@, probe),
        ContextSpecifier::Aliased { alias } => m.has_context(alias@),
    }
}

/// The state after resolving a context specifier.
pub open spec fn ctx_stage_next(m: Model, spec: ContextSpecifier, probe: DirProbe) -> Model {
    match spec {
        ContextSpecifier::Direct { alias, path } => open_context_tr(m, alias@, path@, probe),
        ContextSpecifier::Aliased { .. } => m,
    }
}

/// The root path of the context a specifier resolves to (meaningful when
/// resolution succeeds).
pub open spec fn ctx_stage_root(m: Model, spec: ContextSpecifier) -> Seq<char> {
    match spec {
        ContextSpecifier::Direct { path, .. } => path@,
        ContextSpecifier::Aliased { alias } => m.context_root(alias@),
    }
}

/// The database alias a specifier asks for.
pub open spec fn db_stage_alias(spec: DatabaseSpecifier) -> Seq<char> {
    match spec {
        DatabaseSpecifier::Direct { alias, .. } => alias@,
        DatabaseSpecifier::Aliased { alias } => alias@,
    }
}

/// Whether resolving a database specifier in context `cname` (rooted at
/// `root`) succeeds.
pub open spec fn db_stage_ok(
    m: Model,
    cname: Seq<char>,
    root: Seq<char>,
    spec: DatabaseSpecifier,
    canon: Option<Seq<char>>,
    enf: bool,
    eng: bool,
) -> bool {
    match spec {
        DatabaseSpecifier::Direct { alias, path } => open_database_ok(
            m,
            cname,
            root,
            alias@,
            path@,
            canon,
            enf,
            eng,
        ),
        DatabaseSpecifier::Aliased { alias } => m.has_db(cname, alias@),
    }
}

/// The state after resolving a database specifier.
pub open spec fn db_stage_next(
    m: Model,
    cname: Seq<char>,
    root: Seq<char>,
    spec: DatabaseSpecifier,
    canon: Option<Seq<char>>,
    enf: bool,
    eng: bool,
) -> Model {
    match spec {
        DatabaseSpecifier::Direct { alias, path } => open_database_tr(
            m,
            cname,
            root,
            alias@,
            path@,
            canon,
            enf,
            eng,
        ),
        DatabaseSpecifier::Aliased { .. } => m,
    }
}

/// The relative path of the database a specifier resolves to (meaningful
/// when resolution succeeds).
pub open spec fn db_stage_path(m: Model, cname: Seq<char>, spec: DatabaseSpecifier) -> Seq<char> {
    match spec {
        DatabaseSpecifier::Direct { path, .. } => path@,
        DatabaseSpecifier::Aliased { alias } => m.db_path(cname, alias@),
    }
}

/// The process-wide registry; one value of this type owns every context,
/// database, transaction and file handle.
pub struct Persistence {
    /// Registered contexts, keyed by name.
    pub contexts: Vec<ContextState>,
    /// Open databases, keyed by (context, alias).
    pub databases: Vec<ContextDB>,
    /// Active transactions, keyed by (context, database, id).
    pub transactions: Vec<TransactionEntry>,
    /// Open file handles, keyed by (context, id).
    pub files: Vec<ContextFileHandle>,
}

impl View for Persistence {
    type V = Model;

    open spec fn view(&self) -> Model {
        Model {
            contexts: ctxs_view(self.contexts@),
            dbs: dbs_view(self.databases@),
            txns: txns_view(self.transactions@),
            files: files_view(self.files@),
        }
    }
}

impl Persistence {
    /// Validity of the registry: its model is well-formed.
    pub open spec fn inv(&self) -> bool {
        self@.wf()
    }

    /// A fresh registry with no contexts, databases, transactions or files.
    pub fn new() -> (r: Self)
        ensures
            r.inv(),
            r@.contexts.len() == 0,
            r@.dbs.len() == 0,
            r@.txns.len() == 0,
            r@.files.len() == 0,
    {
        Persistence {
            contexts: Vec::new(),
            databases: Vec::new(),
            transactions: Vec::new(),
            files: Vec::new(),
        }
    }

    /// Finds the index of the named context.
    pub(crate) fn find_context(&self, name: &str) -> (r: Option<usize>)
        requires
            self.inv(),
        ensures
            match r {
                Some(i) => i < self.contexts@.len() && self.contexts@[i as int]@.name == name@
                    && self@.has_context(name@) && self@.context_index(name@) == i as int,
                None => !self@.has_context(name@),
            },
    {
        let n = self.contexts.len();
        let mut i: usize = 0;
        while i < n
            invariant
                self.inv(),
                n == self.contexts@.len(),
                i <= n,
                forall|k: int| 0 <= k < i ==> self.contexts@[k]@.name != name@,
            decreases n - i,
        {
            if crate::text::str_eq(self.contexts[i].name.as_str(), name) {
                proof {
                    assert(self@.contexts[i as int].name == name@);
                    assert(self@.has_context(name@));
                    let j = self@.context_index(name@);
                    assert(self@.contexts[j].name == name@);
                    if j != i as int {
                        assert(self@.contexts[j].name != self@.contexts[i as int].name);
                    }
                    assert(j == i as int);
                }
                return Some(i);
            }
            i += 1;
        }
        proof {
            assert forall|k: int| 0 <= k < self@.contexts.len() implies self@.contexts[k].name
                != name@ by {
                assert(self.contexts@[k]@.name != name@);
            }
        }
        None
    }

    /// Finds the index of the database `alias` of context `ctx`.
    pub(crate) fn find_db(&self, ctx: &str, alias: &str) -> (r: Option<usize>)
        requires
            self.inv(),
        ensures
            match r {
                Some(i) => i < self.databases@.len() && self.databases@[i as int]@.context == ctx@
                    && self.databases@[i as int]@.alias == alias@ && self@.has_db(ctx@, alias@)
                    && self@.db_index(ctx@, alias@) == i as int,
                None => !self@.has_db(ctx@, alias@),
            },
    {
        let n = self.databases.len();
        let mut i: usize = 0;
        while i < n
            invariant
                self.inv(),
                n == self.databases@.len(),
                i <= n,
                forall|k: int|
                    0 <= k < i ==> !(self.databases@[k]@.context == ctx@ && self.databases@[k]@.alias
                        == alias@),
            decreases n - i,
        {
            if crate::text::str_eq(self.databases[i].context.as_str(), ctx) && crate::text::str_eq(
                self.databases[i].name.as_str(),
                alias,
            ) {
                proof {
                    assert(self@.dbs[i as int].context == ctx@ && self@.dbs[i as int].alias
                        == alias@);
                    assert(self@.has_db(ctx@, alias@));
                    let j = self@.db_index(ctx@, alias@);
                    assert(self@.dbs[j].context == ctx@ && self@.dbs[j].alias == alias@);
                    if j != i as int {
                        assert(!(self@.dbs[j].context == self@.dbs[i as int].context
                            && self@.dbs[j].alias == self@.dbs[i as int].alias));
                    }
                    assert(j == i as int);
                }
                return Some(i);
            }
            i += 1;
        }
        proof {
            assert forall|k: int|
                0 <= k < self@.dbs.len() implies !(self@.dbs[k].context == ctx@ && self@.dbs[k].alias
                == alias@) by {
                assert(!(self.databases@[k]@.context == ctx@ && self.databases@[k]@.alias
                    == alias@));
            }
        }
        None
    }

    /// Finds the index of the transaction `id` of database `alias` in
    /// context `ctx`.
    pub(crate) fn find_txn(&self, ctx: &str, alias: &str, id: &str) -> (r: Option<usize>)
        requires
            self.inv(),
        ensures
            match r {
                Some(i) => i < self.transactions@.len() && self.transactions@[i as int]@.context
                    == ctx@ && self.transactions@[i as int]@.database == alias@
                    && self.transactions@[i as int]@.id == id@ && self@.has_txn(ctx@, alias@, id@)
                    && self@.txn_index(ctx@, alias@, id@) == i as int,
                None => !self@.has_txn(ctx@, alias@, id@),
            },
    {
        let n = self.transactions.len();
        let mut i: usize = 0;
        while i < n
            invariant
                self.inv(),
                n == self.transactions@.len(),
                i <= n,
                forall|k: int|
                    0 <= k < i ==> !(self.transactions@[k]@.context == ctx@
                        && self.transactions@[k]@.database == alias@ && self.transactions@[k]@.id
                        == id@),
            decreases n - i,
        {
            if crate::text::str_eq(self.transactions[i].context.as_str(), ctx)
                && crate::text::str_eq(self.transactions[i].database.as_str(), alias)
                && crate::text::str_eq(self.transactions[i].id.as_str(), id) {
                proof {
                    assert(self@.txns[i as int].context == ctx@ && self@.txns[i as int].database
                        == alias@ && self@.txns[i as int].id == id@);
                    assert(self@.has_txn(ctx@, alias@, id@));
                    let j = self@.txn_index(ctx@, alias@, id@);
                    assert(self@.txns[j].context == ctx@ && self@.txns[j].database == alias@
                        && self@.txns[j].id == id@);
                    if j != i as int {
                        assert(!(self@.txns[j].context == self@.txns[i as int].context
                            && self@.txns[j].database == self@.txns[i as int].database
                            && self@.txns[j].id == self@.txns[i as int].id));
                    }
                    assert(j == i as int);
                }
                return Some(i);
            }
            i += 1;
        }
        proof {
            assert forall|k: int|
                0 <= k < self@.txns.len() implies !(self@.txns[k].context == ctx@
                && self@.txns[k].database == alias@ && self@.txns[k].id == id@) by {
                assert(!(self.transactions@[k]@.context == ctx@ && self.transactions@[k]@.database
                    == alias@ && self.transactions@[k]@.id == id@));
            }
        }
        None
    }

    /// Finds the index of the file handle `id` of context `ctx`.
    pub(crate) fn find_file(&self, ctx: &str, id: &str) -> (r: Option<usize>)
        requires
            self.inv(),
        ensures
            match r {
                Some(i) => i < self.files@.len() && self.files@[i as int]@.context == ctx@
                    && self.files@[i as int]@.id == id@ && self@.has_file(ctx@, id@)
                    && self@.file_index(ctx@, id@) == i as int,
                None => !self@.has_file(ctx@, id@),
            },
    {
        let n = self.files.len();
        let mut i: usize = 0;
        while i < n
            invariant
                self.inv(),
                n == self.files@.len(),
                i <= n,
                forall|k: int|
                    0 <= k < i ==> !(self.files@[k]@.context == ctx@ && self.files@[k]@.id == id@),
            decreases n - i,
        {
            if crate::text::str_eq(self.files[i].context.as_str(), ctx) && crate::text::str_eq(
                self.files[i].id.as_str(),
                id,
            ) {
                proof {
                    assert(self@.files[i as int].context == ctx@ && self@.files[i as int].id
                        == id@);
                    assert(self@.has_file(ctx@, id@));
                    let j = self@.file_index(ctx@, id@);
                    assert(self@.files[j].context == ctx@ && self@.files[j].id == id@);
                    if j != i as int {
                        assert(!(self@.files[j].context == self@.files[i as int].context
                            && self@.files[j].id == self@.files[i as int].id));
                    }
                    assert(j == i as int);
                }
                return Some(i);
            }
            i += 1;
        }
        proof {
            assert forall|k: int|
                0 <= k < self@.files.len() implies !(self@.files[k].context == ctx@
                && self@.files[k].id == id@) by {
                assert(!(self.files@[k]@.context == ctx@ && self.files@[k]@.id == id@));
            }
        }
        None
    }
}

} // verus!
