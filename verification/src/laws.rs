//! Laws of the registry, proved once over its mathematical model: what
//! repeated opens of the same alias observe, and that a finished transaction
//! is finished for good. Each law quantifies over every well-formed state.

use vstd::prelude::*;

use crate::state::{
    ColResolve, EndTxnRes, Model, ModelContext, ModelDb, end_txn_res, end_txn_tr,
    lemma_ctxs_unique_push, lemma_dbs_unique_push, lemma_txns_unique_remove, open_context_ok,
    open_context_tr, open_database_ok, open_database_tr, resolve_collection,
};
use crate::paths::PathOutcome;
use crate::paths::resolve_outcome;
use crate::types::DirProbe;

verus! {

/// Opening a context alias twice with the same path both times refers to the
/// same registered root each time and leaves the registry unchanged the
/// second time; asking for the alias again under a different path fails
/// without mutating anything.
pub proof fn lemma_context_reopen(
    m: Model,
    name: Seq<char>,
    path: Seq<char>,
    probe: DirProbe,
    probe2: DirProbe,
    path2: Seq<char>,
)
    requires
        m.wf(),
        open_context_ok(m, name, path, probe),
    ensures
        ({
            let m1 = open_context_tr(m, name, path, probe);
            &&& m1.wf()
            &&& m1.has_context(name)
            &&& m1.context_root(name) == path
            &&& open_context_ok(m1, name, path, probe2)
            &&& open_context_tr(m1, name, path, probe2) == m1
            &&& (path2 != path ==> !open_context_ok(m1, name, path2, probe2))
            &&& open_context_tr(m1, name, path2, probe2) == m1
        }),
{
    let m1 = open_context_tr(m, name, path, probe);
    if m.has_context(name) {
        assert(m1 == m);
        assert(m1.context_root(name) == path);
    } else {
        let e = ModelContext { name, root: path };
        assert(m1.contexts == m.contexts.push(e));
        assert forall|k: int| 0 <= k < m.contexts.len() implies m.contexts[k].name != name by {}
        lemma_ctxs_unique_push(m.contexts, e);
        assert(m1.contexts[m.contexts.len() as int] == e);
        assert(m1.has_context(name));
        let j = m1.context_index(name);
        assert(0 <= j < m1.contexts.len() && m1.contexts[j].name == name);
        if j != m.contexts.len() as int {
            assert(m1.contexts[j].name != m1.contexts[m.contexts.len() as int].name);
        }
        assert(m1.context_root(name) == path);
    }
}

/// A database alias already open at a relative path is answered as-is when
/// asked for again under the same path, whatever the engine would have said,
/// and a request under a different path fails; neither request mutates the
/// registry.
pub proof fn lemma_database_reopen(
    m: Model,
    ctx: Seq<char>,
    root: Seq<char>,
    alias: Seq<char>,
    rel: Seq<char>,
    canon: Option<Seq<char>>,
    enf: bool,
    eng: bool,
    rel2: Seq<char>,
    canon2: Option<Seq<char>>,
    enf2: bool,
    eng2: bool,
)
    requires
        m.wf(),
        m.has_db(ctx, alias),
        m.db_path(ctx, alias) == rel,
        resolve_outcome(root, rel, canon) matches PathOutcome::Resolved(_),
        resolve_outcome(root, rel2, canon2) matches PathOutcome::Resolved(_),
    ensures
        open_database_ok(m, ctx, root, alias, rel, canon, enf, eng),
        open_database_tr(m, ctx, root, alias, rel, canon, enf, eng) == m,
        rel2 != rel ==> !open_database_ok(m, ctx, root, alias, rel2, canon2, enf2, eng2),
        open_database_tr(m, ctx, root, alias, rel2, canon2, enf2, eng2) == m,
{
}

/// The first successful opening of a database alias registers it, well
/// formed, under exactly the requested relative path.
pub proof fn lemma_database_open_registers(
    m: Model,
    ctx: Seq<char>,
    root: Seq<char>,
    alias: Seq<char>,
    rel: Seq<char>,
    canon: Option<Seq<char>>,
    enf: bool,
    eng: bool,
)
    requires
        m.wf(),
        !m.has_db(ctx, alias),
        open_database_ok(m, ctx, root, alias, rel, canon, enf, eng),
    ensures
        ({
            let m1 = open_database_tr(m, ctx, root, alias, rel, canon, enf, eng);
            &&& m1.wf()
            &&& m1.has_db(ctx, alias)
            &&& m1.db_path(ctx, alias) == rel
        }),
{
    let m1 = open_database_tr(m, ctx, root, alias, rel, canon, enf, eng);
    let e = ModelDb { context: ctx, alias, path: rel };
    assert(m1.dbs == m.dbs.push(e));
    assert forall|k: int| 0 <= k < m.dbs.len() implies !(m.dbs[k].context == ctx && m.dbs[k].alias
        == alias) by {}
    lemma_dbs_unique_push(m.dbs, e);
    assert(m1.dbs[m.dbs.len() as int] == e);
    assert(m1.has_db(ctx, alias));
    let j = m1.db_index(ctx, alias);
    assert(0 <= j < m1.dbs.len() && m1.dbs[j].context == ctx && m1.dbs[j].alias == alias);
    if j != m.dbs.len() as int {
        assert(!(m1.dbs[j].context == m1.dbs[m.dbs.len() as int].context && m1.dbs[j].alias
            == m1.dbs[m.dbs.len() as int].alias));
    }
    assert(m1.db_path(ctx, alias) == rel);
}

/// Transaction terminality: once a commit or rollback has gone through, the
/// identifier is gone for good — ending it again answers
/// `UnknownTransaction` without changing anything, and a collection scoped
/// to the identifier no longer resolves. The registry stays well formed and
/// the database itself remains open.
pub proof fn lemma_transaction_terminal(m: Model, ctx: Seq<char>, alias: Seq<char>, id: Seq<char>)
    requires
        m.wf(),
        m.has_db(ctx, alias),
        m.has_txn(ctx, alias, id),
    ensures
        ({
            let m1 = end_txn_tr(m, ctx, alias, id);
            &&& end_txn_res(m, ctx, alias, id) matches EndTxnRes::Ended
            &&& m1.wf()
            &&& m1.has_db(ctx, alias)
            &&& !m1.has_txn(ctx, alias, id)
            &&& end_txn_tr(m1, ctx, alias, id) == m1
            &&& end_txn_res(m1, ctx, alias, id) matches EndTxnRes::UnknownTxn
            &&& resolve_collection(m1, ctx, alias, Some(id)) matches ColResolve::UnknownTxn
        }),
{
    let j = m.txn_index(ctx, alias, id);
    assert(0 <= j < m.txns.len() && m.txns[j].context == ctx && m.txns[j].database == alias
        && m.txns[j].id == id);
    let m1 = end_txn_tr(m, ctx, alias, id);
    lemma_txns_unique_remove(m.txns, j);
    m.txns.remove_ensures(j);
    assert forall|k: int| 0 <= k < m1.txns.len() implies !(m1.txns[k].context == ctx
        && m1.txns[k].database == alias && m1.txns[k].id == id) by {
        if k < j {
            assert(m1.txns[k] == m.txns[k]);
            if m.txns[k].context == ctx && m.txns[k].database == alias && m.txns[k].id == id {
                assert(!(m.txns[k].context == m.txns[j].context && m.txns[k].database
                    == m.txns[j].database && m.txns[k].id == m.txns[j].id));
            }
        } else {
            assert(m1.txns[k] == m.txns[k + 1]);
            if m.txns[k + 1].context == ctx && m.txns[k + 1].database == alias && m.txns[k
                + 1].id == id {
                assert(!(m.txns[k + 1].context == m.txns[j].context && m.txns[k + 1].database
                    == m.txns[j].database && m.txns[k + 1].id == m.txns[j].id));
            }
        }
    }
    assert(!m1.has_txn(ctx, alias, id));
    assert(end_txn_res(m, ctx, alias, id) matches EndTxnRes::Ended);
    assert(m1.wf());
    assert(m1.has_db(ctx, alias));
    assert(end_txn_tr(m1, ctx, alias, id) == m1);
    assert(end_txn_res(m1, ctx, alias, id) matches EndTxnRes::UnknownTxn);
    assert(resolve_collection(m1, ctx, alias, Some(id)) matches ColResolve::UnknownTxn);
}

} // verus!
