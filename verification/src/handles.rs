//! Capability-scoped descriptors returned to callers: a Context, Database,
//! Transaction or FileHandle is an identity (names and ids) plus enough
//! metadata to display. Every operation re-resolves the live resource from
//! the registry, so closing a resource elsewhere is observed immediately.

use vstd::prelude::*;

use crate::error::Error;
use crate::paths::{PathOutcome, opt_str_view, resolve, resolve_outcome};

verus! {

/// A descriptor of an open context: its unique name and root path.
pub struct Context {
    pub name: String,
    pub path: String,
}

/// A descriptor of an open database: its owning context, alias and relative
/// path.
pub struct Database {
    pub context: Context,
    pub name: String,
    pub path: String,
}

/// A descriptor of an active transaction: its owning database and id.
pub struct Transaction {
    pub database: Database,
    pub id: String,
}

/// A descriptor of an open file handle: its owning context, id and relative
/// path.
pub struct FileHandle {
    pub context: Context,
    pub id: String,
    pub path: String,
}

impl Context {
    /// Builds a context descriptor.
    pub(crate) fn create(name: String, path: String) -> (r: Self)
        ensures
            r.name@ == name@,
            r.path@ == path@,
    {
        Context { name, path }
    }

    /// The context's unique name.
    pub fn name(&self) -> (r: String)
        ensures
            r@ == self.name@,
    {
        self.name.clone()
    }

    /// The root path the context was opened at.
    pub fn path(&self) -> (r: String)
        ensures
            r@ == self.path@,
    {
        self.path.clone()
    }

    /// The root path of the context, as supplied at open time.
    pub fn base_path(&self) -> (r: String)
        ensures
            r@ == self.path@,
    {
        self.path.clone()
    }

    /// Resolves a caller-supplied relative path inside this context's
    /// sandbox, given the canonicalization outcome of the joined path.
    pub fn get_path(&self, path: &str, canon: Option<String>) -> (r: Result<String, Error>)
        ensures
            match resolve_outcome(self.path@, path@, opt_str_view(canon)) {
                PathOutcome::Absolute => r matches Err(Error::NoAbsolutePaths { reason })
                    && reason@ == path@,
                PathOutcome::NotCanonical => r matches Err(Error::InvalidPath { reason })
                    && reason@ == path@,
                PathOutcome::Escapes => r matches Err(Error::PathEscapesContext { reason })
                    && reason@ == path@,
                PathOutcome::Resolved(c) => r matches Ok(s) && s@ == c,
            },
    {
        resolve(self.path.as_str(), path, canon)
    }
}

impl Database {
    /// Builds a database descriptor.
    pub(crate) fn create(context: Context, name: String, path: String) -> (r: Self)
        ensures
            r.context == context,
            r.name@ == name@,
            r.path@ == path@,
    {
        Database { context, name, path }
    }

    /// The alias the database is registered under.
    pub fn name(&self) -> (r: String)
        ensures
            r@ == self.name@,
    {
        self.name.clone()
    }

    /// The database's path, relative to its context root.
    pub fn path(&self) -> (r: String)
        ensures
            r@ == self.path@,
    {
        self.path.clone()
    }

    /// The database's absolute path, by resolving its relative path in its
    /// context's sandbox.
    pub fn absolute_path(&self, canon: Option<String>) -> (r: Result<String, Error>)
        ensures
            match resolve_outcome(self.context.path@, self.path@, opt_str_view(canon)) {
                PathOutcome::Absolute => r matches Err(Error::NoAbsolutePaths { reason })
                    && reason@ == self.path@,
                PathOutcome::NotCanonical => r matches Err(Error::InvalidPath { reason })
                    && reason@ == self.path@,
                PathOutcome::Escapes => r matches Err(Error::PathEscapesContext { reason })
                    && reason@ == self.path@,
                PathOutcome::Resolved(c) => r matches Ok(s) && s@ == c,
            },
    {
        self.context.get_path(self.path.as_str(), canon)
    }
}

impl Transaction {
    /// Builds a transaction descriptor.
    pub(crate) fn create(database: Database, id: String) -> (r: Self)
        ensures
            r.database == database,
            r.id@ == id@,
    {
        Transaction { database, id }
    }

    /// The transaction's identifier.
    pub fn id(&self) -> (r: String)
        ensures
            r@ == self.id@,
    {
        self.id.clone()
    }
}

impl FileHandle {
    /// Builds a file handle descriptor.
    pub(crate) fn create(context: Context, id: String, path: String) -> (r: Self)
        ensures
            r.context == context,
            r.id@ == id@,
            r.path@ == path@,
    {
        FileHandle { context, id, path }
    }

    /// The handle's identifier.
    pub fn id(&self) -> (r: String)
        ensures
            r@ == self.id@,
    {
        self.id.clone()
    }

    /// The file's path, relative to its context root.
    pub fn path(&self) -> (r: String)
        ensures
            r@ == self.path@,
    {
        self.path.clone()
    }

    /// The file's absolute path, by resolving its relative path in its
    /// context's sandbox.
    pub fn absolute_path(&self, canon: Option<String>) -> (r: Result<String, Error>)
        ensures
            match resolve_outcome(self.context.path@, self.path@, opt_str_view(canon)) {
                PathOutcome::Absolute => r matches Err(Error::NoAbsolutePaths { reason })
                    && reason@ == self.path@,
                PathOutcome::NotCanonical => r matches Err(Error::InvalidPath { reason })
                    && reason@ == self.path@,
                PathOutcome::Escapes => r matches Err(Error::PathEscapesContext { reason })
                    && reason@ == self.path@,
                PathOutcome::Resolved(c) => r matches Ok(s) && s@ == c,
            },
    {
        self.context.get_path(self.path.as_str(), canon)
    }
}

impl Clone for Context {
    /// Another descriptor of the same context.
    fn clone(&self) -> (r: Self)
        ensures
            r.name@ == self.name@,
            r.path@ == self.path@,
    {
        Context { name: self.name.clone(), path: self.path.clone() }
    }
}

impl Clone for Database {
    /// Another descriptor of the same database.
    fn clone(&self) -> (r: Self)
        ensures
            r.context.name@ == self.context.name@,
            r.context.path@ == self.context.path@,
            r.name@ == self.name@,
            r.path@ == self.path@,
    {
        Database {
            context: self.context.clone(),
            name: self.name.clone(),
            path: self.path.clone(),
        }
    }
}

impl Clone for Transaction {
    /// Another descriptor of the same transaction.
    fn clone(&self) -> (r: Self)
        ensures
            r.database.context.name@ == self.database.context.name@,
            r.database.context.path@ == self.database.context.path@,
            r.database.name@ == self.database.name@,
            r.database.path@ == self.database.path@,
            r.id@ == self.id@,
    {
        Transaction { database: self.database.clone(), id: self.id.clone() }
    }
}

impl Clone for FileHandle {
    /// Another descriptor of the same file handle.
    fn clone(&self) -> (r: Self)
        ensures
            r.context.name@ == self.context.name@,
            r.context.path@ == self.context.path@,
            r.id@ == self.id@,
            r.path@ == self.path@,
    {
        FileHandle {
            context: self.context.clone(),
            id: self.id.clone(),
            path: self.path.clone(),
        }
    }
}

} // verus!
