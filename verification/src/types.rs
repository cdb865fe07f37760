//! Plain data types crossing the library boundary: specifiers that select a
//! context, database, file handle or collection; descriptor information
//! returned to callers; file-open modes and the flag sets they map to; and the
//! filesystem facts that callers supply to the registry operations.

use vstd::prelude::*;

verus! {

/// Selects an existing or to-be-opened context.
#[derive(Debug, Clone)]
pub enum ContextSpecifier {
    /// Open (or fetch) the context `alias` rooted at `path`.
    Direct { alias: String, path: String },
    /// Fetch the already-open context `alias`.
    Aliased { alias: String },
}

/// Serializable information about an open context.
#[derive(Debug, Clone)]
pub struct ContextInfo {
    /// Context name.
    pub name: String,
    /// Context root path.
    pub path: String,
}

/// Selects an existing or to-be-opened database within a context.
#[derive(Debug, Clone)]
pub enum DatabaseSpecifier {
    /// Open (or fetch) the database `alias` stored at the relative `path`.
    Direct { alias: String, path: String },
    /// Fetch the already-open database `alias`.
    Aliased { alias: String },
}

/// Serializable information about an open database.
#[derive(Debug, Clone)]
pub struct DatabaseInfo {
    /// Database alias.
    pub name: String,
    /// Database path, relative to the context root.
    pub path: String,
}

/// Selects an existing or to-be-opened file handle within a context.
#[derive(Debug, Clone)]
pub enum FileHandleSpecifier {
    /// Fetch the already-open file handle with the given id.
    Aliased { id: String },
    /// Open a new file handle at the relative `path` with the given mode.
    Direct { path: String, mode: FileHandleMode },
}

/// Serializable information about an open file handle.
#[derive(Debug, Clone)]
pub struct FileHandleInfo {
    /// File handle id.
    pub id: String,
    /// File path, relative to the context root.
    pub path: String,
    /// Mode the handle was opened with.
    pub mode: FileHandleMode,
}

/// Selects a collection, either bound to a transaction or global.
#[derive(Debug, Clone)]
pub enum CollectionSpecifier {
    /// A collection scoped to the active transaction with the given id.
    Transaction { transaction: String, name: String },
    /// A collection bound directly to the database.
    Global { name: String },
}

/// Serializable information about a resolved collection.
#[derive(Debug, Clone)]
pub struct CollectionInfo {
    /// Information about the owning database.
    pub database: DatabaseInfo,
    /// Collection name.
    pub name: String,
    /// Transaction the collection is scoped to, if any.
    pub transaction_id: Option<String>,
}

/// Whether an update or delete touches one document or many.
#[derive(Debug, Clone, Copy, PartialEq, Eq, Structural)]
pub enum OperationCount {
    One,
    Many,
}

/// Counts reported by an update operation.
#[derive(Debug, Clone, Copy, PartialEq, Eq, Structural)]
pub struct UpdateResult {
    /// How many documents matched the filter.
    pub matched: u64,
    /// How many documents were modified.
    pub modified: u64,
}

/// The kind of filesystem object at a path.
#[derive(Debug, Clone, Copy, PartialEq, Eq, Structural)]
pub enum PathFileType {
    Directory,
    File,
    Symlink,
}

/// General information about a directory entry.
#[derive(Debug, Clone)]
pub struct PathInformation {
    /// Final component of the path.
    pub file_name: String,
    /// Absolute path of the entry.
    pub absolute_path: String,
    /// Guessed media type of the entry.
    pub media_type: String,
}

/// How a caller-supplied file handle path is opened.
#[derive(Debug, Clone, Copy, PartialEq, Eq, Structural)]
pub enum FileHandleMode {
    /// Create the file; `new` demands that it does not exist yet, and
    /// `overwrite` selects write-from-start over append.
    Create { new: bool, overwrite: bool },
    /// Write to an existing file; `overwrite` truncates, otherwise appends.
    Write { overwrite: bool },
    /// Read only.
    Read {},
}

/// The open flags a [`FileHandleMode`] maps to; the caller turns these into
/// the operating system's open options one for one.
#[derive(Debug, Clone, Copy, PartialEq, Eq, Structural)]
pub struct OpenFlags {
    pub read: bool,
    pub write: bool,
    pub append: bool,
    pub create: bool,
    pub create_new: bool,
    pub truncate: bool,
}

impl FileHandleMode {
    /// Create a file that must not exist yet.
    pub fn create_new(overwrite: bool) -> (r: Self)
        ensures
            r == (FileHandleMode::Create { new: true, overwrite }),
    {
        FileHandleMode::Create { new: true, overwrite }
    }

    /// Create the file if missing, or open the existing one.
    pub fn create_or_open(overwrite: bool) -> (r: Self)
        ensures
            r == (FileHandleMode::Create { new: false, overwrite }),
    {
        FileHandleMode::Create { new: false, overwrite }
    }

    /// Append to an existing file.
    pub fn append() -> (r: Self)
        ensures
            r == (FileHandleMode::Write { overwrite: false }),
    {
        FileHandleMode::Write { overwrite: false }
    }

    /// Truncate an existing file and write from the start.
    pub fn overwrite() -> (r: Self)
        ensures
            r == (FileHandleMode::Write { overwrite: true }),
    {
        FileHandleMode::Write { overwrite: true }
    }

    /// Open an existing file read-only.
    pub fn read() -> (r: Self)
        ensures
            r == (FileHandleMode::Read {}),
    {
        FileHandleMode::Read {}
    }

    /// Whether this mode may create a missing file.
    pub fn create(&self) -> (r: bool)
        ensures
            r == (*self matches FileHandleMode::Create { .. }),
    {
        if let FileHandleMode::Create { .. } = self {
            true
        } else {
            false
        }
    }

    /// Whether this mode opens the file for writing.
    pub fn writeable(&self) -> (r: bool)
        ensures
            r == !(*self matches FileHandleMode::Read {}),
    {
        match self {
            FileHandleMode::Create { .. } | FileHandleMode::Write { .. } => true,
            _ => false,
        }
    }

    /// Whether this mode opens the file for reading.
    pub fn readable(&self) -> (r: bool)
        ensures
            r == (*self matches FileHandleMode::Read {}),
    {
        match self {
            FileHandleMode::Read {} => true,
            _ => false,
        }
    }

    /// The open flags this mode stands for: creating modes set `create` (and
    /// `create_new` when the file must not exist yet) and write or append by
    /// the `overwrite` choice; plain writes truncate when overwriting and
    /// append otherwise; reads are read-only.
    pub open spec fn spec_open_flags(self) -> OpenFlags {
        match self {
            FileHandleMode::Create { new, overwrite: true } => OpenFlags {
                read: false, write: true, append: false, create: true, create_new: new, truncate: false,
            },
            FileHandleMode::Create { new, overwrite: false } => OpenFlags {
                read: false, write: false, append: true, create: true, create_new: new, truncate: false,
            },
            FileHandleMode::Write { overwrite: true } => OpenFlags {
                read: false, write: true, append: false, create: false, create_new: false, truncate: true,
            },
            FileHandleMode::Write { overwrite: false } => OpenFlags {
                read: false, write: false, append: true, create: false, create_new: false, truncate: false,
            },
            FileHandleMode::Read {  } => OpenFlags {
                read: true, write: false, append: false, create: false, create_new: false, truncate: false,
            },
        }
    }

    /// Computes the open flags of this mode.
    pub fn open_flags(&self) -> (r: OpenFlags)
        ensures
            r == self.spec_open_flags(),
    {
        match self {
            FileHandleMode::Create { new, overwrite: true } => OpenFlags {
                read: false, write: true, append: false, create: true, create_new: *new, truncate: false,
            },
            FileHandleMode::Create { new, overwrite: false } => OpenFlags {
                read: false, write: false, append: true, create: true, create_new: *new, truncate: false,
            },
            FileHandleMode::Write { overwrite: true } => OpenFlags {
                read: false, write: true, append: false, create: false, create_new: false, truncate: true,
            },
            FileHandleMode::Write { overwrite: false } => OpenFlags {
                read: false, write: false, append: true, create: false, create_new: false, truncate: false,
            },
            FileHandleMode::Read {} => OpenFlags {
                read: true, write: false, append: false, create: false, create_new: false, truncate: false,
            },
        }
    }
}

/// Everything the caller needs to open the operating-system file for a new
/// file handle: the resolved absolute path, the open flags of the requested
/// mode, and whether missing parent directories must be created first.
#[derive(Debug, Clone)]
pub struct FileOpenPlan {
    /// The canonical absolute path to open.
    pub absolute: String,
    /// The open flags derived from the requested mode.
    pub flags: OpenFlags,
    /// Whether the caller must create missing parent directories first.
    pub create_parents: bool,
}

/// What the caller found (or did) at a directory path before asking to open a
/// context there: the registry decides from these facts alone.
#[derive(Debug, Clone)]
pub enum DirProbe {
    /// The path exists and is a directory.
    ExistingDir,
    /// The path exists but is not a directory.
    ExistingNotDir,
    /// The path was missing and the directory tree was created.
    Created,
    /// The path was missing and creating the directory tree failed for the
    /// given reason.
    CreateFailed { message: String },
}

/// What the caller found at a database file path before asking to open a
/// database there.
#[derive(Debug, Clone, Copy, PartialEq, Eq, Structural)]
pub struct FileProbe {
    /// Whether anything exists at the resolved path.
    pub exists: bool,
    /// Whether the existing object is a regular file.
    pub is_file: bool,
}

} // verus!
