//! Error taxonomy shared by every fallible operation of the library.
//!
//! Every variant carries human-readable context; the constructors pin the
//! variant and its fields exactly, so callers' contracts can state which
//! error is produced on which input.

use vstd::prelude::*;
use vstd::string::StringExecFns;

verus! {

/// The error type of the library.
#[derive(Debug, Clone)]
pub enum Error {
    /// An unexpected failure with no more precise classification.
    Unknown { reason: String },
    /// A context could not be opened at the requested path.
    OpenContext { name: String, path: String, reason: String },
    /// A database could not be opened within a context.
    OpenDatabase { name: String, context: String, path: String, reason: String },
    /// A file handle could not be opened within a context.
    OpenFileHandle { path: String, context: String, reason: String },
    /// The named context has not been initialized.
    UnknownContext { reason: String },
    /// The named database has not been opened.
    UnknownDatabase { reason: String },
    /// The file handle with the given id does not exist.
    UnknownFileHandle { reason: String },
    /// The transaction id is not active in the current database.
    UnknownTransaction { reason: String },
    /// The supplied path could not be canonicalized.
    InvalidPath { reason: String },
    /// Absolute paths are never accepted for context-relative operations.
    NoAbsolutePaths { reason: String },
    /// The relative path escapes the root of its context.
    PathEscapesContext { reason: String },
    /// The embedded database engine reported a failure.
    DatabaseError { reason: String },
    /// A value could not be serialized into a document.
    SerializationError { reason: String },
    /// A document could not be deserialized into the expected shape.
    DeserializationError { reason: String },
    /// The operating system reported an I/O failure.
    IOError { reason: String },
    /// A byte buffer of the given length was not valid UTF-8.
    StringEncodingError { reason: String },
    /// A filesystem operation (directory or file create/remove) failed.
    FilesystemError { operation: String, reason: String },
}

/// The decimal digit character for a value below ten.
pub open spec fn dec_digit(d: nat) -> char {
    if d == 0 { '0' }
    else if d == 1 { '1' }
    else if d == 2 { '2' }
    else if d == 3 { '3' }
    else if d == 4 { '4' }
    else if d == 5 { '5' }
    else if d == 6 { '6' }
    else if d == 7 { '7' }
    else if d == 8 { '8' }
    else if d == 9 { '9' }
    else { '?' }
}

/// The decimal rendering of a natural number, most significant digit first.
pub open spec fn dec_str(n: nat) -> Seq<char>
    decreases n,
{
    if n < 10 {
        seq![dec_digit(n)]
    } else {
        dec_str(n / 10) + seq![dec_digit(n % 10)]
    }
}

/// Renders one digit as a string slice.
fn digit_str(d: usize) -> (r: &'static str)
    requires
        d < 10,
    ensures
        r@ == seq![dec_digit(d as nat)],
{
    proof {
        reveal_strlit("0");
        reveal_strlit("1");
        reveal_strlit("2");
        reveal_strlit("3");
        reveal_strlit("4");
        reveal_strlit("5");
        reveal_strlit("6");
        reveal_strlit("7");
        reveal_strlit("8");
        reveal_strlit("9");
    }
    let r = if d == 0 { "0" }
    else if d == 1 { "1" }
    else if d == 2 { "2" }
    else if d == 3 { "3" }
    else if d == 4 { "4" }
    else if d == 5 { "5" }
    else if d == 6 { "6" }
    else if d == 7 { "7" }
    else if d == 8 { "8" }
    else { "9" };
    proof {
        assert(r@ =~= seq![dec_digit(d as nat)]);
    }
    r
}

/// Renders a machine integer in decimal.
pub fn usize_to_string(n: usize) -> (r: String)
    ensures
        r@ == dec_str(n as nat),
    decreases n,
{
    if n < 10 {
        String::from_str(digit_str(n))
    } else {
        let mut s = usize_to_string(n / 10);
        s.append(digit_str(n % 10));
        s
    }
}

impl Error {
    /// A context failed to open.
    pub fn open_context(name: &str, path: &str, reason: &str) -> (r: Self)
        ensures
            r matches Error::OpenContext { name: n, path: p, reason: s }
                && n@ == name@ && p@ == path@ && s@ == reason@,
    {
        Error::OpenContext {
            name: name.to_owned(),
            path: path.to_owned(),
            reason: reason.to_owned(),
        }
    }

    /// The given path could not be canonicalized.
    pub fn invalid_path(path: &str) -> (r: Self)
        ensures
            r matches Error::InvalidPath { reason: s } && s@ == path@,
    {
        Error::InvalidPath { reason: path.to_owned() }
    }

    /// The named context is not registered.
    pub fn unknown_context(name: &str) -> (r: Self)
        ensures
            r matches Error::UnknownContext { reason: s } && s@ == name@,
    {
        Error::UnknownContext { reason: name.to_owned() }
    }

    /// A database failed to open.
    pub fn open_database(name: &str, context: &str, path: &str, reason: &str) -> (r: Self)
        ensures
            r matches Error::OpenDatabase { name: n, context: c, path: p, reason: s }
                && n@ == name@ && c@ == context@ && p@ == path@ && s@ == reason@,
    {
        Error::OpenDatabase {
            name: name.to_owned(),
            context: context.to_owned(),
            path: path.to_owned(),
            reason: reason.to_owned(),
        }
    }

    /// The named database is not registered in its context.
    pub fn unknown_database(name: &str) -> (r: Self)
        ensures
            r matches Error::UnknownDatabase { reason: s } && s@ == name@,
    {
        Error::UnknownDatabase { reason: name.to_owned() }
    }

    /// The given path is absolute and therefore rejected.
    pub fn no_absolute_path(path: &str) -> (r: Self)
        ensures
            r matches Error::NoAbsolutePaths { reason: s } && s@ == path@,
    {
        Error::NoAbsolutePaths { reason: path.to_owned() }
    }

    /// The given relative path escapes its context root.
    pub fn path_escapes_context(path: &str) -> (r: Self)
        ensures
            r matches Error::PathEscapesContext { reason: s } && s@ == path@,
    {
        Error::PathEscapesContext { reason: path.to_owned() }
    }

    /// A file handle failed to open.
    pub fn open_file_handle(path: &str, context: &str, reason: &str) -> (r: Self)
        ensures
            r matches Error::OpenFileHandle { path: p, context: c, reason: s }
                && p@ == path@ && c@ == context@ && s@ == reason@,
    {
        Error::OpenFileHandle {
            path: path.to_owned(),
            context: context.to_owned(),
            reason: reason.to_owned(),
        }
    }

    /// The file handle with the given id is not registered.
    pub fn unknown_file_handle(id: &str) -> (r: Self)
        ensures
            r matches Error::UnknownFileHandle { reason: s } && s@ == id@,
    {
        Error::UnknownFileHandle { reason: id.to_owned() }
    }

    /// The transaction with the given id is not active.
    pub fn unknown_transaction(id: &str) -> (r: Self)
        ensures
            r matches Error::UnknownTransaction { reason: s } && s@ == id@,
    {
        Error::UnknownTransaction { reason: id.to_owned() }
    }

    /// A buffer of `size` bytes was not valid UTF-8.
    pub fn string_encoding(size: usize) -> (r: Self)
        ensures
            r matches Error::StringEncodingError { reason: s } && s@ == dec_str(size as nat),
    {
        Error::StringEncodingError { reason: usize_to_string(size) }
    }

    /// A filesystem operation failed.
    pub fn filesystem(operation: &str, reason: &str) -> (r: Self)
        ensures
            r matches Error::FilesystemError { operation: o, reason: s }
                && o@ == operation@ && s@ == reason@,
    {
        Error::FilesystemError {
            operation: operation.to_owned(),
            reason: reason.to_owned(),
        }
    }

    /// The engine reported the given failure.
    pub fn database_error(reason: String) -> (r: Self)
        ensures
            r matches Error::DatabaseError { reason: s } && s@ == reason@,
    {
        Error::DatabaseError { reason }
    }
}

} // verus!
