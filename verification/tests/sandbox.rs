//! Path sandbox, file mode mapping, decimal rendering and text decoding.

use persistence::error::{usize_to_string, Error};
use persistence::paths::{is_absolute_path, is_path_prefix, join_paths, resolve};
use persistence::text::{decode_text, str_eq};
use persistence::types::{FileHandleMode, OpenFlags};

#[test]
fn absolute_paths_are_rejected() {
    let r = resolve("/srv/ctx", "/etc/passwd", Some(String::from("/etc/passwd")));
    assert!(matches!(r, Err(Error::NoAbsolutePaths { .. })));
    let r = resolve("/srv/ctx", "/srv/ctx/inside", None);
    assert!(matches!(r, Err(Error::NoAbsolutePaths { .. })));
}

#[test]
fn missing_canonicalization_is_invalid_path() {
    let r = resolve("/srv/ctx", "no/such/dir/file.txt", None);
    assert!(matches!(r, Err(Error::InvalidPath { reason }) if reason == "no/such/dir/file.txt"));
}

#[test]
fn escaping_path_is_rejected() {
    // `..` resolved by canonicalization lands outside the root.
    let r = resolve("/srv/ctx", "../other", Some(String::from("/srv/other")));
    assert!(matches!(r, Err(Error::PathEscapesContext { reason }) if reason == "../other"));
}

#[test]
fn contained_path_resolves_to_canonical_form() {
    let r = resolve("/srv/ctx", "data/file.txt", Some(String::from("/srv/ctx/data/file.txt")));
    assert_eq!(r.unwrap(), "/srv/ctx/data/file.txt");
}

#[test]
fn join_and_prefix_behave_textually() {
    assert_eq!(join_paths("/a/b", "c/d"), "/a/b/c/d");
    assert!(is_path_prefix("/a/b", "/a/b"));
    assert!(is_path_prefix("/a/b", "/a/b/c"));
    assert!(!is_path_prefix("/a/b", "/a/bc"));
    assert!(!is_path_prefix("/a/b/c", "/a/b"));
    assert!(is_absolute_path("/x"));
    assert!(!is_absolute_path("x/y"));
    assert!(!is_absolute_path(""));
}

#[test]
fn str_eq_compares_by_characters() {
    assert!(str_eq("alpha", "alpha"));
    assert!(!str_eq("alpha", "alphb"));
    assert!(!str_eq("alpha", "alph"));
    assert!(str_eq("", ""));
}

#[test]
fn decimal_rendering_is_exact() {
    assert_eq!(usize_to_string(0), "0");
    assert_eq!(usize_to_string(7), "7");
    assert_eq!(usize_to_string(10), "10");
    assert_eq!(usize_to_string(90210), "90210");
}

#[test]
fn decode_text_accepts_utf8_and_reports_length_on_failure() {
    let ok = decode_text("grüße".as_bytes().to_vec());
    assert_eq!(ok.unwrap(), "grüße");
    let bad = decode_text(vec![0x66, 0xff, 0x67]);
    assert!(matches!(bad, Err(Error::StringEncodingError { reason }) if reason == "3"));
}

#[test]
fn create_new_mode_maps_to_exclusive_create() {
    let m = FileHandleMode::create_new(true);
    let f = m.open_flags();
    assert_eq!(
        f,
        OpenFlags {
            read: false,
            write: true,
            append: false,
            create: true,
            create_new: true,
            truncate: false,
        }
    );
    assert!(m.create());
    assert!(m.writeable());
    assert!(!m.readable());
}

#[test]
fn create_or_open_mode_maps_to_create_append() {
    let f = FileHandleMode::create_or_open(false).open_flags();
    assert_eq!(
        f,
        OpenFlags {
            read: false,
            write: false,
            append: true,
            create: true,
            create_new: false,
            truncate: false,
        }
    );
}

#[test]
fn overwrite_mode_truncates_and_append_mode_appends() {
    let ow = FileHandleMode::overwrite().open_flags();
    assert!(ow.write && ow.truncate && !ow.append && !ow.create);
    let ap = FileHandleMode::append().open_flags();
    assert!(ap.append && !ap.write && !ap.truncate && !ap.create);
}

#[test]
fn read_mode_is_read_only() {
    let m = FileHandleMode::read();
    let f = m.open_flags();
    assert!(f.read && !f.write && !f.append && !f.create && !f.create_new && !f.truncate);
    assert!(m.readable());
    assert!(!m.writeable());
    assert!(!m.create());
}

#[test]
fn error_constructors_pin_variants() {
    assert!(matches!(
        Error::open_context("a", "/p", "why"),
        Error::OpenContext { name, path, reason } if name == "a" && path == "/p" && reason == "why"
    ));
    assert!(matches!(Error::unknown_context("c"), Error::UnknownContext { reason } if reason == "c"));
    assert!(matches!(Error::unknown_database("d"), Error::UnknownDatabase { reason } if reason == "d"));
    assert!(matches!(Error::unknown_file_handle("f"), Error::UnknownFileHandle { reason } if reason == "f"));
    assert!(matches!(Error::unknown_transaction("t"), Error::UnknownTransaction { reason } if reason == "t"));
    assert!(matches!(Error::invalid_path("q"), Error::InvalidPath { reason } if reason == "q"));
    assert!(matches!(Error::no_absolute_path("/q"), Error::NoAbsolutePaths { reason } if reason == "/q"));
    assert!(matches!(Error::path_escapes_context("../q"), Error::PathEscapesContext { reason } if reason == "../q"));
    assert!(matches!(Error::string_encoding(12), Error::StringEncodingError { reason } if reason == "12"));
    assert!(matches!(
        Error::filesystem("REMOVE_FILE", "gone"),
        Error::FilesystemError { operation, reason } if operation == "REMOVE_FILE" && reason == "gone"
    ));
    assert!(matches!(
        Error::open_database("db", "ctx", "p", "r"),
        Error::OpenDatabase { name, context, path, reason }
            if name == "db" && context == "ctx" && path == "p" && reason == "r"
    ));
    assert!(matches!(
        Error::open_file_handle("p", "ctx", "r"),
        Error::OpenFileHandle { path, context, reason }
            if path == "p" && context == "ctx" && reason == "r"
    ));
}
