//! Context registry semantics: open-or-fetch, alias stability, and the
//! failure modes decided by the caller-supplied directory facts.

use persistence::error::Error;
use persistence::state::Persistence;
use persistence::types::{ContextSpecifier, DirProbe};

#[test]
fn open_context_registers_and_is_stable() {
    let mut p = Persistence::new();
    let c = p
        .open_context("proj", "/srv/proj", DirProbe::Created)
        .unwrap();
    assert_eq!(c.name(), "proj");
    assert_eq!(c.path(), "/srv/proj");

    // Same alias, same path: the same live resource is answered.
    let c2 = p
        .open_context("proj", "/srv/proj", DirProbe::ExistingDir)
        .unwrap();
    assert_eq!(c2.name(), "proj");
    assert_eq!(c2.path(), "/srv/proj");

    // Same alias, different path: refused, and the first is untouched.
    let r = p.open_context("proj", "/srv/other", DirProbe::ExistingDir);
    assert!(matches!(
        r,
        Err(Error::OpenContext { name, path, .. }) if name == "proj" && path == "/srv/other"
    ));
    let again = p.aliased_context("proj").unwrap();
    assert_eq!(again.path(), "/srv/proj");
}

#[test]
fn open_context_rejects_non_directories_and_failed_creation() {
    let mut p = Persistence::new();
    let r = p.open_context("a", "/srv/file.txt", DirProbe::ExistingNotDir);
    assert!(matches!(r, Err(Error::OpenContext { reason, .. }) if reason == "Specified path is not a directory."));
    let r = p.open_context(
        "b",
        "/srv/nope",
        DirProbe::CreateFailed { message: String::from("permission denied") },
    );
    assert!(matches!(r, Err(Error::OpenContext { reason, .. }) if reason == "permission denied"));
    // Neither attempt registered anything.
    assert!(matches!(p.aliased_context("a"), Err(Error::UnknownContext { .. })));
    assert!(matches!(p.aliased_context("b"), Err(Error::UnknownContext { .. })));
}

#[test]
fn aliased_context_requires_registration() {
    let mut p = Persistence::new();
    let r = p.aliased_context("ghost");
    assert!(matches!(r, Err(Error::UnknownContext { reason }) if reason == "ghost"));
    p.open_context("real", "/srv/real", DirProbe::Created).unwrap();
    let c = p.aliased_context("real").unwrap();
    assert_eq!(c.path(), "/srv/real");
}

#[test]
fn context_specifier_dispatches_both_shapes() {
    let mut p = Persistence::new();
    let direct = ContextSpecifier::Direct {
        alias: String::from("proj"),
        path: String::from("/srv/proj"),
    };
    let c = p.context(&direct, DirProbe::Created).unwrap();
    assert_eq!(c.name(), "proj");
    let aliased = ContextSpecifier::Aliased { alias: String::from("proj") };
    let c2 = p.context(&aliased, DirProbe::ExistingDir).unwrap();
    assert_eq!(c2.path(), "/srv/proj");
    let missing = ContextSpecifier::Aliased { alias: String::from("none") };
    assert!(matches!(
        p.context(&missing, DirProbe::ExistingDir),
        Err(Error::UnknownContext { .. })
    ));
}

#[test]
fn get_path_enforces_the_sandbox_per_context() {
    let mut p = Persistence::new();
    let c = p.open_context("proj", "/srv/proj", DirProbe::Created).unwrap();
    assert!(matches!(
        c.get_path("/abs", None),
        Err(Error::NoAbsolutePaths { .. })
    ));
    assert!(matches!(c.get_path("x", None), Err(Error::InvalidPath { .. })));
    assert!(matches!(
        c.get_path("../out", Some(String::from("/srv/out"))),
        Err(Error::PathEscapesContext { .. })
    ));
    let ok = c
        .get_path("data/x.db", Some(String::from("/srv/proj/data/x.db")))
        .unwrap();
    assert_eq!(ok, "/srv/proj/data/x.db");
    assert_eq!(c.base_path(), "/srv/proj");
}
