//! File handle scenarios with real files: mode semantics (exclusive create,
//! create-or-open appending, overwrite truncating), registry bookkeeping,
//! and text decoding of read bytes.

use persistence::error::Error;
use persistence::handles::Context;
use persistence::state::Persistence;
use persistence::text::decode_text;
use persistence::types::{DirProbe, FileHandleMode, FileOpenPlan};
use tokio::io::{AsyncReadExt, AsyncWriteExt};

fn runtime() -> tokio::runtime::Runtime {
    tokio::runtime::Builder::new_current_thread()
        .enable_all()
        .build()
        .unwrap()
}

fn canonical_root(dir: &tempfile::TempDir) -> String {
    let rt = runtime();
    let p = rt.block_on(tokio::fs::canonicalize(dir.path())).unwrap();
    p.to_str().unwrap().to_string()
}

fn open_by_plan(plan: &FileOpenPlan) -> Result<tokio::fs::File, std::io::Error> {
    let rt = runtime();
    rt.block_on(async {
        if plan.create_parents {
            if let Some(parent) = std::path::Path::new(plan.absolute.as_str()).parent() {
                tokio::fs::create_dir_all(parent).await?;
            }
        }
        let mut options = tokio::fs::OpenOptions::new();
        options
            .read(plan.flags.read)
            .write(plan.flags.write)
            .append(plan.flags.append)
            .create(plan.flags.create)
            .create_new(plan.flags.create_new)
            .truncate(plan.flags.truncate);
        options.open(plan.absolute.as_str()).await
    })
}

fn plan_for(
    ctx: &Context,
    root: &str,
    rel: &str,
    mode: &FileHandleMode,
    target_exists: bool,
) -> FileOpenPlan {
    let canon = format!("{}/{}", root, rel);
    ctx.plan_file_open(rel, mode, Some(canon), target_exists, true)
        .unwrap()
}

fn write_all(file: &persistence::engine::FileRef, data: &[u8]) {
    let rt = runtime();
    rt.block_on(async {
        let mut guard = file.lock();
        guard.write_all(data).await.unwrap();
        guard.flush().await.unwrap();
    });
}

fn read_all(file: &persistence::engine::FileRef) -> Vec<u8> {
    let rt = runtime();
    rt.block_on(async {
        let mut guard = file.lock();
        let mut buffer: Vec<u8> = Vec::new();
        guard.read_to_end(&mut buffer).await.unwrap();
        buffer
    })
}

#[test]
fn create_new_fails_on_existing_path() {
    let dir = tempfile::tempdir().unwrap();
    let root = canonical_root(&dir);
    let mut p = Persistence::new();
    let ctx = p
        .open_context("f", root.as_str(), DirProbe::ExistingDir)
        .unwrap();

    let mode = FileHandleMode::create_new(false);
    let plan = plan_for(&ctx, root.as_str(), "once.txt", &mode, false);
    let first = open_by_plan(&plan);
    assert!(first.is_ok());

    // The path now exists: an exclusive create must fail.
    let plan2 = plan_for(&ctx, root.as_str(), "once.txt", &mode, true);
    let second = open_by_plan(&plan2);
    assert!(second.is_err());
}

#[test]
fn create_or_open_appends_and_overwrite_truncates() {
    let dir = tempfile::tempdir().unwrap();
    let root = canonical_root(&dir);
    let mut p = Persistence::new();
    let ctx = p
        .open_context("f", root.as_str(), DirProbe::ExistingDir)
        .unwrap();

    let coo = FileHandleMode::create_or_open(false);
    let plan = plan_for(&ctx, root.as_str(), "log.txt", &coo, false);
    let file = open_by_plan(&plan).unwrap();
    let handle = ctx.register_file_handle(
        &mut p,
        "log.txt",
        coo,
        async_dup::Arc::new(async_dup::Mutex::new(file)),
    );
    write_all(&handle.handle(&p).unwrap(), b"abc");

    // Opening an existing path with create-or-open succeeds and appends.
    let plan2 = plan_for(&ctx, root.as_str(), "log.txt", &coo, true);
    let file2 = open_by_plan(&plan2).unwrap();
    let handle2 = ctx.register_file_handle(
        &mut p,
        "log.txt",
        coo,
        async_dup::Arc::new(async_dup::Mutex::new(file2)),
    );
    write_all(&handle2.handle(&p).unwrap(), b"def");

    let read_mode = FileHandleMode::read();
    let plan3 = plan_for(&ctx, root.as_str(), "log.txt", &read_mode, true);
    let file3 = open_by_plan(&plan3).unwrap();
    let reader = ctx.register_file_handle(
        &mut p,
        "log.txt",
        read_mode,
        async_dup::Arc::new(async_dup::Mutex::new(file3)),
    );
    let bytes = read_all(&reader.handle(&p).unwrap());
    assert_eq!(decode_text(bytes).unwrap(), "abcdef");

    // Overwrite truncates the existing content before the first write.
    let ow = FileHandleMode::overwrite();
    let plan4 = plan_for(&ctx, root.as_str(), "log.txt", &ow, true);
    let file4 = open_by_plan(&plan4).unwrap();
    let writer = ctx.register_file_handle(
        &mut p,
        "log.txt",
        ow,
        async_dup::Arc::new(async_dup::Mutex::new(file4)),
    );
    write_all(&writer.handle(&p).unwrap(), b"xy");

    let plan5 = plan_for(&ctx, root.as_str(), "log.txt", &read_mode, true);
    let file5 = open_by_plan(&plan5).unwrap();
    let reader2 = ctx.register_file_handle(
        &mut p,
        "log.txt",
        read_mode,
        async_dup::Arc::new(async_dup::Mutex::new(file5)),
    );
    let bytes2 = read_all(&reader2.handle(&p).unwrap());
    assert_eq!(decode_text(bytes2).unwrap(), "xy");
}

#[test]
fn parent_directories_are_planned_for_creating_modes() {
    let dir = tempfile::tempdir().unwrap();
    let root = canonical_root(&dir);
    let mut p = Persistence::new();
    let ctx = p
        .open_context("f", root.as_str(), DirProbe::ExistingDir)
        .unwrap();
    let coo = FileHandleMode::create_or_open(false);
    let plan = plan_for(&ctx, root.as_str(), "deep/nest/file.txt", &coo, false);
    assert!(plan.create_parents);
    let file = open_by_plan(&plan).unwrap();
    let handle = ctx.register_file_handle(
        &mut p,
        "deep/nest/file.txt",
        coo,
        async_dup::Arc::new(async_dup::Mutex::new(file)),
    );
    write_all(&handle.handle(&p).unwrap(), b"deep");

    // Read-only modes never ask for directory creation.
    let plan2 = plan_for(&ctx, root.as_str(), "deep/nest/file.txt", &FileHandleMode::read(), true);
    assert!(!plan2.create_parents);
}

#[test]
fn bounded_reads_return_at_most_the_requested_bytes() {
    let dir = tempfile::tempdir().unwrap();
    let root = canonical_root(&dir);
    let mut p = Persistence::new();
    let ctx = p
        .open_context("f", root.as_str(), DirProbe::ExistingDir)
        .unwrap();
    let coo = FileHandleMode::create_or_open(false);
    let plan = plan_for(&ctx, root.as_str(), "bounded.txt", &coo, false);
    let file = open_by_plan(&plan).unwrap();
    let writer = ctx.register_file_handle(
        &mut p,
        "bounded.txt",
        coo,
        async_dup::Arc::new(async_dup::Mutex::new(file)),
    );
    write_all(&writer.handle(&p).unwrap(), b"abcdef");

    let plan2 = plan_for(&ctx, root.as_str(), "bounded.txt", &FileHandleMode::read(), true);
    let file2 = open_by_plan(&plan2).unwrap();
    let reader = ctx.register_file_handle(
        &mut p,
        "bounded.txt",
        FileHandleMode::read(),
        async_dup::Arc::new(async_dup::Mutex::new(file2)),
    );
    let href = reader.handle(&p).unwrap();
    let rt = runtime();
    let bytes = rt.block_on(async {
        let mut guard = href.lock();
        // A bounded read fills at most the requested buffer; it is not
        // retried to the full requested size.
        let mut buffer = vec![0u8; 4];
        let n = guard.read(&mut buffer).await.unwrap();
        buffer.truncate(n);
        buffer
    });
    assert!(bytes.len() <= 4);
    assert_eq!(decode_text(bytes).unwrap(), "abcd");
}

#[test]
fn closing_a_file_handle_is_observed_by_every_holder() {
    let dir = tempfile::tempdir().unwrap();
    let root = canonical_root(&dir);
    let mut p = Persistence::new();
    let ctx = p
        .open_context("f", root.as_str(), DirProbe::ExistingDir)
        .unwrap();
    let coo = FileHandleMode::create_or_open(false);
    let plan = plan_for(&ctx, root.as_str(), "tmp.txt", &coo, false);
    let file = open_by_plan(&plan).unwrap();
    let handle = ctx.register_file_handle(
        &mut p,
        "tmp.txt",
        coo,
        async_dup::Arc::new(async_dup::Mutex::new(file)),
    );
    let id = handle.id();

    let fetched = ctx.file_handle(&p, id.as_str()).unwrap();
    assert_eq!(fetched.path(), "tmp.txt");
    assert_eq!(fetched.mode(&p).unwrap(), FileHandleMode::Create { new: false, overwrite: false });

    handle.close(&mut p).unwrap();
    assert!(matches!(
        fetched.mode(&p),
        Err(Error::UnknownFileHandle { .. })
    ));
    assert!(matches!(
        fetched.handle(&p),
        Err(Error::UnknownFileHandle { .. })
    ));
    assert!(matches!(
        ctx.file_handle(&p, id.as_str()),
        Err(Error::UnknownFileHandle { reason }) if reason == id
    ));
    assert!(matches!(
        fetched.close(&mut p),
        Err(Error::UnknownFileHandle { .. })
    ));
}
