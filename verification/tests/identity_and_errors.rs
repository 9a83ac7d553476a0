use buffered_file::buffered_file::BufferedFile;
use buffered_file::engine::Engine;
use buffered_file::errors::{FileError, Op, OsError};
use buffered_file::flags::OpenOptions;

fn name(s: &str) -> Vec<u8> {
    s.as_bytes().to_vec()
}

#[test]
fn is_same_across_independent_opens() {
    let mut eng = Engine::new(7, 4096);
    let path = name("myfile.txt");
    let wfile = BufferedFile::create(&mut eng, &path).unwrap();
    let rfile = BufferedFile::open(&mut eng, &path).unwrap();
    // Different descriptors, same underlying file.
    assert_ne!(wfile.as_raw_fd(), rfile.as_raw_fd());
    assert!(wfile.is_same(&rfile));
    assert!(rfile.is_same(&wfile));
    wfile.close(&mut eng).unwrap();
    rfile.close(&mut eng).unwrap();
}

#[test]
fn is_same_across_hard_links() {
    let mut eng = Engine::new(7, 4096);
    let path_a = name("original");
    let path_b = name("link");
    let fa = BufferedFile::create(&mut eng, &path_a).unwrap();
    eng.hard_link(&path_a, &path_b).unwrap();
    let fb = BufferedFile::open(&mut eng, &path_b).unwrap();
    assert!(fa.is_same(&fb));
    fa.close(&mut eng).unwrap();
    fb.close(&mut eng).unwrap();
}

#[test]
fn is_same_distinguishes_files_and_devices() {
    let mut eng = Engine::new(7, 4096);
    let fa = BufferedFile::create(&mut eng, &name("a")).unwrap();
    let fb = BufferedFile::create(&mut eng, &name("b")).unwrap();
    assert!(!fa.is_same(&fb));

    // Same inode number on another device is another file.
    let mut other = Engine::new(8, 4096);
    let fc = BufferedFile::create(&mut other, &name("a")).unwrap();
    assert!(!fa.is_same(&fc));

    fa.close(&mut eng).unwrap();
    fb.close(&mut eng).unwrap();
    fc.close(&mut other).unwrap();
}

#[test]
fn torn_down_engine_is_unavailable() {
    let mut eng = Engine::new(7, 4096);
    let path = name("f");
    let f = BufferedFile::create(&mut eng, &path).unwrap();
    eng.tear_down();
    assert!(matches!(
        f.write_at(&mut eng, vec![1u8], 0),
        Err(FileError::EngineUnavailable)
    ));
    assert!(matches!(f.read_at(&eng, 0, 1), Err(FileError::EngineUnavailable)));
    assert!(matches!(f.stat(&eng), Err(FileError::EngineUnavailable)));
    assert!(matches!(f.fdatasync(&eng), Err(FileError::EngineUnavailable)));
    assert!(matches!(
        BufferedFile::open(&mut eng, &path),
        Err(FileError::EngineUnavailable)
    ));
    assert!(matches!(f.close(&mut eng), Err(FileError::EngineUnavailable)));
}

#[test]
fn open_failure_is_enriched_with_path_and_cause() {
    let mut eng = Engine::new(7, 4096);
    let path = name("missing");
    let e = BufferedFile::open(&mut eng, &path).unwrap_err();
    match e {
        FileError::OpenFailure(enr) => {
            assert_eq!(enr.op, Op::Opening);
            assert_eq!(enr.op.label(), "Opening");
            assert_eq!(enr.path.as_deref(), Some(path.as_slice()));
            assert_eq!(enr.fd, None);
            assert_eq!(enr.cause, OsError::NotFound);
        },
        other => panic!("wrong error class: {:?}", other),
    }
}

#[test]
fn write_on_read_only_handle_fails() {
    let mut eng = Engine::new(7, 4096);
    let path = name("ro");
    BufferedFile::create(&mut eng, &path).unwrap().close(&mut eng).unwrap();
    let reader = BufferedFile::open(&mut eng, &path).unwrap();
    let e = reader.write_at(&mut eng, vec![1u8], 0).unwrap_err();
    match e {
        FileError::IoFailure(enr) => {
            assert_eq!(enr.op, Op::Writing);
            assert_eq!(enr.path.as_deref(), Some(path.as_slice()));
            assert_eq!(enr.fd, Some(reader.as_raw_fd()));
            assert_eq!(enr.cause, OsError::BadDescriptor);
        },
        other => panic!("wrong error class: {:?}", other),
    }
    reader.close(&mut eng).unwrap();
}

#[test]
fn read_on_write_only_handle_fails() {
    let mut eng = Engine::new(7, 4096);
    let writer = BufferedFile::create(&mut eng, &name("wo")).unwrap();
    assert!(matches!(
        writer.read_at(&eng, 0, 1),
        Err(FileError::IoFailure(_))
    ));
    writer.close(&mut eng).unwrap();
}

#[test]
fn deallocate_rejects_empty_range() {
    let mut eng = Engine::new(7, 4096);
    let writer = BufferedFile::create(&mut eng, &name("z")).unwrap();
    let e = writer.deallocate(&mut eng, 0, 0).unwrap_err();
    match e {
        FileError::IoFailure(enr) => {
            assert_eq!(enr.op, Op::Deallocating);
            assert_eq!(enr.cause, OsError::InvalidInput);
        },
        other => panic!("wrong error class: {:?}", other),
    }
    writer.close(&mut eng).unwrap();
}

#[test]
fn write_beyond_capacity_reports_no_space() {
    let mut eng = Engine::new(7, 4096);
    let writer = BufferedFile::create(&mut eng, &name("big")).unwrap();
    // One byte just past the engine's backing capacity.
    let e = writer.write_at(&mut eng, vec![1u8], 0x4000_0000).unwrap_err();
    match e {
        FileError::IoFailure(enr) => {
            assert_eq!(enr.op, Op::Writing);
            assert_eq!(enr.cause, OsError::NoSpace);
        },
        other => panic!("wrong error class: {:?}", other),
    }
    writer.close(&mut eng).unwrap();
}

#[test]
fn truncate_beyond_capacity_reports_file_too_large() {
    let mut eng = Engine::new(7, 4096);
    let writer = BufferedFile::create(&mut eng, &name("big")).unwrap();
    let e = writer.truncate(&mut eng, 0x4000_0001).unwrap_err();
    match e {
        FileError::IoFailure(enr) => {
            assert_eq!(enr.op, Op::Truncating);
            assert_eq!(enr.cause, OsError::FileTooLarge);
        },
        other => panic!("wrong error class: {:?}", other),
    }
    writer.close(&mut eng).unwrap();
}

#[test]
fn rename_of_unlinked_file_fails() {
    let mut eng = Engine::new(7, 4096);
    let path = name("gone");
    let mut f = BufferedFile::create(&mut eng, &path).unwrap();
    f.remove(&mut eng).unwrap();
    let e = f.rename(&mut eng, name("elsewhere")).unwrap_err();
    match e {
        FileError::RenameFailure(enr) => {
            assert_eq!(enr.op, Op::Renaming);
            assert_eq!(enr.cause, OsError::NotFound);
            assert_eq!(enr.fd, Some(f.as_raw_fd()));
        },
        other => panic!("wrong error class: {:?}", other),
    }
    // The held path is unchanged on failure.
    assert_eq!(f.path().unwrap().as_slice(), path.as_slice());
    f.close(&mut eng).unwrap();
}

#[test]
fn remove_twice_fails() {
    let mut eng = Engine::new(7, 4096);
    let f = BufferedFile::create(&mut eng, &name("gone")).unwrap();
    f.remove(&mut eng).unwrap();
    let e = f.remove(&mut eng).unwrap_err();
    match e {
        FileError::RemoveFailure(enr) => {
            assert_eq!(enr.op, Op::Removing);
            assert_eq!(enr.cause, OsError::NotFound);
        },
        other => panic!("wrong error class: {:?}", other),
    }
    f.close(&mut eng).unwrap();
}

#[test]
fn options_without_access_are_rejected() {
    let mut eng = Engine::new(7, 4096);
    let mut opts = OpenOptions::new();
    assert!(matches!(opts.get_access_mode(), Err(OsError::InvalidInput)));
    let e = BufferedFile::open_with_options(&mut eng, &name("x"), Op::Opening, &opts)
        .unwrap_err();
    match e {
        FileError::OpenFailure(enr) => {
            assert_eq!(enr.cause, OsError::InvalidInput);
            assert_eq!(enr.fd, None);
        },
        other => panic!("wrong error class: {:?}", other),
    }
    // Creating without write access is contradictory as well.
    opts.read = true;
    opts.create = true;
    assert!(matches!(opts.get_creation_mode(), Err(OsError::InvalidInput)));
}

#[test]
fn create_new_is_exclusive() {
    let mut eng = Engine::new(7, 4096);
    let path = name("once");
    let opts = OpenOptions {
        read: false,
        write: true,
        append: false,
        truncate: false,
        create: false,
        create_new: true,
        custom_flags: 0,
        mode: 0o644,
    };
    let f = BufferedFile::open_with_options(&mut eng, &path, Op::Creating, &opts).unwrap();
    let e = BufferedFile::open_with_options(&mut eng, &path, Op::Creating, &opts).unwrap_err();
    match e {
        FileError::OpenFailure(enr) => assert_eq!(enr.cause, OsError::AlreadyExists),
        other => panic!("wrong error class: {:?}", other),
    }
    f.close(&mut eng).unwrap();
}

#[test]
fn create_truncates_existing_contents() {
    let mut eng = Engine::new(7, 4096);
    let path = name("fresh");
    let w1 = BufferedFile::create(&mut eng, &path).unwrap();
    w1.write_at(&mut eng, vec![1u8, 2, 3, 4], 0).unwrap();
    w1.close(&mut eng).unwrap();
    let w2 = BufferedFile::create(&mut eng, &path).unwrap();
    assert_eq!(w2.file_size(&eng).unwrap(), 0);
    w2.close(&mut eng).unwrap();
}

#[test]
fn append_handles_write_at_end_of_file() {
    let mut eng = Engine::new(7, 4096);
    let path = name("log");
    let opts = OpenOptions {
        read: false,
        write: true,
        append: true,
        truncate: false,
        create: true,
        create_new: false,
        custom_flags: 0,
        mode: 0o644,
    };
    let f = BufferedFile::open_with_options(&mut eng, &path, Op::Creating, &opts).unwrap();
    f.write_at(&mut eng, vec![1u8, 2], 0).unwrap();
    // The offset is ignored on an append handle: bytes land at the end.
    f.write_at(&mut eng, vec![3u8, 4], 0).unwrap();
    assert_eq!(f.file_size(&eng).unwrap(), 4);
    let reader = BufferedFile::open(&mut eng, &path).unwrap();
    let rb = reader.read_at(&eng, 0, 4).unwrap();
    assert_eq!(rb.bytes().as_slice(), &[1u8, 2, 3, 4]);
    reader.close(&mut eng).unwrap();
    f.close(&mut eng).unwrap();
}

#[test]
fn resolved_flags_have_exact_bits() {
    // write + create + truncate, as `create` uses.
    let create_opts = OpenOptions {
        read: false,
        write: true,
        append: false,
        truncate: true,
        create: true,
        create_new: false,
        custom_flags: 0,
        mode: 0o644,
    };
    // O_CLOEXEC | O_WRONLY | O_CREAT | O_TRUNC
    assert_eq!(create_opts.resolve_flags().unwrap(), 0x80000 | 1 | 64 | 512);

    // read only, as `open` uses: just O_CLOEXEC.
    let mut read_opts = OpenOptions::new();
    read_opts.read = true;
    assert_eq!(read_opts.resolve_flags().unwrap(), 0x80000);

    // custom flags keep everything but their access-mode bits.
    let mut custom = OpenOptions::new();
    custom.read = true;
    custom.custom_flags = 0o400003;
    assert_eq!(custom.resolve_flags().unwrap(), 0x80000 | 0o400000);
}

#[test]
fn operation_labels() {
    assert_eq!(Op::Reading.label(), "Reading");
    assert_eq!(Op::Writing.label(), "Writing");
    assert_eq!(Op::Closing.label(), "Closing");
}
