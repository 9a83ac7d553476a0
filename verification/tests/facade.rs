use buffered_file::buffered_file::BufferedFile;
use buffered_file::engine::Engine;
use buffered_file::read_result::ReadResult;

fn name(s: &str) -> Vec<u8> {
    s.as_bytes().to_vec()
}

#[test]
fn file_create_close() {
    let mut eng = Engine::new(7, 4096);
    let path = name("testfile");
    let new_file = BufferedFile::create(&mut eng, &path).expect("failed to create file");
    new_file.close(&mut eng).expect("failed to close file");
    assert!(eng.path_exists(&path));
}

#[test]
fn file_open() {
    let mut eng = Engine::new(7, 4096);
    let path = name("testfile");
    let new_file = BufferedFile::create(&mut eng, &path).expect("failed to create file");
    new_file.close(&mut eng).expect("failed to close file");

    let file = BufferedFile::open(&mut eng, &path).expect("failed to open file");
    file.close(&mut eng).expect("failed to close file");

    assert!(eng.path_exists(&path));
}

#[test]
fn file_open_nonexistent() {
    let mut eng = Engine::new(7, 4096);
    let path = name("testfile");
    BufferedFile::open(&mut eng, &path).expect_err("opened nonexistent file");
    assert!(!eng.path_exists(&path));
}

#[test]
fn fresh_file_reads_empty() {
    let mut eng = Engine::new(7, 4096);
    let path = name("empty");
    let writer = BufferedFile::create(&mut eng, &path).unwrap();
    let reader = BufferedFile::open(&mut eng, &path).unwrap();
    for n in [0usize, 1, 6, 100, 65536] {
        let rb = reader.read_at(&eng, 0, n).unwrap();
        assert_eq!(rb.len(), 0);
    }
    writer.close(&mut eng).unwrap();
    reader.close(&mut eng).unwrap();
}

#[test]
fn random_io() {
    let mut eng = Engine::new(7, 4096);
    let path = name("testfile");
    let writer = BufferedFile::create(&mut eng, &path).unwrap();
    let reader = BufferedFile::open(&mut eng, &path).unwrap();

    let wb = vec![0u8, 1, 2, 3, 4, 5];
    let r = writer.write_at(&mut eng, wb, 0).unwrap();
    assert_eq!(r, 6);

    let rb = reader.read_at(&eng, 0, 6).unwrap();
    assert_eq!(rb.len(), 6);
    for (idx, i) in rb.bytes().iter().enumerate() {
        assert_eq!(*i, idx as u8);
    }

    // Can read again from the same position.
    let rb = reader.read_at(&eng, 0, 6).unwrap();
    assert_eq!(rb.len(), 6);
    for (idx, i) in rb.bytes().iter().enumerate() {
        assert_eq!(*i, idx as u8);
    }

    // Reading from an unaligned position hits end-of-file and is clipped.
    let rb = reader.read_at(&eng, 3, 6).unwrap();
    assert_eq!(rb.len(), 3);
    assert_eq!(rb.bytes().as_slice(), &[3u8, 4, 5]);

    writer.close(&mut eng).unwrap();
    reader.close(&mut eng).unwrap();
}

#[test]
fn write_past_end() {
    let mut eng = Engine::new(7, 4096);
    let path = name("testfile");
    let writer = BufferedFile::create(&mut eng, &path).unwrap();
    let reader = BufferedFile::open(&mut eng, &path).unwrap();

    let cluster_size: u32 = reader.stat(&eng).unwrap().fs_cluster_size;
    assert!(cluster_size >= 512, "{}", cluster_size);
    let c = cluster_size as u64;

    let rb = reader.read_at(&eng, 0, 6).unwrap();
    assert_eq!(rb.len(), 0);

    let r = writer
        .write_at(&mut eng, vec![7u8, 8, 9, 10, 11, 12, 13], c * 2)
        .unwrap();
    assert_eq!(r, 7);

    let stat = reader.stat(&eng).unwrap();
    assert_eq!(stat.file_size, c * 2 + 7);
    assert_eq!(stat.allocated_file_size, c);
    assert_eq!(stat.fs_cluster_size, cluster_size);

    let rb = reader.read_at(&eng, 0, cluster_size as usize).unwrap();
    assert_eq!(rb.len(), cluster_size as usize);
    for i in rb.bytes().iter() {
        assert_eq!(*i, 0);
    }

    let rb = reader.read_at(&eng, c * 2, 40).unwrap();
    assert_eq!(rb.len(), 7);
    for (idx, i) in rb.bytes().iter().enumerate() {
        assert_eq!(*i, 7 + idx as u8);
    }

    let wb: Vec<u8> = (513..900).map(|i| i as u8).collect();
    let r = writer.write_at(&mut eng, wb, 513).unwrap();
    assert_eq!(r, 387);
    let stat = reader.stat(&eng).unwrap();
    // File size is unchanged.
    assert_eq!(stat.file_size, c * 2 + 7);
    // The sparse region was dirtied enough to need another whole cluster.
    assert_eq!(stat.allocated_file_size, c * 2);

    // The sparse contents before the write are still zero.
    let rb = reader.read_at(&eng, 0, 513).unwrap();
    assert_eq!(rb.len(), 513);
    for i in rb.bytes().iter() {
        assert_eq!(*i, 0);
    }

    // The written range holds its bytes.
    let rb = reader.read_at(&eng, 513, 387).unwrap();
    assert_eq!(rb.len(), 387);
    for (idx, i) in rb.bytes().iter().enumerate() {
        assert_eq!(*i, (513 + idx) as u8);
    }

    // The other unallocated extent still reads as zeros.
    let rb = reader
        .read_at(&eng, 900, ((c - 900) + c) as usize)
        .unwrap();
    assert_eq!(rb.len(), ((c - 900) + c) as usize);
    for i in rb.bytes().iter() {
        assert_eq!(*i, 0);
    }

    writer.deallocate(&mut eng, 0, c).unwrap();
    let stat = writer.stat(&eng).unwrap();
    // File size is unchanged; one allocated cluster was released.
    assert_eq!(stat.file_size, c * 2 + 7);
    assert_eq!(stat.allocated_file_size, c);

    // The deallocated range now returns zeros.
    let rb = reader.read_at(&eng, 0, cluster_size as usize).unwrap();
    assert_eq!(rb.len(), cluster_size as usize);
    for i in rb.bytes().iter() {
        assert_eq!(*i, 0);
    }

    writer.close(&mut eng).unwrap();
    reader.close(&mut eng).unwrap();
}

#[test]
fn truncate_shrinks_and_grows() {
    let mut eng = Engine::new(7, 512);
    let path = name("t");
    let writer = BufferedFile::create(&mut eng, &path).unwrap();
    let reader = BufferedFile::open(&mut eng, &path).unwrap();

    writer.write_at(&mut eng, vec![1u8; 1000], 0).unwrap();
    assert_eq!(writer.file_size(&eng).unwrap(), 1000);

    writer.truncate(&mut eng, 10).unwrap();
    assert_eq!(writer.file_size(&eng).unwrap(), 10);
    let rb = reader.read_at(&eng, 0, 100).unwrap();
    assert_eq!(rb.len(), 10);
    assert_eq!(rb.bytes().as_slice(), &[1u8; 10]);

    writer.truncate(&mut eng, 20).unwrap();
    assert_eq!(writer.file_size(&eng).unwrap(), 20);
    let rb = reader.read_at(&eng, 0, 100).unwrap();
    assert_eq!(rb.len(), 20);
    assert_eq!(&rb.bytes()[0..10], &[1u8; 10]);
    assert_eq!(&rb.bytes()[10..20], &[0u8; 10]);

    writer.close(&mut eng).unwrap();
    reader.close(&mut eng).unwrap();
}

#[test]
fn pre_allocate_reserves_storage() {
    let mut eng = Engine::new(7, 512);
    let path = name("p");
    let writer = BufferedFile::create(&mut eng, &path).unwrap();

    // keep_size: storage is reserved but the size stays.
    writer.pre_allocate(&mut eng, 2048, true).unwrap();
    let stat = writer.stat(&eng).unwrap();
    assert_eq!(stat.file_size, 0);
    assert_eq!(stat.allocated_file_size, 2048);

    // without keep_size the file grows and the new range reads as zero.
    writer.pre_allocate(&mut eng, 1024, false).unwrap();
    let stat = writer.stat(&eng).unwrap();
    assert_eq!(stat.file_size, 1024);
    assert_eq!(stat.allocated_file_size, 2048);

    writer.close(&mut eng).unwrap();
}

#[test]
fn pre_allocate_keeps_existing_bytes() {
    let mut eng = Engine::new(7, 512);
    let path = name("p");
    let writer = BufferedFile::create(&mut eng, &path).unwrap();
    let reader = BufferedFile::open(&mut eng, &path).unwrap();
    writer.write_at(&mut eng, vec![9u8, 8, 7], 0).unwrap();
    writer.pre_allocate(&mut eng, 600, false).unwrap();
    assert_eq!(writer.file_size(&eng).unwrap(), 600);
    let rb = reader.read_at(&eng, 0, 600).unwrap();
    assert_eq!(rb.len(), 600);
    assert_eq!(&rb.bytes()[0..3], &[9u8, 8, 7]);
    assert!(rb.bytes()[3..].iter().all(|b| *b == 0));
    writer.close(&mut eng).unwrap();
    reader.close(&mut eng).unwrap();
}

#[test]
fn rename_updates_path_and_namespace() {
    let mut eng = Engine::new(7, 4096);
    let old_path = name("before");
    let new_path = name("after");
    let mut f = BufferedFile::create(&mut eng, &old_path).unwrap();
    f.write_at(&mut eng, vec![5u8, 6], 0).unwrap();

    f.rename(&mut eng, new_path.clone()).unwrap();
    assert_eq!(f.path().unwrap().as_slice(), new_path.as_slice());
    assert!(!eng.path_exists(&old_path));
    assert!(eng.path_exists(&new_path));

    // The renamed file is the same file, with its contents.
    let reader = BufferedFile::open(&mut eng, &new_path).unwrap();
    assert!(reader.is_same(&f));
    let rb = reader.read_at(&eng, 0, 2).unwrap();
    assert_eq!(rb.bytes().as_slice(), &[5u8, 6]);
    reader.close(&mut eng).unwrap();
    f.close(&mut eng).unwrap();
}

#[test]
fn rename_replaces_target() {
    let mut eng = Engine::new(7, 4096);
    let path_a = name("a");
    let path_b = name("b");
    let mut fa = BufferedFile::create(&mut eng, &path_a).unwrap();
    let fb = BufferedFile::create(&mut eng, &path_b).unwrap();
    fa.rename(&mut eng, path_b.clone()).unwrap();
    assert!(!eng.path_exists(&path_a));
    assert!(eng.path_exists(&path_b));
    let reader = BufferedFile::open(&mut eng, &path_b).unwrap();
    assert!(reader.is_same(&fa));
    assert!(!reader.is_same(&fb));
    reader.close(&mut eng).unwrap();
    fa.close(&mut eng).unwrap();
    fb.close(&mut eng).unwrap();
}

#[test]
fn remove_keeps_descriptor_usable() {
    let mut eng = Engine::new(7, 4096);
    let path = name("doomed");
    let writer = BufferedFile::create(&mut eng, &path).unwrap();
    writer.write_at(&mut eng, vec![1u8, 2, 3], 0).unwrap();

    writer.remove(&mut eng).unwrap();
    assert!(!eng.path_exists(&path));

    // Still open: writes and metadata keep working until close.
    writer.write_at(&mut eng, vec![4u8], 3).unwrap();
    assert_eq!(writer.file_size(&eng).unwrap(), 4);

    // The name is gone for everyone else.
    BufferedFile::open(&mut eng, &path).expect_err("opened a removed file");
    writer.close(&mut eng).unwrap();
}

#[test]
fn discard_hands_out_descriptor_and_path() {
    let mut eng = Engine::new(7, 4096);
    let path = name("kept");
    let f = BufferedFile::create(&mut eng, &path).unwrap();
    let fd = f.as_raw_fd();
    let (raw, p) = f.discard();
    assert_eq!(raw, fd);
    assert_eq!(p.unwrap(), path);
}

#[test]
fn fdatasync_succeeds_on_live_engine() {
    let mut eng = Engine::new(7, 4096);
    let path = name("synced");
    let f = BufferedFile::create(&mut eng, &path).unwrap();
    f.write_at(&mut eng, vec![1u8], 0).unwrap();
    f.fdatasync(&eng).unwrap();
    f.close(&mut eng).unwrap();
}

#[test]
fn read_result_accessors() {
    let rr = ReadResult::new(vec![1u8, 2, 3]);
    assert_eq!(rr.len(), 3);
    assert!(!rr.is_empty());
    assert_eq!(rr.bytes().as_slice(), &[1u8, 2, 3]);
    assert_eq!(rr.into_bytes(), vec![1u8, 2, 3]);
    let empty = ReadResult::new(Vec::new());
    assert!(empty.is_empty());
}
