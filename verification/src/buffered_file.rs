//! The buffered-file facade: a single-owner wrapper over one open
//! descriptor of the engine, exposing suspend-on-I/O style operations with
//! exact caller-visible semantics. Every operation other than `path`,
//! `is_same`, `close` and `discard` requires an attached, open descriptor;
//! calling one on anything else is a contract violation, not a recoverable
//! error, and is excluded by precondition.

use vstd::prelude::*;

use crate::bytes::{apply_write, copy_bytes, read_window_vec, resize_zeros, spec_read, spec_resize,
    spec_write, spec_zero, zero_range_vec};
use crate::cluster::{alloc_after_punch, alloc_after_reserve, alloc_after_resize, alloc_after_write,
    count_true, count_true_exec, mark_written, punch_clusters, reserve_clusters, resize_clusters};
use crate::engine::{Engine, Handle, Inode, MAX_FILE_BYTES, MAX_OPEN_FILES};
use crate::errors::{enrich, FileError, Op, OsError};
use crate::flags::{lemma_flags_decode, spec_flags, OpenOptions};
use crate::read_result::ReadResult;
use crate::stat::Stat;

verus! {

/// An open file backed by the OS page cache, accessed through the engine.
/// It owns the raw descriptor, remembers the (device, inode) identity
/// captured at open, and keeps the path for diagnostics and as the
/// rename/remove target.
#[derive(Debug)]
pub struct BufferedFile {
    pub fd: i32,
    pub dev: u64,
    pub ino: usize,
    pub path: Option<Vec<u8>>,
}

/// The engines agree everywhere except possibly at one inode's storage.
pub open spec fn same_but_inode(e0: Engine, e1: Engine, ino: int) -> bool {
    &&& e1.alive == e0.alive
    &&& e1.dev == e0.dev
    &&& e1.cluster == e0.cluster
    &&& e1.entries@ == e0.entries@
    &&& e1.handles@ == e0.handles@
    &&& e1.inodes@.len() == e0.inodes@.len()
    &&& forall|k: int|
        0 <= k < e0.inodes@.len() && k != ino ==> e1.inodes@[k] == e0.inodes@[k]
}

impl BufferedFile {
    pub open spec fn path_view(self) -> Option<Seq<u8>> {
        match self.path {
            Some(p) => Some(p@),
            None => None,
        }
    }

    /// This value names an open descriptor slot of the engine, bound to an
    /// existing inode on the engine's device.
    pub open spec fn attached(self, eng: Engine) -> bool {
        &&& 0 <= self.fd < eng.handles@.len()
        &&& eng.handles@[self.fd as int].open
        &&& eng.handles@[self.fd as int].ino == self.ino
        &&& self.ino < eng.inodes@.len()
        &&& self.dev == eng.dev
    }

    pub open spec fn handle(self, eng: Engine) -> Handle {
        eng.handles@[self.fd as int]
    }

    /// The file's logical bytes; their count is the file size.
    pub open spec fn file_data(self, eng: Engine) -> Seq<u8> {
        eng.inodes@[self.ino as int].data@
    }

    /// The file's per-cluster allocation map.
    pub open spec fn file_alloc(self, eng: Engine) -> Seq<bool> {
        eng.inodes@[self.ino as int].alloc@
    }

    /// Same file on the same device: equal (device, inode), regardless of
    /// descriptor values.
    pub open spec fn spec_is_same(self, other: BufferedFile) -> bool {
        self.dev == other.dev && self.ino == other.ino
    }

    /// True iff both values live on the same device and have the same
    /// inode: true across independent opens of one path and across hard
    /// links, false whenever the identities differ, as they do for a
    /// symlink's own identity against its target.
    pub fn is_same(&self, other: &BufferedFile) -> (r: bool)
        ensures
            r == self.spec_is_same(*other),
    {
        self.dev == other.dev && self.ino == other.ino
    }

    /// A borrowed, read-only view of the current path, if the file has one.
    pub fn path(&self) -> (r: Option<&Vec<u8>>)
        ensures
            match r {
                Some(p) => self.path_view() == Some(p@),
                None => self.path_view() is None,
            },
    {
        match &self.path {
            Some(p) => Some(p),
            None => None,
        }
    }

    pub fn as_raw_fd(&self) -> (r: i32)
        ensures
            r == self.fd,
    {
        self.fd
    }

    /// Consumes the value and hands out the raw descriptor and path without
    /// releasing the descriptor: ownership moves to the caller, and this
    /// value can never release it a second time.
    pub fn discard(self) -> (r: (i32, Option<Vec<u8>>))
        ensures
            r.0 == self.fd,
            r.1 == self.path,
    {
        (self.fd, self.path)
    }

    /// Opens `path` with explicit options: the OS flags are close-on-exec
    /// OR the access mode OR the creation mode OR the custom flags with
    /// their access-mode bits masked out. On failure the underlying cause
    /// is wrapped with the operation description and the path, and no
    /// descriptor — none was obtained — and the namespace is untouched.
    pub fn open_with_options(eng: &mut Engine, path: &Vec<u8>, op: Op, opts: &OpenOptions) -> (r:
        Result<BufferedFile, FileError>)
        requires
            old(eng).wf(),
        ensures
            final(eng).wf(),
            final(eng).alive == old(eng).alive,
            final(eng).dev == old(eng).dev,
            final(eng).cluster == old(eng).cluster,
            ({
                let e0 = *old(eng);
                match spec_flags(*opts) {
                    None => r matches Err(e) && *final(eng) == e0 && e.wraps(
                        op,
                        Some(path@),
                        None,
                        OsError::InvalidInput,
                    ),
                    Some(f) => {
                        if !e0.alive {
                            r matches Err(e) && *final(eng) == e0 && e
                                == FileError::EngineUnavailable
                        } else if e0.handles@.len() >= MAX_OPEN_FILES {
                            r matches Err(e) && *final(eng) == e0 && e.wraps(
                                op,
                                Some(path@),
                                None,
                                OsError::TooManyOpenFiles,
                            )
                        } else if e0.has_name(path@) && f & 64i32 != 0 && f & 128i32 != 0 {
                            r matches Err(e) && *final(eng) == e0 && e.wraps(
                                op,
                                Some(path@),
                                None,
                                OsError::AlreadyExists,
                            )
                        } else if !e0.has_name(path@) && f & 64i32 == 0 {
                            r matches Err(e) && *final(eng) == e0 && e.wraps(
                                op,
                                Some(path@),
                                None,
                                OsError::NotFound,
                            )
                        } else {
                            r matches Ok(bf) && {
                                &&& bf.fd == e0.handles@.len() as i32
                                &&& bf.dev == e0.dev
                                &&& bf.path_view() == Some(path@)
                                &&& bf.attached(*final(eng))
                                &&& final(eng).has_name(path@)
                                &&& final(eng).ino_at(path@) == bf.ino
                                &&& final(eng).handles@.len() == e0.handles@.len() + 1
                                &&& forall|k: int|
                                    0 <= k < e0.handles@.len() ==> final(eng).handles@[k]
                                        == e0.handles@[k]
                                &&& final(eng).handles@.last() == (Handle {
                                    ino: bf.ino,
                                    open: true,
                                    readable: f & 3i32 == 0 || f & 3i32 == 2,
                                    writable: f & 3i32 == 1 || f & 3i32 == 2,
                                    append: f & 1024i32 != 0,
                                })
                                &&& if e0.has_name(path@) {
                                    &&& bf.ino == e0.ino_at(path@)
                                    &&& final(eng).entries@ == e0.entries@
                                    &&& final(eng).inodes@.len() == e0.inodes@.len()
                                    &&& forall|k: int|
                                        0 <= k < e0.inodes@.len() && k != bf.ino
                                            ==> final(eng).inodes@[k] == e0.inodes@[k]
                                    &&& if f & 512i32 != 0 {
                                        final(eng).inodes@[bf.ino as int].data@ == Seq::<
                                            u8,
                                        >::empty() && final(eng).inodes@[bf.ino as int].alloc@
                                            == Seq::<bool>::empty()
                                    } else {
                                        final(eng).inodes@ == e0.inodes@
                                    }
                                } else {
                                    &&& bf.ino == e0.inodes@.len()
                                    &&& final(eng).inodes@.len() == e0.inodes@.len() + 1
                                    &&& forall|k: int|
                                        0 <= k < e0.inodes@.len() ==> final(eng).inodes@[k]
                                            == e0.inodes@[k]
                                    &&& final(eng).inodes@.last().data@ == Seq::<u8>::empty()
                                    &&& final(eng).inodes@.last().alloc@ == Seq::<bool>::empty()
                                    &&& final(eng).entries@.len() == e0.entries@.len() + 1
                                    &&& forall|k: int|
                                        0 <= k < e0.entries@.len() ==> final(eng).entries@[k]
                                            == e0.entries@[k]
                                    &&& final(eng).entries@.last().name@ == path@
                                    &&& final(eng).entries@.last().ino == bf.ino
                                }
                            }
                        }
                    },
                }
            }),
    {
        let flags: i32 = match opts.resolve_flags() {
            Ok(f) => f,
            Err(c) => {
                return Err(enrich(c, op, Some(path), None));
            },
        };
        if !eng.is_alive() {
            return Err(FileError::EngineUnavailable);
        }
        proof {
            lemma_flags_decode(*opts);
        }
        match eng.open_at(path, flags, opts.mode) {
            Err(c) => Err(enrich(c, op, Some(path), None)),
            Ok(fd) => {
                let ino: usize = eng.handles[fd as usize].ino;
                proof {
                    let e0 = *old(eng);
                    if e0.has_name(path@) {
                        let k = e0.entry_index(path@);
                        assert(eng.entries@[k].name@ == path@);
                        eng.lemma_entry_index_agrees(path@, k);
                    } else {
                        eng.lemma_entry_index_agrees(path@, eng.entries@.len() - 1);
                    }
                }
                Ok(
                    BufferedFile {
                        fd,
                        dev: eng.dev,
                        ino,
                        path: Some(copy_bytes(path)),
                    },
                )
            },
        }
    }

    /// Opens `path` for writing, creating it if absent and truncating it
    /// if present, like `create` in the standard library.
    pub fn create(eng: &mut Engine, path: &Vec<u8>) -> (r: Result<BufferedFile, FileError>)
        requires
            old(eng).wf(),
        ensures
            final(eng).wf(),
            final(eng).alive == old(eng).alive,
            final(eng).dev == old(eng).dev,
            final(eng).cluster == old(eng).cluster,
            ({
                let e0 = *old(eng);
                match r {
                    Err(e) => *final(eng) == e0 && ((!e0.alive && e == FileError::EngineUnavailable)
                        || (e0.alive && e0.handles@.len() >= MAX_OPEN_FILES && e.wraps(
                        Op::Creating,
                        Some(path@),
                        None,
                        OsError::TooManyOpenFiles,
                    ))),
                    Ok(bf) => {
                        &&& e0.alive
                        &&& e0.handles@.len() < MAX_OPEN_FILES
                        &&& bf.fd == e0.handles@.len() as i32
                        &&& bf.dev == e0.dev
                        &&& bf.path_view() == Some(path@)
                        &&& bf.attached(*final(eng))
                        &&& final(eng).has_name(path@)
                        &&& final(eng).ino_at(path@) == bf.ino
                        &&& final(eng).handles@.len() == e0.handles@.len() + 1
                        &&& forall|k: int|
                            0 <= k < e0.handles@.len() ==> final(eng).handles@[k]
                                == e0.handles@[k]
                        &&& final(eng).handles@.last() == (Handle {
                            ino: bf.ino,
                            open: true,
                            readable: false,
                            writable: true,
                            append: false,
                        })
                        &&& final(eng).inodes@[bf.ino as int].data@ == Seq::<u8>::empty()
                        &&& final(eng).inodes@[bf.ino as int].alloc@ == Seq::<bool>::empty()
                        &&& if e0.has_name(path@) {
                            &&& bf.ino == e0.ino_at(path@)
                            &&& final(eng).entries@ == e0.entries@
                            &&& final(eng).inodes@.len() == e0.inodes@.len()
                            &&& forall|k: int|
                                0 <= k < e0.inodes@.len() && k != bf.ino
                                    ==> final(eng).inodes@[k] == e0.inodes@[k]
                        } else {
                            &&& bf.ino == e0.inodes@.len()
                            &&& final(eng).inodes@.len() == e0.inodes@.len() + 1
                            &&& forall|k: int|
                                0 <= k < e0.inodes@.len() ==> final(eng).inodes@[k]
                                    == e0.inodes@[k]
                            &&& final(eng).entries@.len() == e0.entries@.len() + 1
                            &&& forall|k: int|
                                0 <= k < e0.entries@.len() ==> final(eng).entries@[k]
                                    == e0.entries@[k]
                            &&& final(eng).entries@.last().name@ == path@
                            &&& final(eng).entries@.last().ino == bf.ino
                        }
                    },
                }
            }),
    {
        let opts = OpenOptions {
            read: false,
            write: true,
            append: false,
            truncate: true,
            create: true,
            create_new: false,
            custom_flags: 0,
            mode: 0o644,
        };
        proof {
            assert((0x80000i32 | 1i32 | (64i32 | 512i32) | (0i32 & !3i32)) & 3i32 == 1i32 && (
            0x80000i32 | 1i32 | (64i32 | 512i32) | (0i32 & !3i32)) & 64i32 != 0i32 && (0x80000i32
                | 1i32 | (64i32 | 512i32) | (0i32 & !3i32)) & 128i32 == 0i32 && (0x80000i32 | 1i32
                | (64i32 | 512i32) | (0i32 & !3i32)) & 512i32 != 0i32 && (0x80000i32 | 1i32 | (
            64i32 | 512i32) | (0i32 & !3i32)) & 1024i32 == 0i32) by (bit_vector);
        }
        Self::open_with_options(eng, path, Op::Creating, &opts)
    }

    /// Opens `path` for reading only, like `open` in the standard library.
    /// A failed open never creates a file: on any error the namespace is
    /// exactly what it was.
    pub fn open(eng: &mut Engine, path: &Vec<u8>) -> (r: Result<BufferedFile, FileError>)
        requires
            old(eng).wf(),
        ensures
            final(eng).wf(),
            final(eng).alive == old(eng).alive,
            final(eng).dev == old(eng).dev,
            final(eng).cluster == old(eng).cluster,
            ({
                let e0 = *old(eng);
                match r {
                    Err(e) => *final(eng) == e0 && ((!e0.alive && e == FileError::EngineUnavailable)
                        || (e0.alive && e0.handles@.len() >= MAX_OPEN_FILES && e.wraps(
                        Op::Opening,
                        Some(path@),
                        None,
                        OsError::TooManyOpenFiles,
                    )) || (e0.alive && e0.handles@.len() < MAX_OPEN_FILES && !e0.has_name(path@)
                        && e.wraps(Op::Opening, Some(path@), None, OsError::NotFound))),
                    Ok(bf) => {
                        &&& e0.alive
                        &&& e0.handles@.len() < MAX_OPEN_FILES
                        &&& e0.has_name(path@)
                        &&& bf.ino == e0.ino_at(path@)
                        &&& bf.fd == e0.handles@.len() as i32
                        &&& bf.dev == e0.dev
                        &&& bf.path_view() == Some(path@)
                        &&& bf.attached(*final(eng))
                        &&& final(eng).entries@ == e0.entries@
                        &&& final(eng).inodes@ == e0.inodes@
                        &&& final(eng).handles@.len() == e0.handles@.len() + 1
                        &&& forall|k: int|
                            0 <= k < e0.handles@.len() ==> final(eng).handles@[k]
                                == e0.handles@[k]
                        &&& final(eng).handles@.last() == (Handle {
                            ino: bf.ino,
                            open: true,
                            readable: true,
                            writable: false,
                            append: false,
                        })
                    },
                }
            }),
    {
        let opts = OpenOptions {
            read: true,
            write: false,
            append: false,
            truncate: false,
            create: false,
            create_new: false,
            custom_flags: 0,
            mode: 0o644,
        };
        proof {
            assert((0x80000i32 | 0i32 | 0i32 | (0i32 & !3i32)) & 3i32 == 0i32 && (0x80000i32
                | 0i32 | 0i32 | (0i32 & !3i32)) & 64i32 == 0i32 && (0x80000i32 | 0i32 | 0i32 | (
            0i32 & !3i32)) & 128i32 == 0i32 && (0x80000i32 | 0i32 | 0i32 | (0i32 & !3i32))
                & 512i32 == 0i32 && (0x80000i32 | 0i32 | 0i32 | (0i32 & !3i32)) & 1024i32
                == 0i32) by (bit_vector);
        }
        Self::open_with_options(eng, path, Op::Opening, &opts)
    }

    /// Reads up to `size` bytes at `offset` into a buffer owned by the
    /// result: only bytes the engine filled are returned, so the window is
    /// empty at or past end-of-file and clipped at the boundary; bytes in
    /// sparse regions read as zero.
    pub fn read_at(&self, eng: &Engine, pos: u64, size: usize) -> (r: Result<
        ReadResult,
        FileError,
    >)
        requires
            eng.wf(),
            self.attached(*eng),
        ensures
            match r {
                Ok(rr) => eng.alive && self.handle(*eng).readable && rr@ == spec_read(
                    self.file_data(*eng),
                    pos as int,
                    size as int,
                ),
                Err(e) => (!eng.alive && e == FileError::EngineUnavailable) || (eng.alive
                    && !self.handle(*eng).readable && e.wraps(
                    Op::Reading,
                    self.path_view(),
                    Some(self.fd),
                    OsError::BadDescriptor,
                )),
            },
    {
        if !eng.is_alive() {
            return Err(FileError::EngineUnavailable);
        }
        let h: Handle = eng.handles[self.fd as usize];
        if !h.readable {
            return Err(enrich(OsError::BadDescriptor, Op::Reading, self.path(), Some(self.fd)));
        }
        let window: Vec<u8> = read_window_vec(&eng.inodes[self.ino].data, pos, size);
        Ok(ReadResult::new(window))
    }

    /// Writes the bytes of `buf` at `pos`, taking ownership of the buffer
    /// for the duration so nothing can touch it while the engine has it.
    /// Returns how many bytes were written; this engine never writes short,
    /// but a shorter count would be a success, not an error. Writing past
    /// end-of-file grows the file; the gap reads as zero and only clusters
    /// the write dirties become allocated.
    pub fn write_at(&self, eng: &mut Engine, buf: Vec<u8>, pos: u64) -> (r: Result<
        usize,
        FileError,
    >)
        requires
            old(eng).wf(),
            self.attached(*old(eng)),
        ensures
            final(eng).wf(),
            self.attached(*final(eng)),
            ({
                let e0 = *old(eng);
                let h = self.handle(e0);
                let data0 = self.file_data(e0);
                let wpos = if h.append {
                    data0.len() as int
                } else {
                    pos as int
                };
                match r {
                    Err(e) => *final(eng) == e0 && ((!e0.alive && e == FileError::EngineUnavailable)
                        || (e0.alive && !h.writable && e.wraps(
                        Op::Writing,
                        self.path_view(),
                        Some(self.fd),
                        OsError::BadDescriptor,
                    )) || (e0.alive && h.writable && buf@.len() > 0 && wpos + buf@.len()
                        > MAX_FILE_BYTES && e.wraps(
                        Op::Writing,
                        self.path_view(),
                        Some(self.fd),
                        OsError::NoSpace,
                    ))),
                    Ok(n) => {
                        &&& e0.alive
                        &&& h.writable
                        &&& n == buf@.len()
                        &&& (buf@.len() == 0 ==> *final(eng) == e0)
                        &&& (buf@.len() > 0 ==> {
                            &&& wpos + buf@.len() <= MAX_FILE_BYTES
                            &&& same_but_inode(e0, *final(eng), self.ino as int)
                            &&& self.file_data(*final(eng)) == spec_write(data0, wpos, buf@)
                            &&& self.file_alloc(*final(eng)) == alloc_after_write(
                                self.file_alloc(e0),
                                e0.cluster as int,
                                wpos,
                                wpos + buf@.len(),
                                vstd::math::max(data0.len() as int, wpos + buf@.len()),
                            )
                        })
                    },
                }
            }),
    {
        if !eng.is_alive() {
            return Err(FileError::EngineUnavailable);
        }
        let h: Handle = eng.handles[self.fd as usize];
        if !h.writable {
            return Err(enrich(OsError::BadDescriptor, Op::Writing, self.path(), Some(self.fd)));
        }
        let flen: usize = eng.inodes[self.ino].data.len();
        let wpos: u64 = if h.append {
            flen as u64
        } else {
            pos
        };
        if buf.len() == 0 {
            return Ok(0);
        }
        if buf.len() as u64 > MAX_FILE_BYTES || wpos > MAX_FILE_BYTES - buf.len() as u64 {
            return Err(enrich(OsError::NoSpace, Op::Writing, self.path(), Some(self.fd)));
        }
        let wpos_us: usize = wpos as usize;
        let end_us: usize = wpos_us + buf.len();
        let newlen: usize = if flen >= end_us {
            flen
        } else {
            end_us
        };
        let new_data: Vec<u8> = apply_write(&eng.inodes[self.ino].data, wpos_us, &buf);
        let new_alloc: Vec<bool> = mark_written(
            &eng.inodes[self.ino].alloc,
            eng.cluster as u64,
            wpos,
            wpos + buf.len() as u64,
            newlen as u64,
        );
        eng.set_inode(self.ino, Inode { data: new_data, alloc: new_alloc });
        proof {
            assert forall|k: int| 0 <= k < eng.inodes@.len() implies eng.inode_ok(
                #[trigger] eng.inodes@[k],
            ) by {
                if k != self.ino as int {
                    assert(eng.inodes@[k] == old(eng).inodes@[k]);
                }
            }
        }
        Ok(buf.len())
    }

    /// Suspends until the engine confirms file data is durable. This
    /// engine's store has no volatile layer, so the call only witnesses
    /// that the engine is still reachable.
    pub fn fdatasync(&self, eng: &Engine) -> (r: Result<(), FileError>)
        requires
            eng.wf(),
            self.attached(*eng),
        ensures
            match r {
                Ok(u) => eng.alive,
                Err(e) => !eng.alive && e == FileError::EngineUnavailable,
            },
    {
        if !eng.is_alive() {
            return Err(FileError::EngineUnavailable);
        }
        Ok(())
    }

    /// Sets the file size to `size`: a shorter file is cut, a longer one
    /// gains a sparse zero tail; clusters past the new end are released.
    pub fn truncate(&self, eng: &mut Engine, size: u64) -> (r: Result<(), FileError>)
        requires
            old(eng).wf(),
            self.attached(*old(eng)),
        ensures
            final(eng).wf(),
            self.attached(*final(eng)),
            ({
                let e0 = *old(eng);
                let h = self.handle(e0);
                match r {
                    Err(e) => *final(eng) == e0 && ((!e0.alive && e == FileError::EngineUnavailable)
                        || (e0.alive && !h.writable && e.wraps(
                        Op::Truncating,
                        self.path_view(),
                        Some(self.fd),
                        OsError::BadDescriptor,
                    )) || (e0.alive && h.writable && size > MAX_FILE_BYTES && e.wraps(
                        Op::Truncating,
                        self.path_view(),
                        Some(self.fd),
                        OsError::FileTooLarge,
                    ))),
                    Ok(u) => {
                        &&& e0.alive
                        &&& h.writable
                        &&& size <= MAX_FILE_BYTES
                        &&& same_but_inode(e0, *final(eng), self.ino as int)
                        &&& self.file_data(*final(eng)) == spec_resize(self.file_data(e0), size as int)
                        &&& self.file_alloc(*final(eng)) == alloc_after_resize(
                            self.file_alloc(e0),
                            e0.cluster as int,
                            size as int,
                        )
                    },
                }
            }),
    {
        if !eng.is_alive() {
            return Err(FileError::EngineUnavailable);
        }
        let h: Handle = eng.handles[self.fd as usize];
        if !h.writable {
            return Err(
                enrich(OsError::BadDescriptor, Op::Truncating, self.path(), Some(self.fd)),
            );
        }
        if size > MAX_FILE_BYTES {
            return Err(enrich(OsError::FileTooLarge, Op::Truncating, self.path(), Some(self.fd)));
        }
        let new_data: Vec<u8> = resize_zeros(&eng.inodes[self.ino].data, size as usize);
        let new_alloc: Vec<bool> = resize_clusters(
            &eng.inodes[self.ino].alloc,
            eng.cluster as u64,
            size,
        );
        eng.set_inode(self.ino, Inode { data: new_data, alloc: new_alloc });
        proof {
            assert forall|k: int| 0 <= k < eng.inodes@.len() implies eng.inode_ok(
                #[trigger] eng.inodes@[k],
            ) by {
                if k != self.ino as int {
                    assert(eng.inodes@[k] == old(eng).inodes@[k]);
                }
            }
        }
        Ok(())
    }

    /// Releases backing storage for `[offset, offset + size)` without ever
    /// changing the file size: clusters fully inside the range are
    /// unmapped, partially covered ones are zero-filled instead, and the
    /// whole range reads as zero afterwards.
    pub fn deallocate(&self, eng: &mut Engine, offset: u64, size: u64) -> (r: Result<
        (),
        FileError,
    >)
        requires
            old(eng).wf(),
            self.attached(*old(eng)),
        ensures
            final(eng).wf(),
            self.attached(*final(eng)),
            ({
                let e0 = *old(eng);
                let h = self.handle(e0);
                match r {
                    Err(e) => *final(eng) == e0 && ((!e0.alive && e == FileError::EngineUnavailable)
                        || (e0.alive && !h.writable && e.wraps(
                        Op::Deallocating,
                        self.path_view(),
                        Some(self.fd),
                        OsError::BadDescriptor,
                    )) || (e0.alive && h.writable && size == 0 && e.wraps(
                        Op::Deallocating,
                        self.path_view(),
                        Some(self.fd),
                        OsError::InvalidInput,
                    )) || (e0.alive && h.writable && size > 0 && offset + size > u64::MAX && e.wraps(
                        Op::Deallocating,
                        self.path_view(),
                        Some(self.fd),
                        OsError::FileTooLarge,
                    ))),
                    Ok(u) => {
                        &&& e0.alive
                        &&& h.writable
                        &&& size > 0
                        &&& offset + size <= u64::MAX
                        &&& same_but_inode(e0, *final(eng), self.ino as int)
                        &&& self.file_data(*final(eng)) == spec_zero(
                            self.file_data(e0),
                            offset as int,
                            offset + size,
                        )
                        &&& self.file_alloc(*final(eng)) == alloc_after_punch(
                            self.file_alloc(e0),
                            e0.cluster as int,
                            offset as int,
                            offset + size,
                        )
                    },
                }
            }),
    {
        if !eng.is_alive() {
            return Err(FileError::EngineUnavailable);
        }
        let h: Handle = eng.handles[self.fd as usize];
        if !h.writable {
            return Err(
                enrich(OsError::BadDescriptor, Op::Deallocating, self.path(), Some(self.fd)),
            );
        }
        if size == 0 {
            return Err(
                enrich(OsError::InvalidInput, Op::Deallocating, self.path(), Some(self.fd)),
            );
        }
        if size > u64::MAX - offset {
            return Err(
                enrich(OsError::FileTooLarge, Op::Deallocating, self.path(), Some(self.fd)),
            );
        }
        let end: u64 = offset + size;
        let flen: usize = eng.inodes[self.ino].data.len();
        let lo_us: usize = if offset >= flen as u64 {
            flen
        } else {
            offset as usize
        };
        let hi_us: usize = if end >= flen as u64 {
            flen
        } else {
            end as usize
        };
        let new_data: Vec<u8> = zero_range_vec(&eng.inodes[self.ino].data, lo_us, hi_us);
        proof {
            assert(spec_zero(self.file_data(*eng), lo_us as int, hi_us as int) =~= spec_zero(
                self.file_data(*eng),
                offset as int,
                offset + size,
            ));
        }
        let new_alloc: Vec<bool> = punch_clusters(
            &eng.inodes[self.ino].alloc,
            eng.cluster as u64,
            offset,
            end,
        );
        eng.set_inode(self.ino, Inode { data: new_data, alloc: new_alloc });
        proof {
            assert forall|k: int| 0 <= k < eng.inodes@.len() implies eng.inode_ok(
                #[trigger] eng.inodes@[k],
            ) by {
                if k != self.ino as int {
                    assert(eng.inodes@[k] == old(eng).inodes@[k]);
                }
            }
        }
        Ok(())
    }

    /// Reserves storage so the file can grow to at least `size` bytes
    /// without changing any byte in `[0, size)`. With `keep_size` the file
    /// size stays as it is; without it a shorter file grows to `size` and
    /// the new tail reads as zero until overwritten.
    pub fn pre_allocate(&self, eng: &mut Engine, size: u64, keep_size: bool) -> (r: Result<
        (),
        FileError,
    >)
        requires
            old(eng).wf(),
            self.attached(*old(eng)),
        ensures
            final(eng).wf(),
            self.attached(*final(eng)),
            ({
                let e0 = *old(eng);
                let h = self.handle(e0);
                let data0 = self.file_data(e0);
                match r {
                    Err(e) => *final(eng) == e0 && ((!e0.alive && e == FileError::EngineUnavailable)
                        || (e0.alive && !h.writable && e.wraps(
                        Op::PreAllocating,
                        self.path_view(),
                        Some(self.fd),
                        OsError::BadDescriptor,
                    )) || (e0.alive && h.writable && size == 0 && e.wraps(
                        Op::PreAllocating,
                        self.path_view(),
                        Some(self.fd),
                        OsError::InvalidInput,
                    )) || (e0.alive && h.writable && size > MAX_FILE_BYTES && e.wraps(
                        Op::PreAllocating,
                        self.path_view(),
                        Some(self.fd),
                        OsError::FileTooLarge,
                    ))),
                    Ok(u) => {
                        &&& e0.alive
                        &&& h.writable
                        &&& 0 < size <= MAX_FILE_BYTES
                        &&& same_but_inode(e0, *final(eng), self.ino as int)
                        &&& self.file_data(*final(eng)) == (if !keep_size && size > data0.len() {
                            spec_resize(data0, size as int)
                        } else {
                            data0
                        })
                        &&& self.file_alloc(*final(eng)) == alloc_after_reserve(
                            self.file_alloc(e0),
                            e0.cluster as int,
                            size as int,
                        )
                    },
                }
            }),
    {
        if !eng.is_alive() {
            return Err(FileError::EngineUnavailable);
        }
        let h: Handle = eng.handles[self.fd as usize];
        if !h.writable {
            return Err(
                enrich(OsError::BadDescriptor, Op::PreAllocating, self.path(), Some(self.fd)),
            );
        }
        if size == 0 {
            return Err(
                enrich(OsError::InvalidInput, Op::PreAllocating, self.path(), Some(self.fd)),
            );
        }
        if size > MAX_FILE_BYTES {
            return Err(
                enrich(OsError::FileTooLarge, Op::PreAllocating, self.path(), Some(self.fd)),
            );
        }
        let flen: usize = eng.inodes[self.ino].data.len();
        let new_data: Vec<u8> = if !keep_size && size > flen as u64 {
            resize_zeros(&eng.inodes[self.ino].data, size as usize)
        } else {
            copy_bytes(&eng.inodes[self.ino].data)
        };
        let new_alloc: Vec<bool> = reserve_clusters(
            &eng.inodes[self.ino].alloc,
            eng.cluster as u64,
            size,
        );
        eng.set_inode(self.ino, Inode { data: new_data, alloc: new_alloc });
        proof {
            assert forall|k: int| 0 <= k < eng.inodes@.len() implies eng.inode_ok(
                #[trigger] eng.inodes@[k],
            ) by {
                if k != self.ino as int {
                    assert(eng.inodes@[k] == old(eng).inodes@[k]);
                }
            }
        }
        Ok(())
    }

    /// Unlinks the current path from the namespace. The open descriptor
    /// stays fully usable until it is closed; only the name disappears.
    pub fn remove(&self, eng: &mut Engine) -> (r: Result<(), FileError>)
        requires
            old(eng).wf(),
            self.attached(*old(eng)),
        ensures
            final(eng).wf(),
            self.attached(*final(eng)),
            ({
                let e0 = *old(eng);
                match r {
                    Err(e) => *final(eng) == e0 && ((!e0.alive && e == FileError::EngineUnavailable)
                        || (e0.alive && self.path_view() is None && e.wraps(
                        Op::Removing,
                        None,
                        Some(self.fd),
                        OsError::InvalidInput,
                    )) || (e0.alive && (self.path_view() matches Some(p) && !e0.has_name(p)
                        && e.wraps(
                        Op::Removing,
                        self.path_view(),
                        Some(self.fd),
                        OsError::NotFound,
                    )))),
                    Ok(u) => {
                        &&& e0.alive
                        &&& self.path_view() matches Some(p) && e0.has_name(p)
                            && final(eng).entries@ == e0.entries@.remove(e0.entry_index(p))
                        &&& final(eng).inodes@ == e0.inodes@
                        &&& final(eng).handles@ == e0.handles@
                        &&& final(eng).alive == e0.alive
                        &&& final(eng).dev == e0.dev
                        &&& final(eng).cluster == e0.cluster
                    },
                }
            }),
    {
        if !eng.is_alive() {
            return Err(FileError::EngineUnavailable);
        }
        let i: usize = match &self.path {
            None => {
                return Err(enrich(OsError::InvalidInput, Op::Removing, None, Some(self.fd)));
            },
            Some(p) => {
                match eng.lookup(p) {
                    None => {
                        return Err(
                            enrich(OsError::NotFound, Op::Removing, self.path(), Some(self.fd)),
                        );
                    },
                    Some(i) => {
                        proof {
                            eng.lemma_entry_index_agrees(p@, i as int);
                        }
                        i
                    },
                }
            },
        };
        let _removed: crate::engine::DirEntry = eng.entries.remove(i);
        proof {
            let s0 = old(eng).entries@;
            assert forall|a: int, b: int|
                0 <= a < eng.entries@.len() && 0 <= b < eng.entries@.len() && a != b implies (
            #[trigger] eng.entries@[a]).name@ != (#[trigger] eng.entries@[b]).name@ by {
                let a0 = if a < i { a } else { a + 1 };
                let b0 = if b < i { b } else { b + 1 };
                assert(eng.entries@[a] == s0[a0] && eng.entries@[b] == s0[b0]);
            }
        }
        Ok(())
    }

    /// Atomically renames the file at the current path to `new_path`,
    /// replacing anything already there; on success the held path is
    /// updated, on failure nothing changes.
    pub fn rename(&mut self, eng: &mut Engine, new_path: Vec<u8>) -> (r: Result<(), FileError>)
        requires
            old(eng).wf(),
            old(self).attached(*old(eng)),
        ensures
            final(eng).wf(),
            final(self).attached(*final(eng)),
            final(self).fd == old(self).fd,
            final(self).ino == old(self).ino,
            final(self).dev == old(self).dev,
            ({
                let e0 = *old(eng);
                match r {
                    Err(e) => *final(eng) == e0 && *final(self) == *old(self) && ((!e0.alive && e
                        == FileError::EngineUnavailable) || (e0.alive && old(
                        self,
                    ).path_view() is None && e.wraps(
                        Op::Renaming,
                        None,
                        Some(old(self).fd),
                        OsError::InvalidInput,
                    )) || (e0.alive && (old(self).path_view() matches Some(p) && !e0.has_name(p)
                        && e.wraps(
                        Op::Renaming,
                        old(self).path_view(),
                        Some(old(self).fd),
                        OsError::NotFound,
                    )))),
                    Ok(u) => {
                        &&& e0.alive
                        &&& final(self).path_view() == Some(new_path@)
                        &&& final(eng).inodes@ == e0.inodes@
                        &&& final(eng).handles@ == e0.handles@
                        &&& final(eng).alive == e0.alive
                        &&& final(eng).dev == e0.dev
                        &&& final(eng).cluster == e0.cluster
                        &&& old(self).path_view() matches Some(oldp) && e0.has_name(oldp) && {
                            let i = e0.entry_index(oldp);
                            if new_path@ == oldp {
                                final(eng).entries@ == e0.entries@
                            } else if e0.has_name(new_path@) {
                                let j = e0.entry_index(new_path@);
                                let s1 = e0.entries@.remove(j);
                                let i2 = if j < i {
                                    i - 1
                                } else {
                                    i
                                };
                                &&& final(eng).entries@.len() == s1.len()
                                &&& forall|k: int|
                                    0 <= k < s1.len() && k != i2 ==> final(eng).entries@[k]
                                        == s1[k]
                                &&& final(eng).entries@[i2].name@ == new_path@
                                &&& final(eng).entries@[i2].ino == e0.entries@[i].ino
                            } else {
                                &&& final(eng).entries@.len() == e0.entries@.len()
                                &&& forall|k: int|
                                    0 <= k < e0.entries@.len() && k != i
                                        ==> final(eng).entries@[k] == e0.entries@[k]
                                &&& final(eng).entries@[i].name@ == new_path@
                                &&& final(eng).entries@[i].ino == e0.entries@[i].ino
                            }
                        }
                    },
                }
            }),
    {
        if !eng.is_alive() {
            return Err(FileError::EngineUnavailable);
        }
        let found: Option<usize>;
        let same_name: bool;
        let ghost oldp: Seq<u8>;
        match &self.path {
            Some(p) => {
                found = eng.lookup(p);
                same_name = crate::bytes::bytes_eq(p, &new_path);
                proof {
                    oldp = p@;
                }
            },
            None => {
                return Err(enrich(OsError::InvalidInput, Op::Renaming, None, Some(self.fd)));
            },
        }
        let i: usize = match found {
            Some(i) => i,
            None => {
                return Err(enrich(OsError::NotFound, Op::Renaming, self.path(), Some(self.fd)));
            },
        };
        proof {
            eng.lemma_entry_index_agrees(oldp, i as int);
        }
        if same_name {
            return Ok(());
        }
        let ino: usize = eng.entries[i].ino;
        let i2: usize = match eng.lookup(&new_path) {
            Some(j) => {
                proof {
                    eng.lemma_entry_index_agrees(new_path@, j as int);
                }
                let _replaced: crate::engine::DirEntry = eng.entries.remove(j);
                if j < i {
                    i - 1
                } else {
                    i
                }
            },
            None => i,
        };
        proof {
            let s1 = eng.entries@;
            assert(s1[i2 as int].name@ == oldp);
            assert forall|k: int| 0 <= k < s1.len() implies (#[trigger] s1[k]).name@
                != new_path@ by {
                if old(eng).has_name(new_path@) {
                    let j = old(eng).entry_index(new_path@);
                    let k0 = if k < j { k } else { k + 1 };
                    assert(s1[k] == old(eng).entries@[k0]);
                }
            }
        }
        let _old_entry: crate::engine::DirEntry = eng.entries.remove(i2);
        eng.entries.insert(i2, crate::engine::DirEntry { name: copy_bytes(&new_path), ino });
        proof {
            let s1 = if old(eng).has_name(new_path@) {
                old(eng).entries@.remove(old(eng).entry_index(new_path@))
            } else {
                old(eng).entries@
            };
            assert(eng.entries@ =~= s1.update(i2 as int, eng.entries@[i2 as int]));
            assert forall|a: int, b: int|
                0 <= a < eng.entries@.len() && 0 <= b < eng.entries@.len() && a != b implies (
            #[trigger] eng.entries@[a]).name@ != (#[trigger] eng.entries@[b]).name@ by {
                assert(a != i2 ==> eng.entries@[a] == s1[a]);
                assert(b != i2 ==> eng.entries@[b] == s1[b]);
            }
        }
        self.path = Some(new_path);
        Ok(())
    }

    /// Queries the file size in bytes.
    pub fn file_size(&self, eng: &Engine) -> (r: Result<u64, FileError>)
        requires
            eng.wf(),
            self.attached(*eng),
        ensures
            match r {
                Ok(n) => eng.alive && n == self.file_data(*eng).len(),
                Err(e) => !eng.alive && e == FileError::EngineUnavailable,
            },
    {
        if !eng.is_alive() {
            return Err(FileError::EngineUnavailable);
        }
        Ok(eng.inodes[self.ino].data.len() as u64)
    }

    /// Retrieves the extended metadata in one call: logical size, allocated
    /// bytes (whole clusters), cluster size and the (device, inode)
    /// identity.
    pub fn stat(&self, eng: &Engine) -> (r: Result<Stat, FileError>)
        requires
            eng.wf(),
            self.attached(*eng),
        ensures
            match r {
                Ok(s) => eng.alive && s == (Stat {
                    file_size: self.file_data(*eng).len() as u64,
                    allocated_file_size: (count_true(self.file_alloc(*eng)) * (
                    eng.cluster as int)) as u64,
                    fs_cluster_size: eng.cluster,
                    dev: eng.dev,
                    inode: self.ino as u64,
                }),
                Err(e) => !eng.alive && e == FileError::EngineUnavailable,
            },
    {
        if !eng.is_alive() {
            return Err(FileError::EngineUnavailable);
        }
        proof {
            assert(self.file_alloc(*eng).len() <= self.file_alloc(*eng).len() * (
            eng.cluster as int)) by (nonlinear_arith)
                requires
                    1 <= eng.cluster,
            ;
        }
        let cnt: u64 = count_true_exec(&eng.inodes[self.ino].alloc);
        proof {
            assert(count_true(self.file_alloc(*eng)) * (eng.cluster as int) <= self.file_alloc(
                *eng,
            ).len() * (eng.cluster as int) && 0 <= count_true(self.file_alloc(*eng)) * (
            eng.cluster as int)) by (nonlinear_arith)
                requires
                    0 <= count_true(self.file_alloc(*eng)) <= self.file_alloc(*eng).len(),
                    1 <= eng.cluster,
            ;
        }
        let allocated: u64 = cnt * (eng.cluster as u64);
        Ok(
            Stat {
                file_size: eng.inodes[self.ino].data.len() as u64,
                allocated_file_size: allocated,
                fs_cluster_size: eng.cluster,
                dev: eng.dev,
                inode: self.ino as u64,
            },
        )
    }

    /// Consumes the value and releases the descriptor exactly once. The
    /// engine's release cannot fail, so the only failure is an engine that
    /// is no longer reachable; the descriptor slot is then left as it was.
    pub fn close(self, eng: &mut Engine) -> (r: Result<(), FileError>)
        requires
            old(eng).wf(),
            self.attached(*old(eng)),
        ensures
            final(eng).wf(),
            ({
                let e0 = *old(eng);
                let h = self.handle(e0);
                match r {
                    Err(e) => *final(eng) == e0 && !e0.alive && e == FileError::EngineUnavailable,
                    Ok(u) => e0.alive && final(eng).handles@ == e0.handles@.update(
                        self.fd as int,
                        Handle {
                            ino: h.ino,
                            open: false,
                            readable: h.readable,
                            writable: h.writable,
                            append: h.append,
                        },
                    ) && final(eng).entries@ == e0.entries@ && final(eng).inodes@ == e0.inodes@
                        && final(eng).alive == e0.alive && final(eng).dev == e0.dev
                        && final(eng).cluster == e0.cluster,
                }
            }),
    {
        if !eng.is_alive() {
            return Err(FileError::EngineUnavailable);
        }
        let mut h: Handle = eng.handles[self.fd as usize];
        h.open = false;
        eng.set_handle(self.fd as usize, h);
        Ok(())
    }
}

} // verus!
