//! The storage engine the facade delegates to, modeled as explicit verified
//! state: a flat namespace of directory entries, a table of inodes holding
//! logical content plus a per-cluster allocation map, and a table of open
//! descriptors. Tearing the engine down models the runtime shutting down
//! while file values still hold a (now unresolvable) reference to it.

use vstd::prelude::*;

use crate::bytes::copy_bytes;
use crate::errors::OsError;

verus! {

/// Largest file the engine will back, in bytes.
pub const MAX_FILE_BYTES: u64 = 0x4000_0000;

/// Largest number of descriptors the engine will hand out.
pub const MAX_OPEN_FILES: usize = 0x4000_0000;

/// One name in the namespace, bound to an inode. Several entries may share
/// an inode: those are hard links.
#[derive(Debug)]
pub struct DirEntry {
    pub name: Vec<u8>,
    pub ino: usize,
}

/// A file's storage: its logical bytes (length is the file size) and which
/// clusters of it are backed by allocated storage.
#[derive(Debug)]
pub struct Inode {
    pub data: Vec<u8>,
    pub alloc: Vec<bool>,
}

/// One handed-out descriptor. Slots are never reused; a closed slot keeps
/// recording which inode it pointed at.
#[derive(Clone, Copy, Debug, PartialEq, Eq, Structural)]
pub struct Handle {
    pub ino: usize,
    pub open: bool,
    pub readable: bool,
    pub writable: bool,
    pub append: bool,
}

pub struct Engine {
    pub alive: bool,
    pub dev: u64,
    pub cluster: u32,
    pub entries: Vec<DirEntry>,
    pub inodes: Vec<Inode>,
    pub handles: Vec<Handle>,
}

impl Engine {
    pub open spec fn inode_ok(self, inode: Inode) -> bool {
        &&& inode.data@.len() <= MAX_FILE_BYTES
        &&& inode.alloc@.len() * (self.cluster as int) <= MAX_FILE_BYTES + self.cluster
    }

    pub open spec fn wf(self) -> bool {
        &&& 1 <= self.cluster
        &&& self.cluster as int <= MAX_FILE_BYTES as int
        &&& self.handles@.len() <= MAX_OPEN_FILES
        &&& forall|k: int|
            0 <= k < self.handles@.len() ==> (#[trigger] self.handles@[k]).ino
                < self.inodes@.len()
        &&& forall|k: int|
            0 <= k < self.entries@.len() ==> (#[trigger] self.entries@[k]).ino
                < self.inodes@.len()
        &&& forall|i: int, j: int|
            0 <= i < self.entries@.len() && 0 <= j < self.entries@.len() && i != j
                ==> (#[trigger] self.entries@[i]).name@ != (#[trigger] self.entries@[j]).name@
        &&& forall|k: int|
            0 <= k < self.inodes@.len() ==> self.inode_ok(#[trigger] self.inodes@[k])
    }

    /// Some entry carries this name.
    pub open spec fn has_name(self, name: Seq<u8>) -> bool {
        exists|k: int| 0 <= k < self.entries@.len() && self.entries@[k].name@ == name
    }

    /// The index of the entry carrying this name (unique in a well-formed
    /// engine).
    pub open spec fn entry_index(self, name: Seq<u8>) -> int {
        choose|k: int| 0 <= k < self.entries@.len() && self.entries@[k].name@ == name
    }

    /// The inode the name is bound to.
    pub open spec fn ino_at(self, name: Seq<u8>) -> int {
        self.entries@[self.entry_index(name)].ino as int
    }

    pub proof fn lemma_entry_index_agrees(self, name: Seq<u8>, k: int)
        requires
            self.wf(),
            0 <= k < self.entries@.len(),
            self.entries@[k].name@ == name,
        ensures
            self.has_name(name),
            self.entry_index(name) == k,
    {
        assert(self.has_name(name));
        let m = self.entry_index(name);
        assert(0 <= m < self.entries@.len() && self.entries@[m].name@ == name);
        if m != k {
            assert(self.entries@[m].name@ != self.entries@[k].name@);
        }
    }

    pub fn new(dev: u64, cluster: u32) -> (r: Engine)
        requires
            1 <= cluster,
            cluster as u64 <= MAX_FILE_BYTES,
        ensures
            r.wf(),
            r.alive,
            r.dev == dev,
            r.cluster == cluster,
            r.entries@.len() == 0,
            r.inodes@.len() == 0,
            r.handles@.len() == 0,
    {
        Engine {
            alive: true,
            dev,
            cluster,
            entries: Vec::new(),
            inodes: Vec::new(),
            handles: Vec::new(),
        }
    }

    /// Models the surrounding runtime shutting down: every later attempt to
    /// resolve the engine reference fails.
    pub fn tear_down(&mut self)
        ensures
            !final(self).alive,
            final(self).dev == old(self).dev,
            final(self).cluster == old(self).cluster,
            final(self).entries@ == old(self).entries@,
            final(self).inodes@ == old(self).inodes@,
            final(self).handles@ == old(self).handles@,
            old(self).wf() ==> final(self).wf(),
    {
        self.alive = false;
    }

    pub fn is_alive(&self) -> (r: bool)
        ensures
            r == self.alive,
    {
        self.alive
    }

    pub fn cluster_size(&self) -> (r: u32)
        ensures
            r == self.cluster,
    {
        self.cluster
    }

    /// Finds the entry carrying `name`, if any.
    pub fn lookup(&self, name: &Vec<u8>) -> (r: Option<usize>)
        ensures
            match r {
                Some(i) => i < self.entries@.len() && self.entries@[i as int].name@ == name@
                    && self.has_name(name@),
                None => !self.has_name(name@),
            },
    {
        let mut i: usize = 0;
        while i < self.entries.len()
            invariant
                i <= self.entries@.len(),
                forall|k: int| 0 <= k < i ==> (#[trigger] self.entries@[k]).name@ != name@,
            decreases self.entries@.len() - i,
        {
            if crate::bytes::bytes_eq(&self.entries[i].name, name) {
                return Some(i);
            }
            i = i + 1;
        }
        None
    }

    pub fn path_exists(&self, name: &Vec<u8>) -> (r: bool)
        ensures
            r == self.has_name(name@),
    {
        match self.lookup(name) {
            Some(_) => true,
            None => false,
        }
    }

    /// Replaces one inode, leaving every other part of the engine as it was.
    pub fn set_inode(&mut self, idx: usize, inode: Inode)
        requires
            idx < old(self).inodes@.len(),
        ensures
            final(self).inodes@ == old(self).inodes@.update(idx as int, inode),
            final(self).alive == old(self).alive,
            final(self).dev == old(self).dev,
            final(self).cluster == old(self).cluster,
            final(self).entries@ == old(self).entries@,
            final(self).handles@ == old(self).handles@,
    {
        let _replaced: Inode = self.inodes.remove(idx);
        self.inodes.insert(idx, inode);
        proof {
            assert(self.inodes@ =~= old(self).inodes@.update(idx as int, inode));
        }
    }

    /// Replaces one descriptor slot, leaving everything else as it was.
    pub fn set_handle(&mut self, idx: usize, h: Handle)
        requires
            idx < old(self).handles@.len(),
        ensures
            final(self).handles@ == old(self).handles@.update(idx as int, h),
            final(self).alive == old(self).alive,
            final(self).dev == old(self).dev,
            final(self).cluster == old(self).cluster,
            final(self).entries@ == old(self).entries@,
            final(self).inodes@ == old(self).inodes@,
    {
        let _replaced: Handle = self.handles.remove(idx);
        self.handles.insert(idx, h);
        proof {
            assert(self.handles@ =~= old(self).handles@.update(idx as int, h));
        }
    }

    /// Opens the file named `name` under the given OS flags, as the OS
    /// `openat` call would against this engine's namespace: the access-mode
    /// bits pick the handle's capabilities, `O_CREAT` creates a missing
    /// file, `O_EXCL` makes creation exclusive, `O_TRUNC` empties an
    /// existing one, `O_APPEND` sends every write to end-of-file. The
    /// permission argument is accepted for interface fidelity; the model
    /// has no permission checks.
    pub fn open_at(&mut self, name: &Vec<u8>, flags: i32, _mode: u32) -> (r: Result<i32, OsError>)
        requires
            old(self).wf(),
        ensures
            final(self).wf(),
            final(self).alive == old(self).alive,
            final(self).dev == old(self).dev,
            final(self).cluster == old(self).cluster,
            ({
                let e0 = *old(self);
                let acc = flags & 3i32;
                let fcreat = flags & 64i32 != 0;
                let fexcl = flags & 128i32 != 0;
                let ftrunc = flags & 512i32 != 0;
                let fappend = flags & 1024i32 != 0;
                let rd = acc == 0 || acc == 2;
                let wr = acc == 1 || acc == 2;
                match r {
                    Err(c) => *final(self) == e0 && ((acc == 3 && c == OsError::InvalidInput) || (
                    acc != 3 && e0.handles@.len() >= MAX_OPEN_FILES && c
                        == OsError::TooManyOpenFiles) || (acc != 3 && e0.handles@.len()
                        < MAX_OPEN_FILES && e0.has_name(name@) && fcreat && fexcl && c
                        == OsError::AlreadyExists) || (acc != 3 && e0.handles@.len()
                        < MAX_OPEN_FILES && !e0.has_name(name@) && !fcreat && c
                        == OsError::NotFound)),
                    Ok(fd) => {
                        &&& acc != 3
                        &&& e0.handles@.len() < MAX_OPEN_FILES
                        &&& fd == e0.handles@.len() as i32
                        &&& final(self).handles@.len() == e0.handles@.len() + 1
                        &&& forall|k: int|
                            0 <= k < e0.handles@.len() ==> final(self).handles@[k]
                                == e0.handles@[k]
                        &&& if e0.has_name(name@) {
                            &&& !(fcreat && fexcl)
                            &&& final(self).handles@.last() == (Handle {
                                ino: e0.ino_at(name@) as usize,
                                open: true,
                                readable: rd,
                                writable: wr,
                                append: fappend,
                            })
                            &&& final(self).entries@ == e0.entries@
                            &&& final(self).inodes@.len() == e0.inodes@.len()
                            &&& forall|k: int|
                                0 <= k < e0.inodes@.len() && k != e0.ino_at(name@)
                                    ==> final(self).inodes@[k] == e0.inodes@[k]
                            &&& if ftrunc {
                                final(self).inodes@[e0.ino_at(name@)].data@ == Seq::<u8>::empty()
                                    && final(self).inodes@[e0.ino_at(name@)].alloc@ == Seq::<
                                    bool,
                                >::empty()
                            } else {
                                final(self).inodes@ == e0.inodes@
                            }
                        } else {
                            &&& fcreat
                            &&& final(self).handles@.last() == (Handle {
                                ino: e0.inodes@.len() as usize,
                                open: true,
                                readable: rd,
                                writable: wr,
                                append: fappend,
                            })
                            &&& final(self).inodes@.len() == e0.inodes@.len() + 1
                            &&& forall|k: int|
                                0 <= k < e0.inodes@.len() ==> final(self).inodes@[k]
                                    == e0.inodes@[k]
                            &&& final(self).inodes@.last().data@ == Seq::<u8>::empty()
                            &&& final(self).inodes@.last().alloc@ == Seq::<bool>::empty()
                            &&& final(self).entries@.len() == e0.entries@.len() + 1
                            &&& forall|k: int|
                                0 <= k < e0.entries@.len() ==> final(self).entries@[k]
                                    == e0.entries@[k]
                            &&& final(self).entries@.last().name@ == name@
                            &&& final(self).entries@.last().ino == e0.inodes@.len()
                        }
                    },
                }
            }),
    {
        let acc: i32 = flags & 3;
        if acc == 3 {
            return Err(OsError::InvalidInput);
        }
        if self.handles.len() >= MAX_OPEN_FILES {
            return Err(OsError::TooManyOpenFiles);
        }
        let fcreat: bool = flags & 64 != 0;
        let fexcl: bool = flags & 128 != 0;
        let ftrunc: bool = flags & 512 != 0;
        let fappend: bool = flags & 1024 != 0;
        let rd: bool = acc == 0 || acc == 2;
        let wr: bool = acc == 1 || acc == 2;
        match self.lookup(name) {
            Some(i) => {
                if fcreat && fexcl {
                    return Err(OsError::AlreadyExists);
                }
                proof {
                    self.lemma_entry_index_agrees(name@, i as int);
                }
                let ino: usize = self.entries[i].ino;
                if ftrunc {
                    self.set_inode(ino, Inode { data: Vec::new(), alloc: Vec::new() });
                }
                let fd: usize = self.handles.len();
                self.handles.push(
                    Handle { ino, open: true, readable: rd, writable: wr, append: fappend },
                );
                Ok(fd as i32)
            },
            None => {
                if !fcreat {
                    return Err(OsError::NotFound);
                }
                let ino: usize = self.inodes.len();
                self.inodes.push(Inode { data: Vec::new(), alloc: Vec::new() });
                self.entries.push(DirEntry { name: copy_bytes(name), ino });
                proof {
                    assert forall|i: int, j: int|
                        0 <= i < self.entries@.len() && 0 <= j < self.entries@.len() && i != j
                        implies (#[trigger] self.entries@[i]).name@ != (
                    #[trigger] self.entries@[j]).name@ by {
                        if i == self.entries@.len() - 1 {
                            assert(old(self).has_name(self.entries@[j].name@)
                                ==> self.entries@[i].name@ != self.entries@[j].name@);
                        } else if j == self.entries@.len() - 1 {
                            assert(old(self).has_name(self.entries@[i].name@)
                                ==> self.entries@[i].name@ != self.entries@[j].name@);
                        }
                    }
                }
                let fd: usize = self.handles.len();
                self.handles.push(
                    Handle { ino, open: true, readable: rd, writable: wr, append: fappend },
                );
                Ok(fd as i32)
            },
        }
    }

    /// Binds a second name to the inode an existing name points at, as the
    /// OS `link` call would; stands in for link creation done around the
    /// engine in tests and demonstrations.
    pub fn hard_link(&mut self, existing: &Vec<u8>, new_name: &Vec<u8>) -> (r: Result<
        (),
        OsError,
    >)
        requires
            old(self).wf(),
        ensures
            final(self).wf(),
            match r {
                Err(c) => *final(self) == *old(self) && ((!old(self).has_name(existing@) && c
                    == OsError::NotFound) || (old(self).has_name(existing@) && old(
                    self,
                ).has_name(new_name@) && c == OsError::AlreadyExists)),
                Ok(u) => {
                    &&& old(self).has_name(existing@)
                    &&& !old(self).has_name(new_name@)
                    &&& final(self).entries@.len() == old(self).entries@.len() + 1
                    &&& forall|k: int|
                        0 <= k < old(self).entries@.len() ==> final(self).entries@[k] == old(
                            self,
                        ).entries@[k]
                    &&& final(self).entries@.last().name@ == new_name@
                    &&& final(self).entries@.last().ino == old(self).ino_at(existing@)
                    &&& final(self).inodes@ == old(self).inodes@
                    &&& final(self).handles@ == old(self).handles@
                    &&& final(self).alive == old(self).alive
                    &&& final(self).dev == old(self).dev
                    &&& final(self).cluster == old(self).cluster
                },
            },
    {
        let src = match self.lookup(existing) {
            Some(i) => i,
            None => {
                return Err(OsError::NotFound);
            },
        };
        if self.path_exists(new_name) {
            return Err(OsError::AlreadyExists);
        }
        proof {
            self.lemma_entry_index_agrees(existing@, src as int);
        }
        let ino: usize = self.entries[src].ino;
        self.entries.push(DirEntry { name: copy_bytes(new_name), ino });
        proof {
            assert forall|i: int, j: int|
                0 <= i < self.entries@.len() && 0 <= j < self.entries@.len() && i != j implies (
            #[trigger] self.entries@[i]).name@ != (#[trigger] self.entries@[j]).name@ by {
                if i == self.entries@.len() - 1 {
                    assert(old(self).has_name(self.entries@[j].name@) ==> self.entries@[i].name@
                        != self.entries@[j].name@);
                } else if j == self.entries@.len() - 1 {
                    assert(old(self).has_name(self.entries@[i].name@) ==> self.entries@[i].name@
                        != self.entries@[j].name@);
                }
            }
        }
        Ok(())
    }
}

} // verus!
