//! Extended file metadata returned to callers, used both for diagnostics
//! and for the same-file identity check.

use vstd::prelude::*;

verus! {

/// A snapshot of a file's metadata: logical size, bytes of backing storage
/// actually allocated, the filesystem's cluster size, and the (device,
/// inode) pair that identifies the file.
#[derive(Clone, Copy, Debug, PartialEq, Eq, Structural)]
pub struct Stat {
    pub file_size: u64,
    pub allocated_file_size: u64,
    pub fs_cluster_size: u32,
    pub dev: u64,
    pub inode: u64,
}

} // verus!
