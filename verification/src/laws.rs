//! The caller-visible laws of the facade, proved once and for all over the
//! spec-level models that the operation contracts are stated in.

use vstd::prelude::*;

use crate::buffered_file::BufferedFile;
use crate::bytes::{spec_read, spec_write, spec_zero};
use crate::cluster::{alloc_after_punch, alloc_after_write, count_true, covered, touches};
use crate::engine::Engine;

verus! {

/// Identity law: two handles with equal (device, inode) are the same file,
/// symmetrically — descriptor values play no role. This is what makes
/// independent opens of one path, and opens of two hard-linked paths,
/// compare as the same file.
pub proof fn lemma_equal_identity_is_same(a: BufferedFile, b: BufferedFile)
    requires
        a.dev == b.dev,
        a.ino == b.ino,
    ensures
        a.spec_is_same(b),
        b.spec_is_same(a),
{
}

/// Identity law: handles whose device or inode differ are never the same
/// file. A handle carrying a symlink's own identity therefore compares
/// unequal to a handle on the link's target.
pub proof fn lemma_distinct_identity_not_same(a: BufferedFile, b: BufferedFile)
    requires
        a.dev != b.dev || a.ino != b.ino,
    ensures
        !a.spec_is_same(b),
{
}

/// Two opens of one path are the same file, even across engine states
/// whose namespaces agree (as they do after opens, reads, writes and
/// closes, none of which touch the namespace).
pub proof fn lemma_same_path_same_file(
    e1: Engine,
    e2: Engine,
    p: Seq<u8>,
    a: BufferedFile,
    b: BufferedFile,
)
    requires
        e1.wf(),
        e2.wf(),
        e1.entries@ == e2.entries@,
        e1.dev == e2.dev,
        e1.has_name(p),
        a.dev == e1.dev,
        a.ino == e1.ino_at(p),
        b.dev == e2.dev,
        b.ino == e2.ino_at(p),
    ensures
        a.spec_is_same(b),
{
    let k = e1.entry_index(p);
    assert(e2.entries@[k].name@ == p);
    e2.lemma_entry_index_agrees(p, k);
}

/// After a second name was bound to an existing file — the shape in which
/// `hard_link` leaves the namespace — both names resolve to one inode, so
/// handles opened through either are the same file.
pub proof fn lemma_link_binds_same_inode(e0: Engine, e1: Engine, p1: Seq<u8>, p2: Seq<u8>)
    requires
        e0.wf(),
        e1.wf(),
        e0.has_name(p1),
        e1.entries@.len() == e0.entries@.len() + 1,
        forall|k: int| 0 <= k < e0.entries@.len() ==> e1.entries@[k] == e0.entries@[k],
        e1.entries@.last().name@ == p2,
        e1.entries@.last().ino == e0.ino_at(p1),
    ensures
        e1.has_name(p1),
        e1.has_name(p2),
        e1.ino_at(p1) == e1.ino_at(p2),
{
    let k1 = e0.entry_index(p1);
    assert(e1.entries@[k1].name@ == p1);
    e1.lemma_entry_index_agrees(p1, k1);
    e1.lemma_entry_index_agrees(p2, e1.entries@.len() as int - 1);
}

/// Round trip: writing `buf` at `pos` and then reading `buf.len()` bytes
/// back at `pos` returns bytes identical to `buf`.
pub proof fn lemma_write_read_round_trip(data: Seq<u8>, pos: int, buf: Seq<u8>)
    requires
        0 <= pos,
    ensures
        spec_read(spec_write(data, pos, buf), pos, buf.len() as int) == buf,
{
    if buf.len() == 0 {
        assert(spec_read(spec_write(data, pos, buf), pos, 0) =~= buf);
    } else {
        let w = spec_write(data, pos, buf);
        assert(w.len() >= pos + buf.len());
        assert(spec_read(w, pos, buf.len() as int) =~= buf);
    }
}

/// On an empty file every read returns a zero-length window, whatever
/// offset and length were requested.
pub proof fn lemma_read_empty_file(pos: int, size: int)
    requires
        0 <= pos,
        0 <= size,
    ensures
        spec_read(Seq::<u8>::empty(), pos, size).len() == 0,
{
}

/// Writing `buf.len() > 0` bytes at an offset at or past end-of-file grows
/// the file to exactly `pos + buf.len()`, and the sparse gap between the
/// old end and the write reads as zero.
pub proof fn lemma_write_past_end_grows(data: Seq<u8>, pos: int, buf: Seq<u8>)
    requires
        data.len() <= pos,
        0 < buf.len(),
    ensures
        spec_write(data, pos, buf).len() == pos + buf.len(),
        forall|i: int| data.len() <= i < pos ==> spec_write(data, pos, buf)[i] == 0u8,
{
}

/// Counting helper: when `b` holds everywhere `a` does, the extra
/// positions are exactly counted by the pointwise difference.
pub proof fn lemma_count_split(a: Seq<bool>, b: Seq<bool>)
    requires
        a.len() == b.len(),
        forall|j: int| 0 <= j < a.len() ==> ((#[trigger] a[j]) ==> b[j]),
    ensures
        count_true(b) == count_true(a) + count_true(
            Seq::new(b.len(), |j: int| b[j] && !a[j]),
        ),
    decreases a.len(),
{
    let fresh = Seq::new(b.len(), |j: int| b[j] && !a[j]);
    if a.len() == 0 {
        assert(fresh =~= Seq::<bool>::empty());
    } else {
        let a1 = a.drop_last();
        let b1 = b.drop_last();
        assert(forall|j: int| 0 <= j < a1.len() ==> ((#[trigger] a1[j]) ==> b1[j]));
        lemma_count_split(a1, b1);
        let fresh1 = Seq::new(b1.len(), |j: int| b1[j] && !a1[j]);
        assert(fresh.drop_last() =~= fresh1);
        assert(fresh.last() == (b.last() && !a.last()));
        assert(a.last() ==> b.last());
    }
}

/// Padding an allocation map with unallocated clusters does not change how
/// many are in use.
pub proof fn lemma_count_pad(s: Seq<bool>, n: int)
    requires
        s.len() <= n,
    ensures
        count_true(Seq::new(n as nat, |j: int| j < s.len() && s[j])) == count_true(s),
    decreases n,
{
    let padded = Seq::new(n as nat, |j: int| j < s.len() && s[j]);
    if n == s.len() {
        assert(padded =~= s);
    } else {
        lemma_count_pad(s, n - 1);
        assert(padded.drop_last() =~= Seq::new((n - 1) as nat, |j: int| j < s.len() && s[j]));
        assert(!padded.last());
    }
}

/// A write allocates exactly one whole cluster for every cluster it
/// dirties that was not allocated before, and deallocates nothing: the
/// allocated count grows by the number of freshly dirtied clusters.
pub proof fn lemma_write_allocates_only_dirtied(
    alloc: Seq<bool>,
    c: int,
    lo: int,
    hi: int,
    newlen: int,
)
    requires
        1 <= c,
        0 <= lo < hi <= newlen,
    ensures
        ({
            let after = alloc_after_write(alloc, c, lo, hi, newlen);
            let fresh = Seq::new(
                after.len(),
                |j: int| touches(j, c, lo, hi) && !(j < alloc.len() && alloc[j]),
            );
            count_true(after) == count_true(alloc) + count_true(fresh)
        }),
{
    let after = alloc_after_write(alloc, c, lo, hi, newlen);
    let ext = Seq::new(after.len(), |j: int| j < alloc.len() && alloc[j]);
    lemma_count_pad(alloc, after.len() as int);
    lemma_count_split(ext, after);
    let d1 = Seq::new(after.len(), |j: int| after[j] && !ext[j]);
    let fresh = Seq::new(
        after.len(),
        |j: int| touches(j, c, lo, hi) && !(j < alloc.len() && alloc[j]),
    );
    assert(d1 =~= fresh);
}

/// Punching a hole leaves the file size untouched, makes the whole range
/// read as zero, and releases exactly the allocated clusters fully covered
/// by the range: the allocated count drops by their number.
pub proof fn lemma_punch_hole(data: Seq<u8>, alloc: Seq<bool>, c: int, lo: int, hi: int)
    requires
        1 <= c,
        0 <= lo <= hi,
    ensures
        spec_zero(data, lo, hi).len() == data.len(),
        forall|i: int| lo <= i < hi && 0 <= i < data.len() ==> spec_zero(data, lo, hi)[i] == 0u8,
        count_true(alloc) == count_true(alloc_after_punch(alloc, c, lo, hi)) + count_true(
            Seq::new(alloc.len(), |j: int| alloc[j] && covered(j, c, lo, hi)),
        ),
{
    let after = alloc_after_punch(alloc, c, lo, hi);
    lemma_count_split(after, alloc);
    let d1 = Seq::new(alloc.len(), |j: int| alloc[j] && !after[j]);
    assert(d1 =~= Seq::new(alloc.len(), |j: int| alloc[j] && covered(j, c, lo, hi)));
}

/// A name created earlier still resolves in any later namespace that
/// agrees with the one the create left behind — closing a descriptor, in
/// particular, never touches the namespace, so `create`, then `close`,
/// then `open` of the same path succeeds by `open`'s contract.
pub proof fn lemma_created_name_survives(e1: Engine, e2: Engine, p: Seq<u8>)
    requires
        e1.has_name(p),
        e2.entries@ == e1.entries@,
    ensures
        e2.has_name(p),
{
    let k = e1.entry_index(p);
    assert(e2.entries@[k].name@ == p);
}

} // verus!
