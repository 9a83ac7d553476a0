//! Filesystem-cluster accounting: which clusters a byte range touches or
//! fully covers, how many clusters a file length needs, and how the
//! per-cluster allocation map evolves under writes, hole punching,
//! reservation and truncation.

use vstd::prelude::*;

verus! {

/// Cluster `j` (bytes `[j*c, j*c + c)`) intersects the byte range `[lo, hi)`.
pub open spec fn touches(j: int, c: int, lo: int, hi: int) -> bool {
    j * c < hi && lo < j * c + c
}

/// Cluster `j` lies entirely inside the byte range `[lo, hi)`.
pub open spec fn covered(j: int, c: int, lo: int, hi: int) -> bool {
    lo <= j * c && j * c + c <= hi
}

/// Number of clusters of size `c` needed to hold `len` bytes.
pub open spec fn clusters_for(len: int, c: int) -> int
    recommends
        c >= 1,
{
    (len + c - 1) / c
}

/// How many clusters of an allocation map are in use.
pub open spec fn count_true(s: Seq<bool>) -> int
    decreases s.len(),
{
    if s.len() == 0 {
        0
    } else {
        count_true(s.drop_last()) + if s.last() { 1int } else { 0int }
    }
}

pub proof fn lemma_count_true_take_step(s: Seq<bool>, i: int)
    requires
        0 <= i < s.len(),
    ensures
        count_true(s.take(i + 1)) == count_true(s.take(i)) + if s[i] { 1int } else { 0int },
{
    assert(s.take(i + 1).drop_last() =~= s.take(i));
    assert(s.take(i + 1).last() == s[i]);
}

pub proof fn lemma_count_true_bounds(s: Seq<bool>)
    ensures
        0 <= count_true(s) <= s.len(),
    decreases s.len(),
{
    if s.len() > 0 {
        lemma_count_true_bounds(s.drop_last());
    }
}

/// Allocation map after a write dirtying bytes `[lo, hi)` of a file whose
/// new length is `newlen`: the map grows to cover the file, clusters the
/// write touches become allocated, all others keep their state.
pub open spec fn alloc_after_write(alloc: Seq<bool>, c: int, lo: int, hi: int, newlen: int) -> Seq<
    bool,
> {
    Seq::new(
        vstd::math::max(alloc.len() as int, clusters_for(newlen, c)) as nat,
        |j: int| (j < alloc.len() && alloc[j]) || touches(j, c, lo, hi),
    )
}

/// Allocation map after punching a hole over bytes `[lo, hi)`: clusters
/// fully covered by the range are unmapped, partially covered ones stay.
pub open spec fn alloc_after_punch(alloc: Seq<bool>, c: int, lo: int, hi: int) -> Seq<bool> {
    Seq::new(alloc.len(), |j: int| alloc[j] && !covered(j, c, lo, hi))
}

/// Allocation map after reserving storage for the first `size` bytes:
/// every cluster needed for them is allocated, the rest keep their state.
pub open spec fn alloc_after_reserve(alloc: Seq<bool>, c: int, size: int) -> Seq<bool> {
    Seq::new(
        vstd::math::max(alloc.len() as int, clusters_for(size, c)) as nat,
        |j: int| (j < alloc.len() && alloc[j]) || j < clusters_for(size, c),
    )
}

/// Allocation map after setting the file length to `newlen`: clusters past
/// the new end are released, clusters a grown file gains start sparse.
pub open spec fn alloc_after_resize(alloc: Seq<bool>, c: int, newlen: int) -> Seq<bool>
    recommends
        c >= 1,
        newlen >= 0,
{
    Seq::new(
        clusters_for(newlen, c) as nat,
        |j: int| j < alloc.len() && alloc[j],
    )
}

pub fn clusters_for_exec(len: u64, c: u64) -> (r: u64)
    requires
        1 <= c,
        len + c <= u64::MAX,
    ensures
        r == clusters_for(len as int, c as int),
{
    (len + c - 1) / c
}

proof fn lemma_clusters_for_bound(len: int, c: int)
    requires
        1 <= c,
        0 <= len,
    ensures
        0 <= clusters_for(len, c),
        clusters_for(len, c) * c <= len + c,
        clusters_for(len, c) <= len,
{
    assert(0 <= (len + c - 1) / c && ((len + c - 1) / c) * c <= len + c - 1 && (len + c - 1) / c
        <= len) by (nonlinear_arith)
        requires
            1 <= c,
            0 <= len,
    ;
}

pub fn count_true_exec(s: &Vec<bool>) -> (r: u64)
    requires
        s@.len() <= u64::MAX,
    ensures
        r == count_true(s@),
        0 <= r <= s@.len(),
{
    let mut count: u64 = 0;
    let mut i: usize = 0;
    while i < s.len()
        invariant
            i <= s@.len() <= u64::MAX,
            count == count_true(s@.take(i as int)),
            count <= i,
        decreases s@.len() - i,
    {
        proof {
            lemma_count_true_take_step(s@, i as int);
        }
        if s[i] {
            count = count + 1;
        }
        i = i + 1;
    }
    proof {
        assert(s@.take(s@.len() as int) =~= s@);
    }
    count
}

/// Builds `alloc_after_write`; the byte range `[lo, hi)` must be non-empty
/// and lie inside the new file length.
pub fn mark_written(alloc: &Vec<bool>, c: u64, lo: u64, hi: u64, newlen: u64) -> (r: Vec<bool>)
    requires
        1 <= c <= 0x4000_0000,
        lo < hi <= newlen,
        newlen <= 0x4000_0000,
        alloc@.len() * c <= 0x8000_0000,
    ensures
        r@ == alloc_after_write(alloc@, c as int, lo as int, hi as int, newlen as int),
        r@.len() * c <= newlen + c || r@.len() == alloc@.len(),
{
    let needed: u64 = clusters_for_exec(newlen, c);
    proof {
        lemma_clusters_for_bound(newlen as int, c as int);
    }
    let n: u64 = if alloc.len() as u64 >= needed { alloc.len() as u64 } else { needed };
    let ghost target = alloc_after_write(alloc@, c as int, lo as int, hi as int, newlen as int);
    let mut out: Vec<bool> = Vec::new();
    let mut j: u64 = 0;
    while j < n
        invariant
            j <= n,
            n == vstd::math::max(alloc@.len() as int, clusters_for(newlen as int, c as int)),
            n * c <= 0x8000_0000,
            1 <= c <= 0x4000_0000,
            target == alloc_after_write(alloc@, c as int, lo as int, hi as int, newlen as int),
            out@ == target.take(j as int),
        decreases n - j,
    {
        proof {
            assert(j * c < n * c && (j + 1) * c <= n * c && n <= n * c) by (nonlinear_arith)
                requires
                    j < n,
                    1 <= c,
            ;
        }
        let base: u64 = j * c;
        let val: bool = ((j as usize) < alloc.len() && alloc[j as usize]) || (base < hi && lo < base
            + c);
        out.push(val);
        proof {
            assert(target.take(j + 1 as int) =~= target.take(j as int).push(target[j as int]));
        }
        j = j + 1;
    }
    proof {
        assert(target.take(n as int) =~= target);
        assert(clusters_for(newlen as int, c as int) * (c as int) <= newlen + c);
    }
    out
}

/// Builds `alloc_after_punch` for the byte range `[lo, hi)`.
pub fn punch_clusters(alloc: &Vec<bool>, c: u64, lo: u64, hi: u64) -> (r: Vec<bool>)
    requires
        1 <= c <= 0x4000_0000,
        alloc@.len() * c <= 0x8000_0000,
    ensures
        r@ == alloc_after_punch(alloc@, c as int, lo as int, hi as int),
{
    let ghost target = alloc_after_punch(alloc@, c as int, lo as int, hi as int);
    let mut out: Vec<bool> = Vec::new();
    let mut j: usize = 0;
    while j < alloc.len()
        invariant
            j <= alloc@.len(),
            alloc@.len() * c <= 0x8000_0000,
            1 <= c <= 0x4000_0000,
            target == alloc_after_punch(alloc@, c as int, lo as int, hi as int),
            out@ == target.take(j as int),
        decreases alloc@.len() - j,
    {
        proof {
            assert(j * c < alloc@.len() * c && (j + 1) * c <= alloc@.len() * c)
                by (nonlinear_arith)
                requires
                    j < alloc@.len(),
                    1 <= c,
            ;
        }
        let base: u64 = (j as u64) * c;
        let val: bool = alloc[j] && !(lo <= base && base + c <= hi);
        out.push(val);
        proof {
            assert(target.take(j + 1 as int) =~= target.take(j as int).push(target[j as int]));
        }
        j = j + 1;
    }
    proof {
        assert(target.take(alloc@.len() as int) =~= target);
    }
    out
}

/// Builds `alloc_after_reserve` for the first `size` bytes.
pub fn reserve_clusters(alloc: &Vec<bool>, c: u64, size: u64) -> (r: Vec<bool>)
    requires
        1 <= c <= 0x4000_0000,
        1 <= size <= 0x4000_0000,
        alloc@.len() * c <= 0x8000_0000,
    ensures
        r@ == alloc_after_reserve(alloc@, c as int, size as int),
        r@.len() * c <= size + c || r@.len() == alloc@.len(),
{
    let needed: u64 = clusters_for_exec(size, c);
    proof {
        lemma_clusters_for_bound(size as int, c as int);
    }
    let n: u64 = if alloc.len() as u64 >= needed { alloc.len() as u64 } else { needed };
    proof {
        assert(n * c <= 0x8000_0000);
    }
    let ghost target = alloc_after_reserve(alloc@, c as int, size as int);
    let mut out: Vec<bool> = Vec::new();
    let mut j: u64 = 0;
    while j < n
        invariant
            j <= n,
            n == vstd::math::max(alloc@.len() as int, clusters_for(size as int, c as int)),
            needed == clusters_for(size as int, c as int),
            n * c <= 0x8000_0000,
            1 <= c,
            target == alloc_after_reserve(alloc@, c as int, size as int),
            out@ == target.take(j as int),
        decreases n - j,
    {
        proof {
            assert(n <= n * c) by (nonlinear_arith)
                requires
                    1 <= c,
                    0 <= n,
            ;
        }
        let val: bool = ((j as usize) < alloc.len() && alloc[j as usize]) || j < needed;
        out.push(val);
        proof {
            assert(target.take(j + 1 as int) =~= target.take(j as int).push(target[j as int]));
        }
        j = j + 1;
    }
    proof {
        assert(target.take(n as int) =~= target);
    }
    out
}

/// Builds `alloc_after_resize` for new file length `newlen`.
pub fn resize_clusters(alloc: &Vec<bool>, c: u64, newlen: u64) -> (r: Vec<bool>)
    requires
        1 <= c <= 0x4000_0000,
        newlen <= 0x4000_0000,
    ensures
        r@ == alloc_after_resize(alloc@, c as int, newlen as int),
        r@.len() * c <= newlen + c,
{
    let n: u64 = clusters_for_exec(newlen, c);
    proof {
        lemma_clusters_for_bound(newlen as int, c as int);
    }
    let ghost target = alloc_after_resize(alloc@, c as int, newlen as int);
    let mut out: Vec<bool> = Vec::new();
    let mut j: u64 = 0;
    while j < n
        invariant
            j <= n,
            n == clusters_for(newlen as int, c as int),
            n <= 0x4000_0000,
            target == alloc_after_resize(alloc@, c as int, newlen as int),
            out@ == target.take(j as int),
        decreases n - j,
    {
        let val: bool = (j as usize) < alloc.len() && alloc[j as usize];
        out.push(val);
        proof {
            assert(target.take(j + 1 as int) =~= target.take(j as int).push(target[j as int]));
        }
        j = j + 1;
    }
    proof {
        assert(target.take(n as int) =~= target);
    }
    out
}

} // verus!
