//! Byte-level semantics of buffered file content: what a write, a zero-fill,
//! a resize and a windowed read do to the logical bytes of a file.

use vstd::prelude::*;

verus! {

/// Logical content after writing `buf` at byte offset `pos`: the file grows
/// just enough to cover the write, any gap between the old end and `pos`
/// reads as zero, bytes outside the written range keep their old value,
/// and a zero-length write changes nothing.
pub open spec fn spec_write(data: Seq<u8>, pos: int, buf: Seq<u8>) -> Seq<u8> {
    if buf.len() == 0 {
        data
    } else {
        Seq::new(
            vstd::math::max(data.len() as int, pos + buf.len()) as nat,
            |i: int| if pos <= i < pos + buf.len() {
                buf[i - pos]
            } else if i < data.len() {
                data[i]
            } else {
                0u8
            },
        )
    }
}

/// The window a buffered read at `pos` for up to `size` bytes returns:
/// only bytes inside the file, so it is empty at or past end-of-file and
/// shorter than `size` at the end-of-file boundary.
pub open spec fn spec_read(data: Seq<u8>, pos: int, size: int) -> Seq<u8>
    recommends
        0 <= pos,
        0 <= size,
{
    data.subrange(
        vstd::math::min(pos, data.len() as int),
        vstd::math::min(pos + size, data.len() as int),
    )
}

/// Content after zero-filling the byte range `[lo, hi)`, clipped to the file:
/// the length never changes.
pub open spec fn spec_zero(data: Seq<u8>, lo: int, hi: int) -> Seq<u8> {
    Seq::new(data.len(), |i: int| if lo <= i < hi { 0u8 } else { data[i] })
}

/// Content after setting the file length to `n`: a longer file gains zero
/// bytes at the end, a shorter one is cut.
pub open spec fn spec_resize(data: Seq<u8>, n: int) -> Seq<u8>
    recommends
        0 <= n,
{
    Seq::new(n as nat, |i: int| if i < data.len() { data[i] } else { 0u8 })
}

pub fn copy_bytes(v: &Vec<u8>) -> (r: Vec<u8>)
    ensures
        r@ == v@,
{
    let mut out: Vec<u8> = Vec::new();
    let mut i: usize = 0;
    while i < v.len()
        invariant
            i <= v.len(),
            out@ == v@.take(i as int),
        decreases v.len() - i,
    {
        out.push(v[i]);
        proof {
            assert(v@.take(i + 1 as int) =~= v@.take(i as int).push(v@[i as int]));
        }
        i = i + 1;
    }
    proof {
        assert(v@.take(v@.len() as int) =~= v@);
    }
    out
}

pub fn bytes_eq(a: &Vec<u8>, b: &Vec<u8>) -> (r: bool)
    ensures
        r == (a@ == b@),
{
    if a.len() != b.len() {
        return false;
    }
    let mut i: usize = 0;
    while i < a.len()
        invariant
            i <= a.len(),
            a@.len() == b@.len(),
            forall|k: int| 0 <= k < i ==> a@[k] == b@[k],
        decreases a.len() - i,
    {
        if a[i] != b[i] {
            return false;
        }
        i = i + 1;
    }
    proof {
        assert(a@ =~= b@);
    }
    true
}

pub fn apply_write(data: &Vec<u8>, pos: usize, buf: &Vec<u8>) -> (r: Vec<u8>)
    requires
        pos + buf@.len() <= usize::MAX,
    ensures
        r@ == spec_write(data@, pos as int, buf@),
{
    if buf.len() == 0 {
        return copy_bytes(data);
    }
    let end: usize = pos + buf.len();
    let newlen: usize = if data.len() >= end { data.len() } else { end };
    let ghost target = spec_write(data@, pos as int, buf@);
    let mut out: Vec<u8> = Vec::new();
    let mut i: usize = 0;
    while i < newlen
        invariant
            i <= newlen,
            end == pos + buf@.len(),
            newlen == vstd::math::max(data@.len() as int, pos + buf@.len()),
            buf@.len() > 0,
            target == spec_write(data@, pos as int, buf@),
            out@ == target.take(i as int),
        decreases newlen - i,
    {
        let byte: u8 = if i >= pos && i < end {
            buf[i - pos]
        } else if i < data.len() {
            data[i]
        } else {
            0
        };
        out.push(byte);
        proof {
            assert(target.take(i + 1 as int) =~= target.take(i as int).push(target[i as int]));
        }
        i = i + 1;
    }
    proof {
        assert(target.take(newlen as int) =~= target);
    }
    out
}

pub fn zero_range_vec(data: &Vec<u8>, lo: usize, hi: usize) -> (r: Vec<u8>)
    ensures
        r@ == spec_zero(data@, lo as int, hi as int),
{
    let ghost target = spec_zero(data@, lo as int, hi as int);
    let mut out: Vec<u8> = Vec::new();
    let mut i: usize = 0;
    while i < data.len()
        invariant
            i <= data.len(),
            target == spec_zero(data@, lo as int, hi as int),
            out@ == target.take(i as int),
        decreases data.len() - i,
    {
        let byte: u8 = if i >= lo && i < hi { 0 } else { data[i] };
        out.push(byte);
        proof {
            assert(target.take(i + 1 as int) =~= target.take(i as int).push(target[i as int]));
        }
        i = i + 1;
    }
    proof {
        assert(target.take(data@.len() as int) =~= target);
    }
    out
}

pub fn resize_zeros(data: &Vec<u8>, n: usize) -> (r: Vec<u8>)
    ensures
        r@ == spec_resize(data@, n as int),
{
    let ghost target = spec_resize(data@, n as int);
    let mut out: Vec<u8> = Vec::new();
    let mut i: usize = 0;
    while i < n
        invariant
            i <= n,
            target == spec_resize(data@, n as int),
            out@ == target.take(i as int),
        decreases n - i,
    {
        let byte: u8 = if i < data.len() { data[i] } else { 0 };
        out.push(byte);
        proof {
            assert(target.take(i + 1 as int) =~= target.take(i as int).push(target[i as int]));
        }
        i = i + 1;
    }
    proof {
        assert(target.take(n as int) =~= target);
    }
    out
}

pub fn read_window_vec(data: &Vec<u8>, pos: u64, size: usize) -> (r: Vec<u8>)
    ensures
        r@ == spec_read(data@, pos as int, size as int),
{
    if pos >= data.len() as u64 {
        let out: Vec<u8> = Vec::new();
        proof {
            assert(spec_read(data@, pos as int, size as int) =~= Seq::<u8>::empty());
        }
        return out;
    }
    let start: usize = pos as usize;
    let end: usize = if data.len() - start < size { data.len() } else { start + size };
    let ghost target = spec_read(data@, pos as int, size as int);
    let mut out: Vec<u8> = Vec::new();
    let mut i: usize = start;
    while i < end
        invariant
            start <= i <= end <= data@.len(),
            start == pos as int,
            end == vstd::math::min(pos as int + size as int, data@.len() as int),
            target == spec_read(data@, pos as int, size as int),
            target == data@.subrange(start as int, end as int),
            out@ == data@.subrange(start as int, i as int),
        decreases end - i,
    {
        out.push(data[i]);
        proof {
            assert(data@.subrange(start as int, i + 1 as int) =~= data@.subrange(
                start as int,
                i as int,
            ).push(data@[i as int]));
        }
        i = i + 1;
    }
    out
}

} // verus!
