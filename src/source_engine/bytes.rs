//! Little-endian fields read at a byte position, and fixed-size records.
use vstd::prelude::*;
use vstd::array::{spec_array_fill_for_copy_type, spec_array_update};
use super::ModelLoadError;

verus! {

/// The unsigned value of the two bytes at `p`, least significant first.
pub open spec fn le_u16(b: Seq<u8>, p: int) -> int {
    b[p] + 256 * b[p + 1]
}

/// The unsigned value of the four bytes at `p`, least significant first.
pub open spec fn le_u32(b: Seq<u8>, p: int) -> int {
    b[p] + 256 * b[p + 1] + 65536 * b[p + 2] + 16777216 * b[p + 3]
}

/// The two's-complement reading of a 16-bit unsigned value.
pub open spec fn signed16(u: int) -> int {
    if u < 32768 { u } else { u - 65536 }
}

/// The two's-complement reading of a 32-bit unsigned value.
pub open spec fn signed32(u: int) -> int {
    if u < 2147483648 { u } else { u - 4294967296 }
}

pub open spec fn spec_u8(b: Seq<u8>, p: int) -> u8 {
    b[p]
}

pub open spec fn spec_u16(b: Seq<u8>, p: int) -> u16 {
    le_u16(b, p) as u16
}

pub open spec fn spec_i16(b: Seq<u8>, p: int) -> i16 {
    signed16(le_u16(b, p)) as i16
}

pub open spec fn spec_u32(b: Seq<u8>, p: int) -> u32 {
    le_u32(b, p) as u32
}

pub open spec fn spec_i32(b: Seq<u8>, p: int) -> i32 {
    signed32(le_u32(b, p)) as i32
}

pub fn read_u8(b: &[u8], p: usize) -> (r: u8)
    requires
        p < b@.len(),
    ensures
        r == spec_u8(b@, p as int),
{
    b[p]
}

pub fn read_u16(b: &[u8], p: usize) -> (r: u16)
    requires
        p + 2 <= b.len(),
    ensures
        r == spec_u16(b@, p as int),
        r as int == le_u16(b@, p as int),
{
    let lo = b[p] as u16;
    let hi = b[p + 1] as u16;
    lo + 256 * hi
}

pub fn read_i16(b: &[u8], p: usize) -> (r: i16)
    requires
        p + 2 <= b.len(),
    ensures
        r == spec_i16(b@, p as int),
{
    let u = read_u16(b, p);
    if u < 32768 {
        u as i16
    } else {
        ((u - 32768) as i16) - 32767 - 1
    }
}

pub fn read_u32(b: &[u8], p: usize) -> (r: u32)
    requires
        p + 4 <= b.len(),
    ensures
        r == spec_u32(b@, p as int),
        r as int == le_u32(b@, p as int),
{
    let b0 = b[p] as u32;
    let b1 = b[p + 1] as u32;
    let b2 = b[p + 2] as u32;
    let b3 = b[p + 3] as u32;
    b0 + 256 * b1 + 65536 * b2 + 16777216 * b3
}

pub fn read_i32(b: &[u8], p: usize) -> (r: i32)
    requires
        p + 4 <= b.len(),
    ensures
        r == spec_i32(b@, p as int),
{
    let u = read_u32(b, p);
    if u < 2147483648 {
        u as i32
    } else {
        ((u - 2147483648) as i32) - 2147483647 - 1
    }
}

/// The array of three values, in order.
pub open spec fn arr3<T: Copy>(x0: T, x1: T, x2: T) -> [T; 3] {
    spec_array_update(spec_array_update(spec_array_fill_for_copy_type::<T, 3>(x0), 1, x1), 2, x2)
}

/// The array of eight values, in order.
pub open spec fn arr8<T: Copy>(x0: T, x1: T, x2: T, x3: T, x4: T, x5: T, x6: T, x7: T) -> [T; 8] {
    let a = spec_array_fill_for_copy_type::<T, 8>(x0);
    let a = spec_array_update(a, 1, x1);
    let a = spec_array_update(a, 2, x2);
    let a = spec_array_update(a, 3, x3);
    let a = spec_array_update(a, 4, x4);
    let a = spec_array_update(a, 5, x5);
    let a = spec_array_update(a, 6, x6);
    spec_array_update(a, 7, x7)
}

pub open spec fn spec_u8x3(b: Seq<u8>, p: int) -> [u8; 3] {
    arr3(spec_u8(b, p), spec_u8(b, p + 1), spec_u8(b, p + 2))
}

pub open spec fn spec_u32x3(b: Seq<u8>, p: int) -> [u32; 3] {
    arr3(spec_u32(b, p), spec_u32(b, p + 4), spec_u32(b, p + 8))
}

pub open spec fn spec_i32x8(b: Seq<u8>, p: int) -> [i32; 8] {
    arr8(
        spec_i32(b, p),
        spec_i32(b, p + 4),
        spec_i32(b, p + 8),
        spec_i32(b, p + 12),
        spec_i32(b, p + 16),
        spec_i32(b, p + 20),
        spec_i32(b, p + 24),
        spec_i32(b, p + 28),
    )
}

pub fn read_u8x3(b: &[u8], p: usize) -> (r: [u8; 3])
    requires
        p + 3 <= b.len(),
    ensures
        r == spec_u8x3(b@, p as int),
{
    let r = [b[p], b[p + 1], b[p + 2]];
    assert(r@ =~= spec_u8x3(b@, p as int)@);
    r
}

pub fn read_u32x3(b: &[u8], p: usize) -> (r: [u32; 3])
    requires
        p + 12 <= b.len(),
    ensures
        r == spec_u32x3(b@, p as int),
{
    let r = [read_u32(b, p), read_u32(b, p + 4), read_u32(b, p + 8)];
    assert(r@ =~= spec_u32x3(b@, p as int)@);
    r
}

pub fn read_i32x8(b: &[u8], p: usize) -> (r: [i32; 8])
    requires
        p + 32 <= b.len(),
    ensures
        r == spec_i32x8(b@, p as int),
{
    let r = [
        read_i32(b, p),
        read_i32(b, p + 4),
        read_i32(b, p + 8),
        read_i32(b, p + 12),
        read_i32(b, p + 16),
        read_i32(b, p + 20),
        read_i32(b, p + 24),
        read_i32(b, p + 28),
    ];
    assert(r@ =~= spec_i32x8(b@, p as int)@);
    r
}

/// A record of fixed width, read field by field from little-endian bytes.
pub trait Record: Sized + Copy {
    /// The record's width in bytes.
    spec fn spec_width() -> nat;

    /// The record whose first byte stands at `p`.
    spec fn spec_decode(b: Seq<u8>, p: int) -> Self;

    fn width() -> (r: usize)
        ensures
            r == Self::spec_width(),
            r > 0,
    ;

    fn decode_at(b: &[u8], p: usize) -> (r: Self)
        requires
            p + Self::spec_width() <= b.len(),
        ensures
            r == Self::spec_decode(b@, p as int),
    ;
}

/// Whether a record of type `R` at `p` lies wholly inside `b`.
pub open spec fn record_fits<R: Record>(b: Seq<u8>, p: int) -> bool {
    0 <= p && p + R::spec_width() <= b.len()
}

/// Reads one record at a byte position, failing when it runs past the end.
pub fn decode_record<R: Record>(b: &[u8], p: usize) -> (r: Result<R, ModelLoadError>)
    ensures
        record_fits::<R>(b@, p as int) ==> r == Ok::<R, ModelLoadError>(R::spec_decode(b@, p as int)),
        !record_fits::<R>(b@, p as int) ==> r == Err::<R, ModelLoadError>(ModelLoadError::TruncatedBuffer),
{
    let w = R::width();
    if p <= b.len() && w <= b.len() - p {
        Ok(R::decode_at(b, p))
    } else {
        Err(ModelLoadError::TruncatedBuffer)
    }
}

/// The `count` consecutive records that start at `start`: none when the
/// count is zero, and nothing when the count is negative or the records do
/// not all lie inside `b`.
pub open spec fn spec_array<R: Record>(b: Seq<u8>, start: int, count: int) -> Option<Seq<R>> {
    if count < 0 {
        None
    } else if count == 0 {
        Some(Seq::empty())
    } else if 0 <= start && start + count * R::spec_width() <= b.len() {
        Some(Seq::new(count as nat, |i: int| R::spec_decode(b, start + i * R::spec_width())))
    } else {
        None
    }
}

/// The absolute position that lies `off` bytes from `base`, where it can be
/// an index.
pub fn offset_from(base: usize, off: i32) -> (r: Option<usize>)
    ensures
        r is Some <==> 0 <= base + off <= usize::MAX,
        r is Some ==> r->Some_0 == base + off,
{
    base.checked_add_signed(off as isize)
}

/// Reads the `count` consecutive records that start `off` bytes from `base`.
pub fn decode_array<R: Record>(b: &[u8], base: usize, off: i32, count: i32) -> (r: Result<Vec<R>, ModelLoadError>)
    ensures
        spec_array::<R>(b@, base + off, count as int) is Some <==> r is Ok,
        r is Ok ==> r->Ok_0@ == spec_array::<R>(b@, base + off, count as int)->Some_0,
        r is Err ==> r->Err_0 == ModelLoadError::TruncatedBuffer,
{
    let mut out: Vec<R> = Vec::new();
    if count < 0 {
        return Err(ModelLoadError::TruncatedBuffer);
    }
    if count == 0 {
        return Ok(out);
    }
    let len = b.len();
    let start = match offset_from(base, off) {
        Some(s) => s,
        None => return Err(ModelLoadError::TruncatedBuffer),
    };
    let w = R::width();
    let n = count as usize;
    if start > b.len() || n > (b.len() - start) / w {
        proof {
            if start <= b@.len() {
                let rem = b@.len() - start;
                assert(n * w > rem) by (nonlinear_arith)
                    requires n > rem / (w as int), w > 0, rem >= 0;
            }
        }
        return Err(ModelLoadError::TruncatedBuffer);
    }
    proof {
        let rem = b@.len() - start;
        assert(n * w <= rem) by (nonlinear_arith)
            requires n <= rem / (w as int), w > 0, rem >= 0;
    }
    let ghost all = Seq::new(n as nat, |i: int| R::spec_decode(b@, start + i * R::spec_width()));
    let mut i: usize = 0;
    let mut p: usize = start;
    while i < n
        invariant
            i <= n,
            w == R::spec_width(),
            w > 0,
            b@.len() == len,
            start + n * w <= b.len(),
            p == start + i * w,
            all == Seq::new(n as nat, |k: int| R::spec_decode(b@, start + k * R::spec_width())),
            out@ == all.subrange(0, i as int),
        decreases n - i,
    {
        proof {
            assert(p + w <= start + n * w) by (nonlinear_arith)
                requires p == start + i * w, i < n, w > 0;
        }
        let rec = R::decode_at(b, p);
        out.push(rec);
        proof {
            assert(out@ =~= all.subrange(0, i + 1));
        }
        p = p + w;
        i = i + 1;
        proof {
            assert(p == start + i * w) by (nonlinear_arith)
                requires p == start + (i - 1) * w + w;
        }
    }
    proof {
        assert(out@ =~= all);
    }
    Ok(out)
}

} // verus!
