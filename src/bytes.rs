use vstd::prelude::*;

use byteorder::ByteOrder;

verus! {

/// Big-endian 16-bit value of `b[i]`, `b[i + 1]`.
pub open spec fn be16(b: Seq<u8>, i: int) -> u16 {
    (b[i] as int * 0x100 + b[i + 1] as int) as u16
}

/// Big-endian 32-bit value of `b[i]` to `b[i + 3]`.
pub open spec fn be32(b: Seq<u8>, i: int) -> u32 {
    (b[i] as int * 0x1000000 + b[i + 1] as int * 0x10000 + b[i + 2] as int * 0x100
        + b[i + 3] as int) as u32
}

/// Big-endian 64-bit value of `b[i]` to `b[i + 7]`.
pub open spec fn be64(b: Seq<u8>, i: int) -> u64 {
    (be32(b, i) as int * 0x1_0000_0000 + be32(b, i + 4) as int) as u64
}

/// The input ended before the value that was to be read.
#[derive(Debug, Clone, Copy, PartialEq, Eq, Structural)]
pub struct Truncated;

/// Relies on byteorder's `BigEndian::read_u16`: the first two bytes, most
/// significant first (it panics on fewer than two).
#[verifier::external_body]
fn big_endian_u16(buf: &[u8]) -> (r: u16)
    requires
        buf@.len() >= 2,
    ensures
        r == be16(buf@, 0),
{
    byteorder::BigEndian::read_u16(buf)
}

/// Relies on byteorder's `BigEndian::read_u32`: the first four bytes, most
/// significant first (it panics on fewer than four).
#[verifier::external_body]
fn big_endian_u32(buf: &[u8]) -> (r: u32)
    requires
        buf@.len() >= 4,
    ensures
        r == be32(buf@, 0),
{
    byteorder::BigEndian::read_u32(buf)
}

/// Relies on byteorder's `BigEndian::read_u64`: the first eight bytes, most
/// significant first (it panics on fewer than eight).
#[verifier::external_body]
fn big_endian_u64(buf: &[u8]) -> (r: u64)
    requires
        buf@.len() >= 8,
    ensures
        r == be64(buf@, 0),
{
    byteorder::BigEndian::read_u64(buf)
}

/// The byte at `p`, if there is one.
pub fn read_u8_at(b: &[u8], p: usize) -> (r: Result<u8, Truncated>)
    ensures
        r == (if p < b@.len() {
            Ok::<u8, Truncated>(b@[p as int])
        } else {
            Err(Truncated)
        }),
{
    if p < b.len() {
        Ok(b[p])
    } else {
        Err(Truncated)
    }
}

/// The big-endian `u16` at `p`, if two bytes are left there.
pub fn read_u16_at(b: &[u8], p: usize) -> (r: Result<u16, Truncated>)
    ensures
        r == (if p + 2 <= b@.len() {
            Ok::<u16, Truncated>(be16(b@, p as int))
        } else {
            Err(Truncated)
        }),
{
    if p <= b.len() && b.len() - p >= 2 {
        let v = big_endian_u16(&b[p..p + 2]);
        Ok(v)
    } else {
        Err(Truncated)
    }
}

/// The big-endian `u32` at `p`, if four bytes are left there.
pub fn read_u32_at(b: &[u8], p: usize) -> (r: Result<u32, Truncated>)
    ensures
        r == (if p + 4 <= b@.len() {
            Ok::<u32, Truncated>(be32(b@, p as int))
        } else {
            Err(Truncated)
        }),
{
    if p <= b.len() && b.len() - p >= 4 {
        let v = big_endian_u32(&b[p..p + 4]);
        Ok(v)
    } else {
        Err(Truncated)
    }
}

/// The big-endian `u64` at `p`, if eight bytes are left there.
pub fn read_u64_at(b: &[u8], p: usize) -> (r: Result<u64, Truncated>)
    ensures
        r == (if p + 8 <= b@.len() {
            Ok::<u64, Truncated>(be64(b@, p as int))
        } else {
            Err(Truncated)
        }),
{
    if p <= b.len() && b.len() - p >= 8 {
        let v = big_endian_u64(&b[p..p + 8]);
        Ok(v)
    } else {
        Err(Truncated)
    }
}

/// A copy of the `n` bytes at `p`, if that many are left there.
pub fn read_bytes_at(b: &[u8], p: usize, n: usize) -> (r: Result<Vec<u8>, Truncated>)
    ensures
        p + n <= b@.len() ==> r is Ok && r->Ok_0@ == b@.subrange(p as int, p + n),
        p + n > b@.len() ==> r == Err::<Vec<u8>, Truncated>(Truncated),
{
    if p <= b.len() && b.len() - p >= n {
        let mut out: Vec<u8> = Vec::with_capacity(n);
        let len = b.len();
        let mut i: usize = 0;
        while i < n
            invariant
                i <= n,
                len == b@.len(),
                p + n <= b@.len(),
                out@ == b@.subrange(p as int, p + i),
            decreases n - i,
        {
            out.push(b[p + i]);
            i += 1;
            assert(out@ =~= b@.subrange(p as int, p + i));
        }
        Ok(out)
    } else {
        Err(Truncated)
    }
}

} // verus!
