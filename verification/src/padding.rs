//! Row alignment: how requested pixel dimensions are padded so that every row
//! of a staging buffer starts on an aligned byte offset, and how many bytes a
//! padded frame takes.

use vstd::prelude::*;

verus! {

/// Alignment that the copy hardware demands of a row, in pixels and in bytes.
pub const ROW_ALIGNMENT: u32 = 256;

/// Bytes of one pixel (8-bit RGBA).
pub const BYTES_PER_PIXEL: u32 = 4;

/// The padded length of `n`: `n` plus its distance to the next multiple of
/// the row alignment, which is zero where `n` is aligned already.
pub open spec fn padded(n: nat) -> nat {
    n + ((256 - n % 256) % 256) as nat
}

/// Bytes of a staging buffer for a frame requested at `width` x `height`:
/// four bytes for each pixel of the padded frame.
pub open spec fn staging_bytes(width: nat, height: nat) -> nat {
    4 * padded(width) * padded(height)
}

/// Whether a frame requested at `width` x `height` can be laid out at all:
/// a copy holds its row stride in bytes and its row count in 32 bits each.
pub open spec fn fits(width: nat, height: nat) -> bool {
    4 * padded(width) <= u32::MAX && padded(height) <= u32::MAX
}

/// An aligned length is its own padding; any other length grows by what it
/// lacks to the next multiple of the alignment.
pub proof fn padded_by_cases(n: nat)
    ensures
        n % 256 == 0 ==> padded(n) == n,
        n % 256 != 0 ==> padded(n) == n + (256 - n % 256),
{
}

/// A padded length is aligned, and is less than one alignment step away.
pub proof fn padded_is_aligned(n: nat)
    ensures
        padded(n) % 256 == 0,
        n <= padded(n) < n + 256,
{
}

/// The padded length is the smallest aligned length that is not below `n`.
pub proof fn padded_is_least(n: nat, m: nat)
    requires
        m % 256 == 0,
        n <= m,
    ensures
        padded(n) <= m,
{
}

/// Padding twice is padding once.
pub proof fn padded_is_idempotent(n: nat)
    ensures
        padded(padded(n)) == padded(n),
{
}

/// A frame that fits has a byte size that a 64-bit buffer address can hold,
/// and that size is the row stride times the padded row count.
pub proof fn fitting_frame_has_size(width: nat, height: nat)
    requires
        fits(width, height),
    ensures
        staging_bytes(width, height) <= u64::MAX,
        staging_bytes(width, height) == (4 * padded(width)) * padded(height),
        staging_bytes(width, height) % 256 == 0,
{
    let w = padded(width);
    let h = padded(height);
    assert(4 * w * h == (4 * w) * h);
    assert((4 * w) * h <= 0xffff_ffff * 0xffff_ffff) by (nonlinear_arith)
        requires
            4 * w <= 0xffff_ffff,
            h <= 0xffff_ffff,
    ;
    let k = w / 256;
    assert(w == 256 * k);
    assert((4 * w) * h == (4 * k * h) * 256) by (nonlinear_arith)
        requires
            w == 256 * k,
    ;
    vstd::arithmetic::div_mod::lemma_mod_multiples_basic((4 * k * h) as int, 256);
}

/// Pads a requested dimension up to the next multiple of the row alignment.
pub fn pad(n: u32) -> (p: u64)
    ensures
        p == padded(n as nat),
{
    let n64: u64 = n as u64;
    let alignment: u64 = ROW_ALIGNMENT as u64;
    n64 + (alignment - n64 % alignment) % alignment
}

/// Tests whether a frame of the requested size can be laid out.
pub fn frame_fits(width: u32, height: u32) -> (b: bool)
    ensures
        b == fits(width as nat, height as nat),
{
    let limit: u64 = u32::MAX as u64;
    (BYTES_PER_PIXEL as u64) * pad(width) <= limit && pad(height) <= limit
}

/// Computes the byte size of the staging buffer for a requested frame size.
pub fn staging_size(width: u32, height: u32) -> (size: u64)
    requires
        fits(width as nat, height as nat),
    ensures
        size == staging_bytes(width as nat, height as nat),
{
    proof {
        fitting_frame_has_size(width as nat, height as nat);
    }
    let row: u64 = (BYTES_PER_PIXEL as u64) * pad(width);
    row * pad(height)
}

} // verus!
