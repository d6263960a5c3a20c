//! Sizes of the headless render target's BGRA readback.

use vstd::prelude::*;

verus! {

/// The number of bytes of a `width` x `height` BGRA image (4 bytes per
/// pixel).
pub open spec fn bgra_bytes(width: u32, height: u32) -> int {
    4 * width * height
}

/// The byte size of the host-visible staging buffer that receives a
/// `width` x `height` BGRA image.
pub fn staging_buffer_bytes(width: u32, height: u32) -> (n: u64)
    requires
        bgra_bytes(width, height) <= u64::MAX,
    ensures
        n == bgra_bytes(width, height),
{
    let w = width as u64;
    let h = height as u64;
    proof {
        assert(w * h <= u64::MAX && w * h * 4 == 4 * w * h) by (nonlinear_arith)
            requires
                4 * w * h <= u64::MAX,
        ;
    }
    w * h * 4
}

/// The length a host buffer must have to receive a `width` x `height` BGRA
/// frame read back from the render target.
pub fn frame_byte_len(width: u32, height: u32) -> (n: usize)
    requires
        bgra_bytes(width, height) <= usize::MAX,
    ensures
        n == bgra_bytes(width, height),
{
    let w = width as usize;
    let h = height as usize;
    proof {
        assert(w * h <= usize::MAX && w * h * 4 == 4 * w * h) by (nonlinear_arith)
            requires
                4 * w * h <= usize::MAX,
        ;
    }
    w * h * 4
}

/// Whether a `width` x `height` BGRA frame's byte count fits in `usize`
/// (the condition under which [`frame_byte_len`] can be called).
pub fn bgra_bytes_fit_usize(width: u32, height: u32) -> (b: bool)
    ensures
        b == (bgra_bytes(width, height) <= usize::MAX),
{
    let w = width as u128;
    let h = height as u128;
    proof {
        assert(w * h <= 0xffff_fffe_0000_0001 && w * h * 4 == 4 * w * h) by (nonlinear_arith)
            requires
                w <= 0xffff_ffff,
                h <= 0xffff_ffff,
        ;
    }
    w * h * 4 <= usize::MAX as u128
}

} // verus!
