//! Decoding of interleaved signed 16-bit little-endian PCM into a mono
//! down-mix: channels 0 and 1 are summed, or channel 0 taken twice when the
//! stream is mono. The sums are twice the mean; scaling to [-1, 1] (dividing
//! by 65536) is left to the caller.
use vstd::prelude::*;

verus! {

/// Most channels a stream format can declare.
pub const MAX_CHANNELS: usize = 65535;

/// The signed 16-bit value of the little-endian bytes `lo`, `hi`.
pub open spec fn spec_i16_le(lo: u8, hi: u8) -> int {
    let u = lo + 256 * hi;
    if u >= 32768 {
        u - 65536
    } else {
        u
    }
}

/// Sample `j` of the byte stream `b`.
pub open spec fn spec_sample(b: Seq<u8>, j: int) -> int {
    spec_i16_le(b[2 * j], b[2 * j + 1])
}

/// The down-mix of frame `k`: channel 0 plus channel 1, or channel 0 twice.
pub open spec fn spec_frame_sum(b: Seq<u8>, channels: int, k: int) -> int {
    let j = k * channels;
    spec_sample(b, j) + if channels >= 2 {
        spec_sample(b, j + 1)
    } else {
        spec_sample(b, j)
    }
}

pub fn i16_le(lo: u8, hi: u8) -> (r: i32)
    ensures
        r as int == spec_i16_le(lo, hi),
{
    let u: i32 = lo as i32 + 256 * (hi as i32);
    if u >= 32768 {
        u - 65536
    } else {
        u
    }
}

/// Down-mixes every complete frame of `bytes`.
pub fn downmix_i16(bytes: &Vec<u8>, channels: usize) -> (r: Vec<i32>)
    requires
        1 <= channels <= MAX_CHANNELS,
    ensures
        r@.len() == bytes@.len() as int / (2 * channels as int),
        forall|k: int| 0 <= k < r@.len() ==> #[trigger] r@[k] as int == spec_frame_sum(bytes@, channels as int, k),
{
    let step: usize = 2 * channels;
    let len = bytes.len();
    let mut out: Vec<i32> = Vec::new();
    let mut off: usize = 0;
    assert(out@.len() * step as int == 0) by (nonlinear_arith)
        requires
            out@.len() == 0,
    ;
    while len - off >= step
        invariant
            step == 2 * channels,
            1 <= channels <= MAX_CHANNELS,
            len == bytes@.len(),
            off <= len,
            off as int == out@.len() * step as int,
            forall|k: int| 0 <= k < out@.len() ==> #[trigger] out@[k] as int == spec_frame_sum(bytes@, channels as int, k),
        decreases len - off,
    {
        let k = out.len();
        assert(2 * (k * channels) == off && 2 * (k * channels + 1) == off + 2) by (nonlinear_arith)
            requires
                off == k * step,
                step == 2 * channels,
        ;
        let a = i16_le(bytes[off], bytes[off + 1]);
        let b = if channels >= 2 {
            i16_le(bytes[off + 2], bytes[off + 3])
        } else {
            a
        };
        out.push(a + b);
        assert((k + 1) * step == off + step) by (nonlinear_arith)
            requires
                off == k * step,
        ;
        off = off + step;
    }
    let n = out.len();
    assert(len / step == n) by (nonlinear_arith)
        requires
            off == n * step,
            off <= len,
            len - off < step,
            step >= 2,
    ;
    out
}

} // verus!
