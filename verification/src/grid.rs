use vstd::prelude::*;

verus! {

use vstd::arithmetic::div_mod::lemma_fundamental_div_mod;
use crate::shape::valid_shape;

/// Width of the canonical grid every image is resampled to.
pub const TARGET_W: u32 = 128;

/// Height of the canonical grid.
pub const TARGET_H: u32 = 128;

/// Nearest-neighbor source coordinate for destination cell `dst`: the exact
/// mathematical floor of `(dst + 0.5) * src_dim / dst_dim`, written over
/// integers as `((2*dst + 1) * src_dim) / (2*dst_dim)`.
pub open spec fn src_coord_spec(dst: int, src_dim: int, dst_dim: int) -> int {
    ((2 * dst + 1) * src_dim) / (2 * dst_dim)
}

/// Box-center nearest-neighbor sampling: maps a destination coordinate to
/// the source coordinate whose pixel it reads. The result always lands
/// inside the source dimension, so sampling can never read out of bounds.
pub fn src_coord(dst: u32, src_dim: u32, dst_dim: u32) -> (r: u32)
    requires
        dst < dst_dim,
        1 <= src_dim,
    ensures
        r == src_coord_spec(dst as int, src_dim as int, dst_dim as int),
        r < src_dim,
{
    proof {
        assert((2 * (dst as int) + 1) * (src_dim as int) <= 0x1_FFFF_FFFF * 0xFFFF_FFFF)
            by (nonlinear_arith)
            requires
                dst < 0x1_0000_0000,
                src_dim < 0x1_0000_0000,
        ;
    }
    let num: u128 = (2 * (dst as u128) + 1) * (src_dim as u128);
    let den: u128 = 2 * (dst_dim as u128);
    let q: u128 = num / den;
    proof {
        let d = dst as int;
        let s = src_dim as int;
        let dd = dst_dim as int;
        let numi = (2 * d + 1) * s;
        let deni = 2 * dd;
        lemma_fundamental_div_mod(numi, deni);
        assert(numi < deni * s) by (nonlinear_arith)
            requires
                2 * d + 1 < deni,
                s >= 1,
                numi == (2 * d + 1) * s,
        ;
        assert(numi / deni < s) by (nonlinear_arith)
            requires
                numi == deni * (numi / deni) + numi % deni,
                0 <= numi % deni,
                numi < deni * s,
                deni > 0,
        ;
    }
    q as u32
}

/// Byte offset, inside a buffer of shape `width x height x channels`, of the
/// source pixel that canonical cell `(x, y)` samples. The offset leaves room
/// for all `channels` bytes of that pixel, so every read the resampler makes
/// after a successful shape check stays inside the buffer.
pub fn src_pixel_offset(x: u32, y: u32, width: u32, height: u32, channels: u8, len: usize) -> (o:
    usize)
    requires
        valid_shape(width, height, channels, len as nat),
        x < 128,
        y < 128,
    ensures
        o == (src_coord_spec(y as int, height as int, 128) * width + src_coord_spec(
            x as int,
            width as int,
            128,
        )) * channels,
        o + channels <= len,
{
    let sx: u32 = src_coord(x, width, TARGET_W);
    let sy: u32 = src_coord(y, height, TARGET_H);
    proof {
        let w = width as int;
        let h = height as int;
        let c = channels as int;
        assert((sy as int) * w + (sx as int) < h * w) by (nonlinear_arith)
            requires
                sy < h,
                sx < w,
                0 < w,
        ;
        assert(((sy as int) * w + (sx as int)) * c + c <= h * w * c) by (nonlinear_arith)
            requires
                (sy as int) * w + (sx as int) < h * w,
                c > 0,
        ;
        assert(h * w * c == len as int) by (nonlinear_arith)
            requires
                len as int == w * h * c,
        ;
    }
    let row: usize = (sy as usize) * (width as usize);
    let cell: usize = row + (sx as usize);
    cell * (channels as usize)
}

/// The complete sampling map of one resample: entry `y * 128 + x` is the
/// byte offset of the source pixel canonical cell `(x, y)` reads. Every
/// entry leaves room for all `channels` bytes of its pixel, so the resample
/// loop needs no further bounds checks.
pub fn sampling_offsets(width: u32, height: u32, channels: u8, len: usize) -> (v: Vec<usize>)
    requires
        valid_shape(width, height, channels, len as nat),
    ensures
        v@.len() == 16384,
        forall|i: int|
            0 <= i < 16384 ==> v@[i] == (src_coord_spec(i / 128, height as int, 128) * width
                + src_coord_spec(i % 128, width as int, 128)) * channels && v@[i] + channels
                <= len,
{
    let mut v: Vec<usize> = Vec::new();
    let mut y: u32 = 0;
    while y < 128
        invariant
            y <= 128,
            valid_shape(width, height, channels, len as nat),
            v@.len() == y * 128,
            forall|i: int|
                0 <= i < v@.len() ==> v@[i] == (src_coord_spec(i / 128, height as int, 128) * width
                    + src_coord_spec(i % 128, width as int, 128)) * channels && v@[i] + channels
                    <= len,
        decreases 128 - y,
    {
        let mut x: u32 = 0;
        while x < 128
            invariant
                y < 128,
                x <= 128,
                valid_shape(width, height, channels, len as nat),
                v@.len() == y * 128 + x,
                forall|i: int|
                    0 <= i < v@.len() ==> v@[i] == (src_coord_spec(i / 128, height as int, 128)
                        * width + src_coord_spec(i % 128, width as int, 128)) * channels && v@[i]
                        + channels <= len,
            decreases 128 - x,
        {
            let o: usize = src_pixel_offset(x, y, width, height, channels, len);
            proof {
                let i = v@.len() as int;
                vstd::arithmetic::div_mod::lemma_fundamental_div_mod_converse_div(
                    i,
                    128,
                    y as int,
                    x as int,
                );
                vstd::arithmetic::div_mod::lemma_fundamental_div_mod_converse_mod(
                    i,
                    128,
                    y as int,
                    x as int,
                );
            }
            v.push(o);
            x = x + 1;
        }
        y = y + 1;
    }
    v
}

/// Offset of canonical cell `(x, y)` in a co-indexed 128 x 128 grid buffer.
pub fn grid_offset(x: u32, y: u32) -> (o: usize)
    requires
        x < 128,
        y < 128,
    ensures
        o == y * 128 + x,
        o < 16384,
{
    (y as usize) * 128 + (x as usize)
}

/// Where the two feature passes may look from canonical cell `(x, y)`:
/// the right and down neighbors of the local-contrast/blockiness pass, the
/// 8-pixel block-boundary bucketing of those two steps, and the full 3x3
/// window of the Sobel/Laplacian/blur pass for interior cells. Every index
/// it exposes is proven to lie inside the 16384-cell canonical grid.
pub struct NeighborPlan {
    pub idx: usize,
    pub has_right: bool,
    pub right: usize,
    pub right_on_block_edge: bool,
    pub has_down: bool,
    pub down: usize,
    pub down_on_block_edge: bool,
    pub interior: bool,
    pub up_left: usize,
    pub up: usize,
    pub up_right: usize,
    pub left: usize,
    pub down_left: usize,
    pub down_right: usize,
}

/// Computes the in-bounds neighborhood of canonical cell `(x, y)`.
pub fn neighbor_plan(x: u32, y: u32) -> (p: NeighborPlan)
    requires
        x < 128,
        y < 128,
    ensures
        p.idx == y * 128 + x && p.idx < 16384,
        p.has_right == (x + 1 < 128),
        p.has_right ==> p.right == p.idx + 1 && p.right < 16384,
        p.right_on_block_edge == ((x + 1) % 8 == 0),
        p.has_down == (y + 1 < 128),
        p.has_down ==> p.down == p.idx + 128 && p.down < 16384,
        p.down_on_block_edge == ((y + 1) % 8 == 0),
        p.interior == (0 < x && x + 1 < 128 && 0 < y && y + 1 < 128),
        p.interior ==> p.up_left + 129 == p.idx && p.up + 128 == p.idx && p.up_right + 127
            == p.idx && p.left + 1 == p.idx && p.down_left == p.idx + 127 && p.down_right == p.idx
            + 129 && p.down_right < 16384,
{
    let idx: usize = grid_offset(x, y);
    let has_right: bool = x + 1 < 128;
    let has_down: bool = y + 1 < 128;
    let interior: bool = 0 < x && x + 1 < 128 && 0 < y && y + 1 < 128;
    NeighborPlan {
        idx,
        has_right,
        right: if has_right {
            idx + 1
        } else {
            0
        },
        right_on_block_edge: (x + 1) % 8 == 0,
        has_down,
        down: if has_down {
            idx + 128
        } else {
            0
        },
        down_on_block_edge: (y + 1) % 8 == 0,
        interior,
        up_left: if interior {
            idx - 129
        } else {
            0
        },
        up: if interior {
            idx - 128
        } else {
            0
        },
        up_right: if interior {
            idx - 127
        } else {
            0
        },
        left: if interior {
            idx - 1
        } else {
            0
        },
        down_left: if interior {
            idx + 127
        } else {
            0
        },
        down_right: if interior {
            idx + 129
        } else {
            0
        },
    }
}

} // verus!
