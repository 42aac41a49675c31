use vstd::prelude::*;

verus! {

use crate::model::ModelStore;
use vstd::arithmetic::div_mod::lemma_mod_multiples_basic;
use vstd::arithmetic::div_mod::lemma_div_by_multiple;
use vstd::arithmetic::div_mod::lemma_fundamental_div_mod;

/// A pixel buffer is scoreable exactly when both dimensions are positive,
/// the channel count is 3 (RGB) or 4 (RGBA), and the buffer holds one byte
/// per channel of every pixel.
pub open spec fn valid_shape(width: u32, height: u32, channels: u8, len: nat) -> bool {
    width > 0 && height > 0 && (channels == 3 || channels == 4) && len == width * height
        * channels
}

/// Decides `valid_shape` without ever overflowing: the pixel count is taken
/// in 64 bits and the buffer length is compared by division rather than by
/// forming `width * height * channels`.
pub fn check_input(width: u32, height: u32, channels: u8, len: usize) -> (r: bool)
    ensures
        r == valid_shape(width, height, channels, len as nat),
{
    if width == 0 || height == 0 {
        return false;
    }
    if channels != 3 && channels != 4 {
        return false;
    }
    let wu: u64 = width as u64;
    let hu: u64 = height as u64;
    proof {
        assert(wu * hu < 0x1_0000_0000_0000_0000) by (nonlinear_arith)
            requires
                wu < 0x1_0000_0000,
                hu < 0x1_0000_0000,
        ;
    }
    let p: u64 = wu * hu;
    let c: u64 = channels as u64;
    let l: u64 = len as u64;
    if l % c != 0 {
        proof {
            if len as int == p * c {
                lemma_mod_multiples_basic(p as int, c as int);
            }
        }
        return false;
    }
    let q: u64 = l / c;
    proof {
        lemma_fundamental_div_mod(l as int, c as int);
        if len as int == p * c {
            lemma_div_by_multiple(p as int, c as int);
        }
    }
    q == p
}

/// The full scoring gate: an image may enter the pipeline exactly when its
/// shape is valid and a model with one weight per feature is loaded. A
/// scorer must answer with the invalid sentinel precisely when this is
/// false, and only after this gate passes may any pixel be read.
pub fn can_score(store: &ModelStore, width: u32, height: u32, channels: u8, len: usize) -> (r:
    bool)
    ensures
        r == (valid_shape(width, height, channels, len as nat) && store.weights@.len() == 16),
{
    if !check_input(width, height, channels, len) {
        return false;
    }
    store.is_loaded()
}

} // verus!
