//! Simulated link loss: the drop rate and the draw that decides a drop.
use vstd::prelude::*;

use rand::Rng;

verus! {

/// A drop rate is a number of millionths: `PDR_SCALE` stands for certainty.
pub const PDR_SCALE: u32 = 1_000_000;

/// A requested drop rate lies within [0, 1].
pub open spec fn valid_pdr(pdr: i64) -> bool {
    0 <= pdr <= PDR_SCALE
}

/// A draw of `draw` millionths, uniform in [0, 1), drops a fragment under rate `pdr`
/// when it does not exceed the rate.
pub open spec fn drops(pdr: u32, draw: u32) -> bool {
    draw <= pdr
}

/// Relies on rand's `thread_rng().gen_range(0..n)`: a value in `0..n`; it panics on
/// an empty range, which `n > 0` rules out.
#[verifier::external_body]
fn uniform_below(n: u32) -> (r: u32)
    requires
        n > 0,
    ensures
        r < n,
{
    rand::thread_rng().gen_range(0..n)
}

/// Draws a uniform number of millionths in [0, 1).
pub fn draw_millionths() -> (r: u32)
    ensures
        r < PDR_SCALE,
{
    uniform_below(PDR_SCALE)
}

} // verus!
