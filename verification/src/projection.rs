//! The aspect-normalising projection.
//!
//! The projection scales the two screen axes so that a logical unit square
//! stays square on a window of any shape: the shorter side of the window
//! keeps scale one, the longer side is compressed by the ratio of the two.
//! The scale factors are kept as exact ratios of pixel counts; whoever
//! needs them as machine numbers divides `num` by `den`.

use vstd::prelude::*;

verus! {

/// A scale factor, the ratio `num / den`. A ratio with `den == 0` has no
/// value; no projection holds one.
#[derive(Clone, Copy, Debug, PartialEq, Eq, Structural)]
pub struct Scale {
    pub num: u32,
    pub den: u32,
}

impl Scale {
    /// The scale factor one, written `1 / 1`.
    pub open spec fn one() -> Scale {
        Scale { num: 1, den: 1 }
    }

    /// Whether the ratio has the value one.
    pub open spec fn is_unit(self) -> bool {
        self.den != 0 && self.num == self.den
    }

    /// Whether the ratio has a value, and that value is at most one.
    pub open spec fn at_most_one(self) -> bool {
        self.den != 0 && self.num <= self.den
    }
}

/// The scale factors of the two screen axes.
#[derive(Clone, Copy, Debug, PartialEq, Eq, Structural)]
pub struct Projection {
    pub x: Scale,
    pub y: Scale,
}

/// The projection for a window of `w` by `h` pixels. A square window, the
/// one without any pixels included, has scale one on both axes.
pub open spec fn projection_of(w: u32, h: u32) -> Projection {
    if w == h {
        Projection { x: Scale::one(), y: Scale::one() }
    } else if w < h {
        Projection { x: Scale::one(), y: Scale { num: w, den: h } }
    } else {
        Projection { x: Scale { num: h, den: w }, y: Scale::one() }
    }
}

/// Computes the projection for a window of the given size (width, height).
pub fn compute_proj_matrix(window_size: (u32, u32)) -> (p: Projection)
    ensures
        p == projection_of(window_size.0, window_size.1),
{
    let (w, h) = window_size;
    if w == h {
        Projection { x: Scale { num: 1, den: 1 }, y: Scale { num: 1, den: 1 } }
    } else if w < h {
        Projection { x: Scale { num: 1, den: 1 }, y: Scale { num: w, den: h } }
    } else {
        Projection { x: Scale { num: h, den: w }, y: Scale { num: 1, den: 1 } }
    }
}

/// On a square window both axes have scale one.
pub proof fn lemma_projection_square(w: u32)
    ensures
        projection_of(w, w).x == Scale::one(),
        projection_of(w, w).y == Scale::one(),
        projection_of(w, w).x.is_unit(),
        projection_of(w, w).y.is_unit(),
{
}

/// Every scale factor of every projection has a value, and that value is at
/// most one: no window size gives a ratio with denominator zero.
pub proof fn lemma_projection_has_value(w: u32, h: u32)
    ensures
        projection_of(w, h).x.at_most_one(),
        projection_of(w, h).y.at_most_one(),
        w <= h ==> projection_of(w, h).x.is_unit(),
        h <= w ==> projection_of(w, h).y.is_unit(),
{
}

/// On a window wider than high the x axis is compressed by `h / w` and the
/// y axis keeps scale one.
pub proof fn lemma_projection_wide(w: u32, h: u32)
    requires
        w > h,
    ensures
        projection_of(w, h).x == (Scale { num: h, den: w }),
        projection_of(w, h).y == Scale::one(),
        projection_of(w, h).x.at_most_one(),
{
}

/// On a window higher than wide the y axis is compressed by `w / h` and the
/// x axis keeps scale one.
pub proof fn lemma_projection_tall(w: u32, h: u32)
    requires
        h > w,
    ensures
        projection_of(w, h).x == Scale::one(),
        projection_of(w, h).y == (Scale { num: w, den: h }),
        projection_of(w, h).y.at_most_one(),
{
}

/// A logical unit square covers as many pixels across as it does down:
/// `x * w == y * h` as exact ratios, so content is never stretched.
pub proof fn lemma_projection_undistorted(w: u32, h: u32)
    ensures
        ({
            let p = projection_of(w, h);
            p.x.num * w * p.y.den == p.y.num * h * p.x.den
        }),
{
    assert(1 * w * h == w * h * 1) by (nonlinear_arith);
    assert(h * w * 1 == 1 * h * w) by (nonlinear_arith);
}

} // verus!
