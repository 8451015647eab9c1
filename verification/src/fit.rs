//! The fit transform: a translation that recenters a model's bounding
//! extent on the origin, and the quantity its uniform scale divides into.
//!
//! The translation is `-(max + min) / 2`; it is returned doubled, so it
//! stays exact in integers whatever the parity of the sums. The scale is
//! `target size / largest`, where `largest` is the largest magnitude among
//! the six raw extent components — raw, not recentered: the asymmetry
//! between the two formulas is deliberate, observed behavior. The division
//! itself, like the target size, is a floating-point affair of the caller;
//! whenever any extent component is nonzero, `largest` is positive and the
//! resulting scale is well defined. For an all-zero extent `largest` is
//! zero and no scale is defined.

use vstd::prelude::*;

use crate::geometry::coords;
use crate::geometry::extent_in_range;
use crate::geometry::int_max;
use crate::geometry::vneg;
use crate::geometry::vsum;
use crate::geometry::Extent;
use crate::geometry::Vertex;

verus! {

/// The magnitude of an integer.
pub open spec fn abs_int(x: int) -> int {
    if x < 0 {
        -x
    } else {
        x
    }
}

/// The largest magnitude among the six components of the extent.
pub open spec fn largest_component(e: Extent) -> int {
    int_max(
        int_max(
            int_max(abs_int(coords(e.max).0), abs_int(coords(e.max).1)),
            abs_int(coords(e.max).2),
        ),
        int_max(
            int_max(abs_int(coords(e.min).0), abs_int(coords(e.min).1)),
            abs_int(coords(e.min).2),
        ),
    )
}

/// The exact part of the fit: the recentering translation, doubled to stay
/// in integers, and the divisor of the uniform scale.
#[derive(Clone, Copy, Debug, PartialEq, Eq)]
pub struct FitTransform {
    /// Twice the translation that moves the extent's midpoint to the
    /// origin: `-(max + min)`, componentwise.
    pub translation_doubled: Vertex,
    /// The largest magnitude among the raw extent components; the uniform
    /// scale is the target size divided by this.
    pub largest: i64,
}

fn abs_i64(x: i64) -> (r: i64)
    requires
        i64::MIN < x,
    ensures
        r as int == abs_int(x as int),
{
    if x < 0 {
        -x
    } else {
        x
    }
}

fn max_i64(a: i64, b: i64) -> (r: i64)
    ensures
        r as int == int_max(a as int, b as int),
{
    if b > a {
        b
    } else {
        a
    }
}

/// Builds the fit transform of a bounding extent.
///
/// The translation recenters the extent's midpoint; `largest` is taken over
/// the raw extent components, so the scale normalizes the model's
/// pre-translation coordinates. `largest` is zero exactly when every
/// component of the extent is zero, the one case in which no scale is
/// defined.
pub fn build_fit(extent: &Extent) -> (r: FitTransform)
    requires
        extent_in_range(*extent),
    ensures
        coords(r.translation_doubled) == vneg(vsum(coords(extent.max), coords(extent.min))),
        r.largest as int == largest_component(*extent),
        r.largest >= 0,
        (r.largest == 0 <==> (coords(extent.max) == (0int, 0int, 0int) && coords(extent.min) == (
            0int,
            0int,
            0int,
        ))),
{
    let translation_doubled = Vertex {
        position: (
            -(extent.max.position.0 + extent.min.position.0),
            -(extent.max.position.1 + extent.min.position.1),
            -(extent.max.position.2 + extent.min.position.2),
        ),
    };
    let mut largest = abs_i64(extent.max.position.0);
    largest = max_i64(largest, abs_i64(extent.max.position.1));
    largest = max_i64(largest, abs_i64(extent.max.position.2));
    largest = max_i64(largest, abs_i64(extent.min.position.0));
    largest = max_i64(largest, abs_i64(extent.min.position.1));
    largest = max_i64(largest, abs_i64(extent.min.position.2));
    FitTransform { translation_doubled, largest }
}

} // verus!
