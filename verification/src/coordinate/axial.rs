//! Axial coordinates.

use vstd::prelude::*;
use vstd::std_specs::ops::{AddSpecImpl, SubSpecImpl, MulSpecImpl, DivSpecImpl};
use vstd::std_specs::convert::FromSpecImpl;
use std::ops::{Add, Sub, Mul, Div};
use super::{CoordError, CoordResult, Point, fits_i32, point_dist, trunc_div, steps_between};
use super::cube::Cube;

verus! {

/// Axial coordinates use the same system as cube coordinates but store only
/// two of the three values: for cube coordinate `(x, y, z)`, `q` is `x` and
/// `r` is `z`; `y` follows from `x + y + z == 0`.
#[derive(Clone, Copy, Debug, Default, Eq, Hash, Ord, PartialEq, PartialOrd, Structural)]
pub struct Axial {
    pub q: i32,
    pub r: i32,
}

impl View for Axial {
    type V = Point;

    /// The point of the plane that the coordinate stands for.
    open spec fn view(&self) -> Point {
        (self.q as int, -self.q - self.r, self.r as int)
    }
}

impl Add for Axial {
    type Output = Axial;

    /// Adds two coordinates like vectors.
    fn add(self, rhs: Axial) -> (r: Axial)
        ensures
            r.q == self.q + rhs.q,
            r.r == self.r + rhs.r,
    {
        Axial { q: self.q + rhs.q, r: self.r + rhs.r }
    }
}

impl AddSpecImpl for Axial {
    open spec fn obeys_add_spec() -> bool {
        true
    }

    open spec fn add_req(self, rhs: Axial) -> bool {
        fits_i32(self.q + rhs.q) && fits_i32(self.r + rhs.r)
    }

    open spec fn add_spec(self, rhs: Axial) -> Axial {
        Axial { q: (self.q + rhs.q) as i32, r: (self.r + rhs.r) as i32 }
    }
}

impl Sub for Axial {
    type Output = Axial;

    /// Subtracts one coordinate from another like vectors.
    fn sub(self, rhs: Axial) -> (r: Axial)
        ensures
            r.q == self.q - rhs.q,
            r.r == self.r - rhs.r,
    {
        Axial { q: self.q - rhs.q, r: self.r - rhs.r }
    }
}

impl SubSpecImpl for Axial {
    open spec fn obeys_sub_spec() -> bool {
        true
    }

    open spec fn sub_req(self, rhs: Axial) -> bool {
        fits_i32(self.q - rhs.q) && fits_i32(self.r - rhs.r)
    }

    open spec fn sub_spec(self, rhs: Axial) -> Axial {
        Axial { q: (self.q - rhs.q) as i32, r: (self.r - rhs.r) as i32 }
    }
}

impl Mul<i32> for Axial {
    type Output = Axial;

    /// Multiplies a coordinate by a scalar, like a vector.
    fn mul(self, n: i32) -> (r: Axial)
        ensures
            r.q == self.q * n,
            r.r == self.r * n,
    {
        Axial { q: self.q * n, r: self.r * n }
    }
}

impl MulSpecImpl<i32> for Axial {
    open spec fn obeys_mul_spec() -> bool {
        true
    }

    open spec fn mul_req(self, n: i32) -> bool {
        fits_i32(self.q * n) && fits_i32(self.r * n)
    }

    open spec fn mul_spec(self, n: i32) -> Axial {
        Axial { q: (self.q * n) as i32, r: (self.r * n) as i32 }
    }
}

impl Mul<Axial> for i32 {
    type Output = Axial;

    /// Multiplies a coordinate by a scalar written on the left.
    fn mul(self, coord: Axial) -> (r: Axial)
        ensures
            r.q == coord.q * self,
            r.r == coord.r * self,
    {
        coord * self
    }
}

impl MulSpecImpl<Axial> for i32 {
    open spec fn obeys_mul_spec() -> bool {
        true
    }

    open spec fn mul_req(self, coord: Axial) -> bool {
        fits_i32(coord.q * self) && fits_i32(coord.r * self)
    }

    open spec fn mul_spec(self, coord: Axial) -> Axial {
        Axial { q: (coord.q * self) as i32, r: (coord.r * self) as i32 }
    }
}

/// What dividing the axial coordinate `(q, r)` by `n` gives: both quotients
/// rounded toward zero, where they are `i32` values.
pub open spec fn axial_quotient(q: int, r: int, n: int) -> CoordResult<Axial> {
    if n == 0 {
        Err(CoordError::DivisionByZero)
    } else if fits_i32(trunc_div(q, n)) && fits_i32(trunc_div(r, n)) {
        Ok(Axial { q: trunc_div(q, n) as i32, r: trunc_div(r, n) as i32 })
    } else {
        Err(CoordError::InvalidCoordinate)
    }
}

impl Div<i32> for Axial {
    type Output = CoordResult<Axial>;

    /// Divides each component by a scalar, rounding toward zero. Fails with
    /// `DivisionByZero` for a zero divisor, and with `InvalidCoordinate`
    /// where a quotient is no `i32` value.
    fn div(self, n: i32) -> (r: CoordResult<Axial>)
        ensures
            r == axial_quotient(self.q as int, self.r as int, n as int),
    {
        if n == 0 {
            return Err(CoordError::DivisionByZero);
        }
        match (self.q.checked_div(n), self.r.checked_div(n)) {
            (Some(q), Some(r)) => Ok(Axial { q, r }),
            _ => Err(CoordError::InvalidCoordinate),
        }
    }
}

impl DivSpecImpl<i32> for Axial {
    open spec fn obeys_div_spec() -> bool {
        true
    }

    open spec fn div_req(self, n: i32) -> bool {
        true
    }

    open spec fn div_spec(self, n: i32) -> CoordResult<Axial> {
        axial_quotient(self.q as int, self.r as int, n as int)
    }
}

impl From<(i32, i32)> for Axial {
    /// Creates an `Axial` from `(q, r)`.
    fn from(t: (i32, i32)) -> (r: Axial) {
        Axial { q: t.0, r: t.1 }
    }
}

impl FromSpecImpl<(i32, i32)> for Axial {
    open spec fn obeys_from_spec() -> bool {
        true
    }

    open spec fn from_spec(t: (i32, i32)) -> Axial {
        Axial { q: t.0, r: t.1 }
    }
}

impl From<Cube> for Axial {
    /// Creates the `Axial` of a `Cube`: `q` is `x` and `r` is `z`.
    fn from(coord: Cube) -> (r: Axial) {
        Axial { q: coord.x(), r: coord.z() }
    }
}

impl FromSpecImpl<Cube> for Axial {
    open spec fn obeys_from_spec() -> bool {
        true
    }

    open spec fn from_spec(coord: Cube) -> Axial {
        Axial::of_cube(coord)
    }
}

impl Axial {
    /// The axial coordinate of a cube coordinate: `q` is `x` and `r` is `z`.
    pub open spec fn of_cube(coord: Cube) -> Axial {
        Axial { q: coord@.0 as i32, r: coord@.2 as i32 }
    }

    /// The origin, `(0, 0)`.
    pub fn origin() -> (r: Axial)
        ensures
            r == (Axial { q: 0, r: 0 }),
    {
        Axial { q: 0, r: 0 }
    }

    /// The axial coordinate `(q, r)`.
    pub fn from_coords(q: i32, r: i32) -> (a: Axial)
        ensures
            a == (Axial { q, r }),
    {
        Axial { q, r }
    }

    /// The number of steps between two axial coordinates, which is that
    /// between the cube coordinates they stand for.
    pub fn dist(self, other: Axial) -> (r: i32)
        requires
            point_dist(self@, other@) <= i32::MAX,
        ensures
            r == point_dist(self@, other@),
    {
        let d: i64 = steps_between(
            self.q as i64,
            0 - self.q as i64 - self.r as i64,
            self.r as i64,
            other.q as i64,
            0 - other.q as i64 - other.r as i64,
            other.r as i64,
        );
        d as i32
    }
}

/// Converting a cube coordinate to axial, back to cube and to axial again
/// gives the same axial coordinate, and the cube coordinate in between is the
/// one started from.
pub proof fn lemma_axial_round_trip(c: Cube)
    requires
        c.valid(),
    ensures
        Axial::of_cube(c)@ == c@,
        fits_i32(-Axial::of_cube(c).q - Axial::of_cube(c).r),
        Cube::at(Axial::of_cube(c)@) == c,
        Axial::of_cube(Cube::at(Axial::of_cube(c)@)) == Axial::of_cube(c),
{
    c.lemma_view_fits();
}

} // verus!
