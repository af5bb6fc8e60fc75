//! Cube coordinates.

use vstd::prelude::*;
use vstd::std_specs::ops::{AddSpecImpl, SubSpecImpl, MulSpecImpl, DivSpecImpl};
use std::ops::{Add, Sub, Mul, Div};
use super::{
    CoordError, CoordResult, Point, fits_i32, point_fits, on_plane, point_add, point_sub,
    point_scale, trunc_div, point_dist, scaled_step, neighbor_of, diagonal_of, turn_cw, turn_cc,
    turns_cw, turns_cc, ring_point, ring_points, spiral_points, steps_between,
};
use super::axial::Axial;

verus! {

/// Cube coordinates address a hex by three axes, treating hexes as
/// cross-sections of a cube sliced along the diagonal.
///
/// For every cube coordinate `(x, y, z)`, `x + y + z == 0`. The fields are
/// private, so a value can only be made and changed through functions that
/// keep the constraint.
#[derive(Clone, Copy, Debug, Default, Eq, Hash, Ord, PartialEq, PartialOrd, Structural)]
pub struct Cube {
    x: i32,
    y: i32,
    z: i32,
}

impl View for Cube {
    type V = Point;

    closed spec fn view(&self) -> Point {
        (self.x as int, self.y as int, self.z as int)
    }
}

/// The points that a sequence of cube coordinates stands for.
pub open spec fn cube_views(s: Seq<Cube>) -> Seq<Point> {
    s.map_values(|c: Cube| c@)
}

/// Whether every coordinate of the sequence satisfies the constraint.
pub open spec fn all_valid(s: Seq<Cube>) -> bool {
    forall|i: int| 0 <= i < s.len() ==> (#[trigger] s[i]).valid()
}

/// Whether every point at `radius` steps or fewer from `center` has `i32`
/// components.
pub open spec fn reach_fits(center: Point, radius: int) -> bool {
    &&& fits_i32(center.0 - radius) && fits_i32(center.0 + radius)
    &&& fits_i32(center.1 - radius) && fits_i32(center.1 + radius)
    &&& fits_i32(center.2 - radius) && fits_i32(center.2 + radius)
}

/// The number of hexes in the spiral of the given radius.
pub open spec fn spiral_len(radius: int) -> int {
    1 + 3 * radius * (radius + 1)
}

impl Add for Cube {
    type Output = Cube;

    /// Adds two coordinates like vectors.
    fn add(self, rhs: Cube) -> (r: Cube)
        ensures
            r@ == point_add(self@, rhs@),
            self.valid() && rhs.valid() ==> r.valid(),
    {
        Cube { x: self.x + rhs.x, y: self.y + rhs.y, z: self.z + rhs.z }
    }
}

impl AddSpecImpl for Cube {
    open spec fn obeys_add_spec() -> bool {
        true
    }

    open spec fn add_req(self, rhs: Cube) -> bool {
        point_fits(point_add(self@, rhs@))
    }

    open spec fn add_spec(self, rhs: Cube) -> Cube {
        Cube::at(point_add(self@, rhs@))
    }
}

impl Sub for Cube {
    type Output = Cube;

    /// Subtracts one coordinate from another like vectors.
    fn sub(self, rhs: Cube) -> (r: Cube)
        ensures
            r@ == point_sub(self@, rhs@),
            self.valid() && rhs.valid() ==> r.valid(),
    {
        Cube { x: self.x - rhs.x, y: self.y - rhs.y, z: self.z - rhs.z }
    }
}

impl SubSpecImpl for Cube {
    open spec fn obeys_sub_spec() -> bool {
        true
    }

    open spec fn sub_req(self, rhs: Cube) -> bool {
        point_fits(point_sub(self@, rhs@))
    }

    open spec fn sub_spec(self, rhs: Cube) -> Cube {
        Cube::at(point_sub(self@, rhs@))
    }
}

impl Mul<i32> for Cube {
    type Output = Cube;

    /// Multiplies a coordinate by a scalar, like a vector.
    fn mul(self, n: i32) -> (r: Cube)
        ensures
            r@ == point_scale(self@, n as int),
            self.valid() ==> r.valid(),
    {
        proof {
            assert(self.valid() ==> self.x * n + self.y * n + self.z * n == 0) by (nonlinear_arith)
                requires
                    self.valid() ==> self.x + self.y + self.z == 0,
            ;
        }
        Cube { x: self.x * n, y: self.y * n, z: self.z * n }
    }
}

impl MulSpecImpl<i32> for Cube {
    open spec fn obeys_mul_spec() -> bool {
        true
    }

    open spec fn mul_req(self, n: i32) -> bool {
        point_fits(point_scale(self@, n as int))
    }

    open spec fn mul_spec(self, n: i32) -> Cube {
        Cube::at(point_scale(self@, n as int))
    }
}

impl Mul<Cube> for i32 {
    type Output = Cube;

    /// Multiplies a coordinate by a scalar written on the left.
    fn mul(self, coord: Cube) -> (r: Cube)
        ensures
            r@ == point_scale(coord@, self as int),
            coord.valid() ==> r.valid(),
    {
        coord * self
    }
}

impl MulSpecImpl<Cube> for i32 {
    open spec fn obeys_mul_spec() -> bool {
        true
    }

    open spec fn mul_req(self, coord: Cube) -> bool {
        point_fits(point_scale(coord@, self as int))
    }

    open spec fn mul_spec(self, coord: Cube) -> Cube {
        Cube::at(point_scale(coord@, self as int))
    }
}

/// The quotient of each component of `p` by `n`, rounded toward zero.
pub open spec fn point_quotient(p: Point, n: int) -> Point {
    (trunc_div(p.0, n), trunc_div(p.1, n), trunc_div(p.2, n))
}

/// What dividing the coordinate at `p` by `n` gives: the component-wise
/// quotient where that is a cube coordinate again.
pub open spec fn cube_quotient(p: Point, n: int) -> CoordResult<Cube> {
    if n == 0 {
        Err(CoordError::DivisionByZero)
    } else if on_plane(point_quotient(p, n)) && point_fits(point_quotient(p, n)) {
        Ok(Cube::at(point_quotient(p, n)))
    } else {
        Err(CoordError::InvalidCoordinate)
    }
}

impl Div<i32> for Cube {
    type Output = CoordResult<Cube>;

    /// Divides each component by a scalar, rounding toward zero. Fails with
    /// `DivisionByZero` for a zero divisor, and with `InvalidCoordinate`
    /// where the rounded quotients no longer sum to zero.
    fn div(self, n: i32) -> (r: CoordResult<Cube>)
        ensures
            r == cube_quotient(self@, n as int),
            r.is_ok() ==> r.unwrap().valid() && r.unwrap()@ == point_quotient(self@, n as int),
    {
        if n == 0 {
            return Err(CoordError::DivisionByZero);
        }
        match (self.x.checked_div(n), self.y.checked_div(n), self.z.checked_div(n)) {
            (Some(x), Some(y), Some(z)) => Cube::from_coords(x, y, z),
            _ => Err(CoordError::InvalidCoordinate),
        }
    }
}

impl DivSpecImpl<i32> for Cube {
    open spec fn obeys_div_spec() -> bool {
        true
    }

    open spec fn div_req(self, n: i32) -> bool {
        true
    }

    open spec fn div_spec(self, n: i32) -> CoordResult<Cube> {
        cube_quotient(self@, n as int)
    }
}

impl Cube {
    /// The coordinate that stands for `p`, where `p` has `i32` components.
    pub closed spec fn at(p: Point) -> Cube {
        Cube { x: p.0 as i32, y: p.1 as i32, z: p.2 as i32 }
    }

    /// The constraint of the coordinate system: the components sum to zero.
    pub open spec fn valid(self) -> bool {
        on_plane(self@)
    }

    /// `at` and the view are inverse to each other.
    pub broadcast proof fn lemma_at_view(p: Point)
        requires
            point_fits(p),
        ensures
            (#[trigger] Cube::at(p))@ == p,
    {
    }

    /// The components of a `Cube` are `i32` values, and the coordinate is the
    /// one that stands for its view.
    pub broadcast proof fn lemma_view_fits(self)
        ensures
            point_fits(#[trigger] self@),
            Cube::at(self@) == self,
    {
    }

    /// The origin, `(0, 0, 0)`.
    pub fn origin() -> (r: Cube)
        ensures
            r@ == (0int, 0int, 0int),
            r.valid(),
    {
        Cube { x: 0, y: 0, z: 0 }
    }

    /// Attempts to create a `Cube` from three `i32` values. Succeeds exactly
    /// when `x + y + z == 0`.
    pub fn from_coords(x: i32, y: i32, z: i32) -> (r: CoordResult<Cube>)
        ensures
            r == (if on_plane((x as int, y as int, z as int)) {
                Ok(Cube::at((x as int, y as int, z as int)))
            } else {
                Err(CoordError::InvalidCoordinate)
            }),
            r.is_ok() ==> r.unwrap()@ == (x as int, y as int, z as int) && r.unwrap().valid(),
    {
        if x as i64 + y as i64 + z as i64 == 0 {
            Ok(Cube { x, y, z })
        } else {
            Err(CoordError::InvalidCoordinate)
        }
    }

    /// Creates the `Cube` with the given `x` and `y`; `z` is derived from the
    /// constraint.
    pub fn from_xy(x: i32, y: i32) -> (r: Cube)
        requires
            fits_i32(-x - y),
        ensures
            r@ == (x as int, y as int, -x - y),
            r.valid(),
    {
        Cube { x, y, z: (0 - x as i64 - y as i64) as i32 }
    }

    /// Creates a `Cube` from three `i32` values that obey the constraint.
    pub fn force_from_coords(x: i32, y: i32, z: i32) -> (r: Cube)
        requires
            x + y + z == 0,
        ensures
            r@ == (x as int, y as int, z as int),
            r.valid(),
    {
        Cube { x, y, z }
    }

    /// Attempts to create a `Cube` from a tuple of three `i32` values, as
    /// `from_coords` does.
    pub fn from_tuple(t: (i32, i32, i32)) -> (r: CoordResult<Cube>)
        ensures
            r == (if on_plane((t.0 as int, t.1 as int, t.2 as int)) {
                Ok(Cube::at((t.0 as int, t.1 as int, t.2 as int)))
            } else {
                Err(CoordError::InvalidCoordinate)
            }),
            r.is_ok() ==> r.unwrap()@ == (t.0 as int, t.1 as int, t.2 as int)
                && r.unwrap().valid(),
    {
        Cube::from_coords(t.0, t.1, t.2)
    }

    /// The cube coordinate of an axial coordinate: `x` is `q`, `z` is `r`,
    /// and `y` is derived from the constraint.
    pub fn from_axial(coord: Axial) -> (r: Cube)
        requires
            fits_i32(-coord.q - coord.r),
        ensures
            r@ == coord@,
            r.valid(),
    {
        Cube { x: coord.q, y: (0 - coord.q as i64 - coord.r as i64) as i32, z: coord.r }
    }

    /// Replaces the contents of a coordinate. `x` and `y` are taken as they
    /// are and `z` is derived from them, so the third argument is ignored.
    pub fn set_coords(&mut self, x: i32, y: i32, _z: i32)
        requires
            fits_i32(-x - y),
        ensures
            final(self)@ == (x as int, y as int, -x - y),
            final(self).valid(),
    {
        self.x = x;
        self.y = y;
        self.z = (0 - x as i64 - y as i64) as i32;
    }

    /// The first component.
    pub fn x(self) -> (r: i32)
        ensures
            r == self@.0,
    {
        self.x
    }

    /// The second component.
    pub fn y(self) -> (r: i32)
        ensures
            r == self@.1,
    {
        self.y
    }

    /// The third component.
    pub fn z(self) -> (r: i32)
        ensures
            r == self@.2,
    {
        self.z
    }

    /// The three components as a tuple.
    pub fn to_tuple(self) -> (r: (i32, i32, i32))
        ensures
            r.0 == self@.0,
            r.1 == self@.1,
            r.2 == self@.2,
    {
        (self.x, self.y, self.z)
    }

    /// The coordinate `n` steps from `self` toward neighbor slot `side`.
    fn stepped(self, side: usize, n: i32) -> (r: Cube)
        requires
            self.valid(),
            point_fits(point_add(self@, scaled_step(side as int, n as int))),
            n > i32::MIN,
        ensures
            r@ == point_add(self@, scaled_step(side as int, n as int)),
            r.valid(),
    {
        let k: usize = side % 6;
        if k == 0 {
            Cube { x: self.x + n, y: self.y, z: self.z - n }
        } else if k == 1 {
            Cube { x: self.x + n, y: self.y - n, z: self.z }
        } else if k == 2 {
            Cube { x: self.x, y: self.y - n, z: self.z + n }
        } else if k == 3 {
            Cube { x: self.x - n, y: self.y, z: self.z + n }
        } else if k == 4 {
            Cube { x: self.x - n, y: self.y + n, z: self.z }
        } else {
            Cube { x: self.x, y: self.y + n, z: self.z - n }
        }
    }

    /// Calculates the requested neighbor. An index of 0 gives the
    /// northeastern neighbor; indices increase clockwise and wrap around.
    pub fn neighbor(self, index: usize) -> (r: Cube)
        requires
            self.valid(),
            point_fits(neighbor_of(self@, index as int)),
        ensures
            r@ == neighbor_of(self@, index as int),
            r.valid(),
    {
        self.stepped(index, 1)
    }

    /// The six neighbors, beginning with the northeastern one and proceeding
    /// clockwise.
    pub fn neighbors(self) -> (r: Vec<Cube>)
        requires
            self.valid(),
            reach_fits(self@, 1),
        ensures
            r@.len() == 6,
            forall|i: int| 0 <= i < 6 ==> (#[trigger] r@[i])@ == neighbor_of(self@, i),
            all_valid(r@),
    {
        let mut coords: Vec<Cube> = Vec::new();
        let mut index: usize = 0;
        while index < 6
            invariant
                self.valid(),
                reach_fits(self@, 1),
                index <= 6,
                coords@.len() == index,
                forall|i: int| 0 <= i < index ==> (#[trigger] coords@[i])@ == neighbor_of(self@, i),
                all_valid(coords@),
            decreases 6 - index,
        {
            coords.push(self.neighbor(index));
            index += 1;
        }
        coords
    }

    /// Calculates the requested diagonal. An index of 0 gives the
    /// southeastern diagonal; indices increase clockwise and wrap around.
    pub fn diagonal(self, index: usize) -> (r: Cube)
        requires
            self.valid(),
            point_fits(diagonal_of(self@, index as int)),
        ensures
            r@ == diagonal_of(self@, index as int),
            r.valid(),
    {
        let k: usize = index % 6;
        if k == 0 {
            Cube { x: self.x + 1, y: self.y - 2, z: self.z + 1 }
        } else if k == 1 {
            Cube { x: self.x - 1, y: self.y - 1, z: self.z + 2 }
        } else if k == 2 {
            Cube { x: self.x - 2, y: self.y + 1, z: self.z + 1 }
        } else if k == 3 {
            Cube { x: self.x - 1, y: self.y + 2, z: self.z - 1 }
        } else if k == 4 {
            Cube { x: self.x + 1, y: self.y + 1, z: self.z - 2 }
        } else {
            Cube { x: self.x + 2, y: self.y - 1, z: self.z - 1 }
        }
    }

    /// The six diagonals, beginning with the southeastern one and proceeding
    /// clockwise.
    pub fn diagonals(self) -> (r: Vec<Cube>)
        requires
            self.valid(),
            reach_fits(self@, 2),
        ensures
            r@.len() == 6,
            forall|i: int| 0 <= i < 6 ==> (#[trigger] r@[i])@ == diagonal_of(self@, i),
            all_valid(r@),
    {
        let mut coords: Vec<Cube> = Vec::new();
        let mut index: usize = 0;
        while index < 6
            invariant
                self.valid(),
                reach_fits(self@, 2),
                index <= 6,
                coords@.len() == index,
                forall|i: int| 0 <= i < index ==> (#[trigger] coords@[i])@ == diagonal_of(self@, i),
                all_valid(coords@),
            decreases 6 - index,
        {
            coords.push(self.diagonal(index));
            index += 1;
        }
        coords
    }

    /// The number of steps between two coordinates: the largest absolute
    /// difference over the three axes.
    pub fn dist(self, other: Cube) -> (r: i32)
        requires
            point_dist(self@, other@) <= i32::MAX,
        ensures
            r == point_dist(self@, other@),
    {
        let d: i64 = steps_between(
            self.x as i64,
            self.y as i64,
            self.z as i64,
            other.x as i64,
            other.y as i64,
            other.z as i64,
        );
        d as i32
    }

    /// Rotates `self` clockwise about `pivot` by `num_turns` times 60
    /// degrees. Six turns are a full circle, so the turns count modulo 6.
    pub fn rotate_cw(self, pivot: Cube, num_turns: u32) -> (r: Cube)
        requires
            self.valid(),
            pivot.valid(),
            point_fits(
                point_add(pivot@, turns_cw(point_sub(self@, pivot@), num_turns as int)),
            ),
        ensures
            r@ == point_add(pivot@, turns_cw(point_sub(self@, pivot@), num_turns as int)),
            r.valid(),
    {
        let mut vx: i64 = self.x as i64 - pivot.x as i64;
        let mut vy: i64 = self.y as i64 - pivot.y as i64;
        let mut vz: i64 = self.z as i64 - pivot.z as i64;
        let turns: u32 = num_turns % 6;
        let ghost start = point_sub(self@, pivot@);
        let mut done: u32 = 0;
        proof {
            lemma_turns(start, 0);
            lemma_same_turns(start, num_turns as int, turns as int);
        }
        while done < turns
            invariant
                done <= turns < 6,
                (vx as int, vy as int, vz as int) == turns_cw(start, done as int),
                -0x1_0000_0000 < vx < 0x1_0000_0000,
                -0x1_0000_0000 < vy < 0x1_0000_0000,
                -0x1_0000_0000 < vz < 0x1_0000_0000,
                vx + vy + vz == 0,
            decreases turns - done,
        {
            proof {
                lemma_turns(start, done as int);
            }
            let nx: i64 = -vz;
            let ny: i64 = -vx;
            let nz: i64 = -vy;
            vx = nx;
            vy = ny;
            vz = nz;
            done += 1;
        }
        Cube {
            x: (pivot.x as i64 + vx) as i32,
            y: (pivot.y as i64 + vy) as i32,
            z: (pivot.z as i64 + vz) as i32,
        }
    }

    /// Rotates `self` counterclockwise about `pivot` by `num_turns` times 60
    /// degrees. Six turns are a full circle, so the turns count modulo 6.
    pub fn rotate_cc(self, pivot: Cube, num_turns: u32) -> (r: Cube)
        requires
            self.valid(),
            pivot.valid(),
            point_fits(
                point_add(pivot@, turns_cc(point_sub(self@, pivot@), num_turns as int)),
            ),
        ensures
            r@ == point_add(pivot@, turns_cc(point_sub(self@, pivot@), num_turns as int)),
            r.valid(),
    {
        let mut vx: i64 = self.x as i64 - pivot.x as i64;
        let mut vy: i64 = self.y as i64 - pivot.y as i64;
        let mut vz: i64 = self.z as i64 - pivot.z as i64;
        let turns: u32 = num_turns % 6;
        let ghost start = point_sub(self@, pivot@);
        let mut done: u32 = 0;
        proof {
            lemma_turns(start, 0);
            lemma_same_turns(start, num_turns as int, turns as int);
        }
        while done < turns
            invariant
                done <= turns < 6,
                (vx as int, vy as int, vz as int) == turns_cc(start, done as int),
                -0x1_0000_0000 < vx < 0x1_0000_0000,
                -0x1_0000_0000 < vy < 0x1_0000_0000,
                -0x1_0000_0000 < vz < 0x1_0000_0000,
                vx + vy + vz == 0,
            decreases turns - done,
        {
            proof {
                lemma_turns(start, done as int);
            }
            let nx: i64 = -vy;
            let ny: i64 = -vz;
            let nz: i64 = -vx;
            vx = nx;
            vy = ny;
            vz = nz;
            done += 1;
        }
        Cube {
            x: (pivot.x as i64 + vx) as i32,
            y: (pivot.y as i64 + vy) as i32,
            z: (pivot.z as i64 + vz) as i32,
        }
    }

    /// The hexes at exactly `radius` steps from `self`: `self` alone for
    /// radius 0, else `6 * radius` hexes in a clockwise walk that starts
    /// `radius` steps to the northeast.
    pub fn ring(self, radius: u32) -> (r: Vec<Cube>)
        requires
            self.valid(),
            reach_fits(self@, radius as int),
            6 * radius <= usize::MAX,
        ensures
            cube_views(r@) == ring_points(self@, radius as nat),
            all_valid(r@),
    {
        let mut coords: Vec<Cube> = Vec::new();
        if radius == 0 {
            coords.push(self);
            return coords;
        }
        let n: i32 = radius as i32;
        let mut side: usize = 0;
        while side < 6
            invariant
                self.valid(),
                reach_fits(self@, radius as int),
                6 * radius <= usize::MAX,
                0 < radius,
                n == radius,
                side <= 6,
                coords@.len() == side * radius,
                forall|k: int|
                    0 <= k < coords@.len() ==> (#[trigger] coords@[k])@ == ring_point(
                        self@,
                        radius as int,
                        k,
                    ),
                all_valid(coords@),
            decreases 6 - side,
        {
            let mut next: Cube = self.stepped(side, n);
            let mut step: u32 = 0;
            while step < radius
                invariant
                    self.valid(),
                    reach_fits(self@, radius as int),
                    6 * radius <= usize::MAX,
                    0 < radius,
                    n == radius,
                    side < 6,
                    step <= radius,
                    next.valid(),
                    next@ == point_add(
                        point_add(self@, scaled_step(side as int, radius as int)),
                        scaled_step(side + 2, step as int),
                    ),
                    coords@.len() == side * radius + step,
                    forall|k: int|
                        0 <= k < coords@.len() ==> (#[trigger] coords@[k])@ == ring_point(
                            self@,
                            radius as int,
                            k,
                        ),
                    all_valid(coords@),
                decreases radius - step,
            {
                proof {
                    let k = coords@.len() as int;
                    vstd::arithmetic::div_mod::lemma_fundamental_div_mod_converse(
                        k,
                        radius as int,
                        side as int,
                        step as int,
                    );
                    assert(side * radius + radius <= 6 * radius) by (nonlinear_arith)
                        requires
                            side < 6,
                            radius > 0,
                    ;
                }
                coords.push(next);
                next = next.stepped(side + 2, 1);
                step += 1;
            }
            proof {
                assert(side * radius + radius == (side + 1) * radius) by (nonlinear_arith);
            }
            side += 1;
        }
        coords
    }

    /// The rings of radius 0 up to `radius` around `self`, one after another:
    /// every hex within `radius` steps, `self` first.
    pub fn spiral(self, radius: u32) -> (r: Vec<Cube>)
        requires
            self.valid(),
            reach_fits(self@, radius as int),
            spiral_len(radius as int) <= usize::MAX,
        ensures
            cube_views(r@) == spiral_points(self@, radius as nat),
            all_valid(r@),
            r@.len() == spiral_len(radius as int),
    {
        let mut coords: Vec<Cube> = self.ring(0);
        let mut done: u32 = 0;
        proof {
            lemma_spiral_len(self@, 0);
        }
        while done < radius
            invariant
                self.valid(),
                reach_fits(self@, radius as int),
                spiral_len(radius as int) <= usize::MAX,
                done <= radius,
                cube_views(coords@) == spiral_points(self@, done as nat),
                all_valid(coords@),
                coords@.len() == spiral_len(done as int),
            decreases radius - done,
        {
            proof {
                lemma_spiral_len(self@, (done + 1) as nat);
                lemma_spiral_len(self@, radius as nat);
                assert(spiral_len(done + 1) <= spiral_len(radius as int)) by (nonlinear_arith)
                    requires
                        0 <= done + 1 <= radius,
                ;
                assert(6 * (done + 1) <= spiral_len(done + 1)) by (nonlinear_arith)
                    requires
                        0 <= done,
                ;
            }
            let mut more: Vec<Cube> = self.ring(done + 1);
            coords.append(&mut more);
            done += 1;
        }
        coords
    }
}

/// The spiral of radius `r` holds `1 + 3r(r + 1)` hexes: one for the center
/// and `6k` for each ring of radius `k >= 1`.
pub proof fn lemma_spiral_len(center: Point, radius: nat)
    ensures
        ring_points(center, radius).len() == (if radius == 0 { 1 } else { 6 * radius }),
        spiral_points(center, radius).len() == spiral_len(radius as int),
    decreases radius,
{
    if radius > 0 {
        lemma_spiral_len(center, (radius - 1) as nat);
        assert(spiral_len(radius - 1) + 6 * radius == spiral_len(radius as int))
            by (nonlinear_arith);
    }
}

/// Stepping to the neighbor in slot `i` and from there to the neighbor in
/// the opposite slot, `(i + 3) % 6`, leads back to where one started.
pub proof fn lemma_neighbor_and_back(c: Cube, i: int)
    requires
        c.valid(),
        0 <= i < 6,
        point_fits(neighbor_of(c@, i)),
    ensures
        Cube::at(neighbor_of(c@, i)).valid(),
        neighbor_of(Cube::at(neighbor_of(c@, i))@, (i + 3) % 6) == c@,
        Cube::at(neighbor_of(Cube::at(neighbor_of(c@, i))@, (i + 3) % 6)) == c,
{
    Cube::lemma_at_view(neighbor_of(c@, i));
    c.lemma_view_fits();
}

/// The distance from `a` to `b` is the distance from `b` to `a`.
pub proof fn lemma_dist_symmetric(a: Cube, b: Cube)
    ensures
        point_dist(a@, b@) == point_dist(b@, a@),
{
}

/// The distance between two coordinates is never negative, and it is zero
/// exactly if they are the same coordinate.
pub proof fn lemma_dist_zero(a: Cube, b: Cube)
    ensures
        point_dist(a@, b@) >= 0,
        point_dist(a@, b@) == 0 <==> a == b,
{
    a.lemma_view_fits();
    b.lemma_view_fits();
}

/// The triangle inequality: the way from `a` to `c` is no longer than the
/// way from `a` to `b` and on to `c`.
pub proof fn lemma_dist_triangle(a: Cube, b: Cube, c: Cube)
    ensures
        point_dist(a@, c@) <= point_dist(a@, b@) + point_dist(b@, c@),
{
}

/// Every hex of the ring of radius `radius` around `center` is a point of
/// the plane at exactly `radius` steps from `center`.
pub proof fn lemma_ring_distance(center: Point, radius: nat, k: int)
    requires
        on_plane(center),
        0 <= k < ring_points(center, radius).len(),
    ensures
        on_plane(ring_points(center, radius)[k]),
        point_dist(center, ring_points(center, radius)[k]) == radius,
{
    if radius > 0 {
        let side = k / (radius as int);
        let step = k % (radius as int);
        vstd::arithmetic::div_mod::lemma_fundamental_div_mod(k, radius as int);
        assert(0 <= side < 6) by (nonlinear_arith)
            requires
                0 <= k < 6 * radius,
                radius > 0,
                k == radius * side + step,
                0 <= step < radius,
        ;
    }
}

/// Every point of the plane at exactly `radius` steps from `center` is a hex
/// of the ring of that radius around `center`.
pub proof fn lemma_ring_complete(center: Point, radius: nat, p: Point)
    requires
        on_plane(center),
        on_plane(p),
        point_dist(center, p) == radius,
    ensures
        ring_points(center, radius).contains(p),
{
    let r = radius as int;
    let d = point_sub(p, center);
    if radius == 0 {
        assert(ring_points(center, radius)[0] == p);
    } else {
        let (side, step): (int, int) = if d.0 == r && d.1 > -r {
            (0, -d.1)
        } else if d.1 == -r && d.0 > 0 {
            (1, r - d.0)
        } else if d.2 == r && d.0 > -r {
            (2, -d.0)
        } else if d.0 == -r && d.1 < r {
            (3, d.1)
        } else if d.1 == r && d.0 < 0 {
            (4, d.0 + r)
        } else {
            (5, d.0)
        };
        let k = side * r + step;
        vstd::arithmetic::div_mod::lemma_fundamental_div_mod_converse(k, r, side, step);
        assert(0 <= k < 6 * r) by (nonlinear_arith)
            requires
                0 <= side < 6,
                0 <= step < r,
                k == side * r + step,
        ;
        assert(ring_points(center, radius)[k] == p);
    }
}

/// The ring of radius `radius` around `center` holds exactly the points of
/// the plane at `radius` steps from `center`.
pub proof fn lemma_ring_members(center: Point, radius: nat, p: Point)
    requires
        on_plane(center),
    ensures
        ring_points(center, radius).contains(p) <==> on_plane(p) && point_dist(center, p)
            == radius,
{
    let ring = ring_points(center, radius);
    if ring.contains(p) {
        let k = choose|k: int| 0 <= k < ring.len() && ring[k] == p;
        lemma_ring_distance(center, radius, k);
    }
    if on_plane(p) && point_dist(center, p) == radius {
        lemma_ring_complete(center, radius, p);
    }
}

/// The spiral of radius `radius` around `center` holds exactly the points of
/// the plane within `radius` steps of `center`.
pub proof fn lemma_spiral_members(center: Point, radius: nat, p: Point)
    requires
        on_plane(center),
    ensures
        spiral_points(center, radius).contains(p) <==> on_plane(p) && point_dist(center, p)
            <= radius,
    decreases radius,
{
    lemma_ring_members(center, radius, p);
    if radius > 0 {
        lemma_spiral_members(center, (radius - 1) as nat, p);
        let inner = spiral_points(center, (radius - 1) as nat);
        let ring = ring_points(center, radius);
        let all = spiral_points(center, radius);
        if inner.contains(p) {
            let i = choose|i: int| 0 <= i < inner.len() && inner[i] == p;
            assert(all[i] == p);
        }
        if ring.contains(p) {
            let i = choose|i: int| 0 <= i < ring.len() && ring[i] == p;
            assert(all[inner.len() + i] == p);
        }
        if all.contains(p) {
            let i = choose|i: int| 0 <= i < all.len() && all[i] == p;
            if i < inner.len() {
                assert(inner[i] == p);
            } else {
                assert(ring[i - inner.len()] == p);
            }
        }
    }
}

/// No hex occurs twice in a ring.
pub proof fn lemma_ring_distinct(center: Point, radius: nat, j: int, k: int)
    requires
        0 <= j < k < ring_points(center, radius).len(),
    ensures
        ring_points(center, radius)[j] != ring_points(center, radius)[k],
{
    let r = radius as int;
    if radius > 0 {
        vstd::arithmetic::div_mod::lemma_fundamental_div_mod(j, r);
        vstd::arithmetic::div_mod::lemma_fundamental_div_mod(k, r);
        let sj = j / r;
        let sk = k / r;
        assert(0 <= sj < 6 && 0 <= sk < 6) by (nonlinear_arith)
            requires
                0 <= j < 6 * r,
                0 <= k < 6 * r,
                r > 0,
                j == r * sj + j % r,
                k == r * sk + k % r,
                0 <= j % r < r,
                0 <= k % r < r,
        ;
        if sj == sk {
            assert(j % r != k % r);
        }
    }
}

/// No hex occurs twice in a spiral.
pub proof fn lemma_spiral_distinct(center: Point, radius: nat, j: int, k: int)
    requires
        on_plane(center),
        0 <= j < k < spiral_points(center, radius).len(),
    ensures
        spiral_points(center, radius)[j] != spiral_points(center, radius)[k],
    decreases radius,
{
    if radius > 0 {
        let inner = spiral_points(center, (radius - 1) as nat);
        let ring = ring_points(center, radius);
        if k < inner.len() {
            lemma_spiral_distinct(center, (radius - 1) as nat, j, k);
        } else if j >= inner.len() {
            lemma_ring_distinct(center, radius, j - inner.len(), k - inner.len());
        } else {
            lemma_spiral_members(center, (radius - 1) as nat, inner[j]);
            lemma_ring_members(center, radius, ring[k - inner.len()]);
        }
    }
}

/// Numbers of turns that differ by full circles turn a vector alike.
pub proof fn lemma_same_turns(v: Point, m: int, n: int)
    requires
        m % 6 == n % 6,
    ensures
        turns_cw(v, m) == turns_cw(v, n),
        turns_cc(v, m) == turns_cc(v, n),
{
}

/// Each further turn is one turn more, six turns are a full circle, and a
/// turn one way undoes a turn the other way.
pub proof fn lemma_turns(v: Point, n: int)
    requires
        0 <= n,
    ensures
        turns_cw(v, 0) == v,
        turns_cc(v, 0) == v,
        turns_cw(v, n + 1) == turn_cw(turns_cw(v, n)),
        turns_cc(v, n + 1) == turn_cc(turns_cc(v, n)),
        turns_cw(v, n + 6) == turns_cw(v, n),
        turns_cc(v, n + 6) == turns_cc(v, n),
        turns_cc(turns_cw(v, n), n) == v,
        turns_cw(turns_cc(v, n), n) == v,
{
}

} // verus!
