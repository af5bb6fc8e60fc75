//! Double coordinates.

use vstd::prelude::*;
use vstd::std_specs::ops::{AddSpecImpl, SubSpecImpl, MulSpecImpl};
use std::ops::{Add, Sub, Mul};
use super::{
    CoordError, CoordResult, Point, fits_i32, point_fits, point_dist, neighbor_of, half_floor,
    is_odd,
};
use super::cube::Cube;

verus! {

/// Double coordinates address a hex by column and row of a rectangular
/// layout whose steps are doubled along one axis: the row in a flat-topped
/// grid, the column in a sharp-topped one.
///
/// For every double coordinate `(col, row)`, `col + row` is even. The fields
/// are private, so a value can only be made through functions that keep the
/// constraint.
#[derive(Clone, Copy, Debug, Default, Eq, Hash, Ord, PartialEq, PartialOrd, Structural)]
pub struct Double {
    col: i32,
    row: i32,
}

impl View for Double {
    type V = (int, int);

    /// The column and the row.
    closed spec fn view(&self) -> (int, int) {
        (self.col as int, self.row as int)
    }
}

/// Whether `(col, row)` satisfies the constraint of the coordinate system.
pub open spec fn pair_even(p: (int, int)) -> bool {
    (p.0 + p.1) % 2 == 0
}

/// Whether both numbers of the pair are `i32` values.
pub open spec fn pair_fits(p: (int, int)) -> bool {
    fits_i32(p.0) && fits_i32(p.1)
}

/// The point of `(col, row)` in a flat-topped layout.
pub open spec fn flat_point(p: (int, int)) -> Point {
    (p.0, -p.0 - (p.1 - p.0) / 2, (p.1 - p.0) / 2)
}

/// The point of `(col, row)` in a sharp-topped layout.
pub open spec fn sharp_point(p: (int, int)) -> Point {
    ((p.0 - p.1) / 2, -((p.0 - p.1) / 2) - p.1, p.1)
}

impl Add for Double {
    type Output = Double;

    /// Adds two coordinates like vectors.
    fn add(self, rhs: Double) -> (r: Double)
        ensures
            r@ == (self@.0 + rhs@.0, self@.1 + rhs@.1),
            self.valid() && rhs.valid() ==> r.valid(),
    {
        Double { col: self.col + rhs.col, row: self.row + rhs.row }
    }
}

impl AddSpecImpl for Double {
    open spec fn obeys_add_spec() -> bool {
        true
    }

    open spec fn add_req(self, rhs: Double) -> bool {
        pair_fits((self@.0 + rhs@.0, self@.1 + rhs@.1))
    }

    open spec fn add_spec(self, rhs: Double) -> Double {
        Double::at((self@.0 + rhs@.0, self@.1 + rhs@.1))
    }
}

impl Sub for Double {
    type Output = Double;

    /// Subtracts one coordinate from another like vectors.
    fn sub(self, rhs: Double) -> (r: Double)
        ensures
            r@ == (self@.0 - rhs@.0, self@.1 - rhs@.1),
            self.valid() && rhs.valid() ==> r.valid(),
    {
        Double { col: self.col - rhs.col, row: self.row - rhs.row }
    }
}

impl SubSpecImpl for Double {
    open spec fn obeys_sub_spec() -> bool {
        true
    }

    open spec fn sub_req(self, rhs: Double) -> bool {
        pair_fits((self@.0 - rhs@.0, self@.1 - rhs@.1))
    }

    open spec fn sub_spec(self, rhs: Double) -> Double {
        Double::at((self@.0 - rhs@.0, self@.1 - rhs@.1))
    }
}

impl Mul<i32> for Double {
    type Output = Double;

    /// Multiplies a coordinate by a scalar, like a vector.
    fn mul(self, n: i32) -> (r: Double)
        ensures
            r@ == (self@.0 * n, self@.1 * n),
            self.valid() ==> r.valid(),
    {
        proof {
            if self.valid() {
                let k = (self.col + self.row) / 2;
                assert(self.col * n + self.row * n == 2 * (k * n)) by (nonlinear_arith)
                    requires
                        self.col + self.row == 2 * k,
                ;
            }
        }
        Double { col: self.col * n, row: self.row * n }
    }
}

impl MulSpecImpl<i32> for Double {
    open spec fn obeys_mul_spec() -> bool {
        true
    }

    open spec fn mul_req(self, n: i32) -> bool {
        pair_fits((self@.0 * n, self@.1 * n))
    }

    open spec fn mul_spec(self, n: i32) -> Double {
        Double::at((self@.0 * n, self@.1 * n))
    }
}

impl Mul<Double> for i32 {
    type Output = Double;

    /// Multiplies a coordinate by a scalar written on the left.
    fn mul(self, coord: Double) -> (r: Double)
        ensures
            r@ == (coord@.0 * self, coord@.1 * self),
            coord.valid() ==> r.valid(),
    {
        coord * self
    }
}

impl MulSpecImpl<Double> for i32 {
    open spec fn obeys_mul_spec() -> bool {
        true
    }

    open spec fn mul_req(self, coord: Double) -> bool {
        pair_fits((coord@.0 * self, coord@.1 * self))
    }

    open spec fn mul_spec(self, coord: Double) -> Double {
        Double::at((coord@.0 * self, coord@.1 * self))
    }
}

impl Double {
    /// The coordinate that stands for `p`, where `p` holds `i32` values.
    pub closed spec fn at(p: (int, int)) -> Double {
        Double { col: p.0 as i32, row: p.1 as i32 }
    }

    /// The constraint of the coordinate system: column and row sum to an
    /// even number.
    pub open spec fn valid(self) -> bool {
        pair_even(self@)
    }

    /// `at` and the view are inverse to each other.
    pub broadcast proof fn lemma_at_view(p: (int, int))
        requires
            pair_fits(p),
        ensures
            (#[trigger] Double::at(p))@ == p,
    {
    }

    /// Column and row of a `Double` are `i32` values, and the coordinate is
    /// the one that stands for its view.
    pub broadcast proof fn lemma_view_fits(self)
        ensures
            pair_fits(#[trigger] self@),
            Double::at(self@) == self,
    {
    }

    /// The origin, `(0, 0)`.
    pub fn origin() -> (r: Double)
        ensures
            r@ == (0int, 0int),
            r.valid(),
    {
        Double { col: 0, row: 0 }
    }

    /// Attempts to create a `Double` from a column and a row. Succeeds
    /// exactly when `col + row` is even.
    pub fn from_coords(col: i32, row: i32) -> (r: CoordResult<Double>)
        ensures
            r == (if pair_even((col as int, row as int)) {
                Ok(Double::at((col as int, row as int)))
            } else {
                Err(CoordError::InvalidCoordinate)
            }),
            r.is_ok() ==> r.unwrap()@ == (col as int, row as int) && r.unwrap().valid(),
    {
        if is_odd(col as i64 + row as i64) {
            Err(CoordError::InvalidCoordinate)
        } else {
            Ok(Double { col, row })
        }
    }

    /// Creates a `Double` from a column and a row that obey the constraint.
    pub fn force_from_coords(col: i32, row: i32) -> (r: Double)
        requires
            pair_even((col as int, row as int)),
        ensures
            r@ == (col as int, row as int),
            r.valid(),
    {
        Double { col, row }
    }

    /// Attempts to create a `Double` from a tuple, as `from_coords` does.
    pub fn from_tuple(t: (i32, i32)) -> (r: CoordResult<Double>)
        ensures
            r == (if pair_even((t.0 as int, t.1 as int)) {
                Ok(Double::at((t.0 as int, t.1 as int)))
            } else {
                Err(CoordError::InvalidCoordinate)
            }),
            r.is_ok() ==> r.unwrap()@ == (t.0 as int, t.1 as int) && r.unwrap().valid(),
    {
        Double::from_coords(t.0, t.1)
    }

    /// The column.
    pub fn col(&self) -> (r: i32)
        ensures
            r == self@.0,
    {
        self.col
    }

    /// The row.
    pub fn row(&self) -> (r: i32)
        ensures
            r == self@.1,
    {
        self.row
    }

    /// The cube coordinate of `self` in a flat-topped layout.
    pub fn flat_to_cube(self) -> (r: Cube)
        requires
            self.valid(),
            point_fits(flat_point(self@)),
        ensures
            r@ == flat_point(self@),
            r.valid(),
    {
        let x: i64 = self.col as i64;
        let z: i64 = half_floor(self.row as i64 - self.col as i64);
        Cube::force_from_coords(x as i32, (0 - x - z) as i32, z as i32)
    }

    /// The cube coordinate of `self` in a sharp-topped layout.
    pub fn sharp_to_cube(self) -> (r: Cube)
        requires
            self.valid(),
            point_fits(sharp_point(self@)),
        ensures
            r@ == sharp_point(self@),
            r.valid(),
    {
        let x: i64 = half_floor(self.col as i64 - self.row as i64);
        let z: i64 = self.row as i64;
        Cube::force_from_coords(x as i32, (0 - x - z) as i32, z as i32)
    }

    /// Adds to `self` each of six column and row steps. Each step keeps the
    /// constraint: its column and row sum to an even number.
    pub fn offset_map(self, offsets: [[i32; 2]; 6]) -> (r: Vec<Double>)
        requires
            self.valid(),
            forall|i: int|
                0 <= i < 6 ==> fits_i32(self@.0 + (#[trigger] offsets[i])[0]) && fits_i32(
                    self@.1 + offsets[i][1],
                ) && pair_even((offsets[i][0] as int, offsets[i][1] as int)),
        ensures
            r@.len() == 6,
            forall|i: int|
                0 <= i < 6 ==> (#[trigger] r@[i])@ == (
                    self@.0 + offsets[i][0],
                    self@.1 + offsets[i][1],
                ) && r@[i].valid(),
    {
        let mut neighbors: Vec<Double> = Vec::new();
        let mut side: usize = 0;
        while side < 6
            invariant
                side <= 6,
                self.valid(),
                neighbors@.len() == side,
                forall|i: int|
                    0 <= i < 6 ==> fits_i32(self@.0 + (#[trigger] offsets[i])[0]) && fits_i32(
                        self@.1 + offsets[i][1],
                    ) && pair_even((offsets[i][0] as int, offsets[i][1] as int)),
                forall|i: int|
                    0 <= i < side ==> (#[trigger] neighbors@[i])@ == (
                        self@.0 + offsets[i][0],
                        self@.1 + offsets[i][1],
                    ) && neighbors@[i].valid(),
            decreases 6 - side,
        {
            let pair: [i32; 2] = offsets[side];
            neighbors.push(Double { col: self.col + pair[0], row: self.row + pair[1] });
            side += 1;
        }
        neighbors
    }

    /// The six neighbors in a flat-topped layout, in the order of the cube
    /// neighbors: northeast first, then clockwise.
    pub fn flat_neighbors(self) -> (r: Vec<Double>)
        requires
            self.valid(),
            fits_i32(self@.0 - 1) && fits_i32(self@.0 + 1),
            fits_i32(self@.1 - 2) && fits_i32(self@.1 + 2),
        ensures
            r@.len() == 6,
            forall|i: int|
                0 <= i < 6 ==> (#[trigger] r@[i]).valid() && flat_point(r@[i]@) == neighbor_of(
                    flat_point(self@),
                    i,
                ),
    {
        let offsets: [[i32; 2]; 6] = [[1, -1], [1, 1], [0, 2], [-1, 1], [-1, -1], [0, -2]];
        self.offset_map(offsets)
    }

    /// The six neighbors in a sharp-topped layout, in the order of the cube
    /// neighbors: northeast first, then clockwise.
    pub fn sharp_neighbors(self) -> (r: Vec<Double>)
        requires
            self.valid(),
            fits_i32(self@.0 - 2) && fits_i32(self@.0 + 2),
            fits_i32(self@.1 - 1) && fits_i32(self@.1 + 1),
        ensures
            r@.len() == 6,
            forall|i: int|
                0 <= i < 6 ==> (#[trigger] r@[i]).valid() && sharp_point(r@[i]@) == neighbor_of(
                    sharp_point(self@),
                    i,
                ),
    {
        let offsets: [[i32; 2]; 6] = [[1, -1], [2, 0], [1, 1], [-1, 1], [-2, 0], [-1, -1]];
        self.offset_map(offsets)
    }

    /// The number of steps between two coordinates of a flat-topped layout.
    pub fn flat_dist(self, other: Double) -> (r: i32)
        requires
            self.valid(),
            other.valid(),
            point_dist(flat_point(self@), flat_point(other@)) <= i32::MAX,
        ensures
            r == point_dist(flat_point(self@), flat_point(other@)),
    {
        let dc: i64 = self.col as i64 - other.col as i64;
        let dr: i64 = self.row as i64 - other.row as i64;
        let x_dist: i64 = if dc < 0 { -dc } else { dc };
        let y_dist: i64 = if dr < 0 { -dr } else { dr };
        let extra: i64 = if y_dist > x_dist { (y_dist - x_dist) / 2 } else { 0 };
        (x_dist + extra) as i32
    }

    /// The number of steps between two coordinates of a sharp-topped layout.
    pub fn sharp_dist(self, other: Double) -> (r: i32)
        requires
            self.valid(),
            other.valid(),
            point_dist(sharp_point(self@), sharp_point(other@)) <= i32::MAX,
        ensures
            r == point_dist(sharp_point(self@), sharp_point(other@)),
    {
        let dc: i64 = self.col as i64 - other.col as i64;
        let dr: i64 = self.row as i64 - other.row as i64;
        let x_dist: i64 = if dc < 0 { -dc } else { dc };
        let y_dist: i64 = if dr < 0 { -dr } else { dr };
        let extra: i64 = if x_dist > y_dist { (x_dist - y_dist) / 2 } else { 0 };
        (y_dist + extra) as i32
    }
}

} // verus!
