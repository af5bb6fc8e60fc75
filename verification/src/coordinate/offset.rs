//! Offset coordinates.

use vstd::prelude::*;
use vstd::std_specs::convert::FromSpecImpl;
use super::{Point, fits_i32, point_fits, point_dist, neighbor_of, half_floor, is_odd, steps_between};
use super::cube::Cube;

verus! {

/// Offset coordinates address a hex by column and row of a rectangular
/// layout in which every other column (flat-topped hexes) or every other row
/// (sharp-topped hexes) is shoved by half a hex. Which ones are shoved, the
/// odd or the even, is a property of the grid and not of the coordinate.
#[derive(Clone, Copy, Debug, Default, Eq, Hash, Ord, PartialEq, PartialOrd, Structural)]
pub struct Offset {
    pub col: i32,
    pub row: i32,
}

/// The point of `(col, row)` in a flat-topped layout that shoves odd columns.
pub open spec fn oflat_point(col: int, row: int) -> Point {
    (col, -col - (row - col / 2), row - col / 2)
}

/// The point of `(col, row)` in a flat-topped layout that shoves even columns.
pub open spec fn eflat_point(col: int, row: int) -> Point {
    (col, -col - (row - (col + 1) / 2), row - (col + 1) / 2)
}

/// The point of `(col, row)` in a sharp-topped layout that shoves odd rows.
pub open spec fn osharp_point(col: int, row: int) -> Point {
    (col - row / 2, -(col - row / 2) - row, row)
}

/// The point of `(col, row)` in a sharp-topped layout that shoves even rows.
pub open spec fn esharp_point(col: int, row: int) -> Point {
    (col - (row + 1) / 2, -(col - (row + 1) / 2) - row, row)
}

/// Whether the columns and rows next to `(col, row)` are `i32` values.
pub open spec fn around_fits(col: int, row: int, reach: int) -> bool {
    fits_i32(col - reach) && fits_i32(col + reach) && fits_i32(row - reach) && fits_i32(
        row + reach,
    )
}

impl From<(i32, i32)> for Offset {
    /// Creates an `Offset` from `(col, row)`.
    fn from(t: (i32, i32)) -> (r: Offset) {
        Offset { col: t.0, row: t.1 }
    }
}

impl FromSpecImpl<(i32, i32)> for Offset {
    open spec fn obeys_from_spec() -> bool {
        true
    }

    open spec fn from_spec(t: (i32, i32)) -> Offset {
        Offset { col: t.0, row: t.1 }
    }
}

impl Offset {
    /// The origin, `(0, 0)`.
    pub fn origin() -> (r: Offset)
        ensures
            r == (Offset { col: 0, row: 0 }),
    {
        Offset { col: 0, row: 0 }
    }

    /// The offset coordinate `(col, row)`.
    pub fn from_coords(col: i32, row: i32) -> (r: Offset)
        ensures
            r == (Offset { col, row }),
    {
        Offset { col, row }
    }

    /// The cube coordinate of `self` in a flat-topped layout that shoves odd
    /// columns.
    pub fn oflat_to_cube(self) -> (r: Cube)
        requires
            point_fits(oflat_point(self.col as int, self.row as int)),
        ensures
            r@ == oflat_point(self.col as int, self.row as int),
            r.valid(),
    {
        let x: i64 = self.col as i64;
        let z: i64 = self.row as i64 - half_floor(self.col as i64);
        Cube::force_from_coords(x as i32, (0 - x - z) as i32, z as i32)
    }

    /// The cube coordinate of `self` in a flat-topped layout that shoves even
    /// columns.
    pub fn eflat_to_cube(self) -> (r: Cube)
        requires
            point_fits(eflat_point(self.col as int, self.row as int)),
        ensures
            r@ == eflat_point(self.col as int, self.row as int),
            r.valid(),
    {
        let x: i64 = self.col as i64;
        let z: i64 = self.row as i64 - half_floor(self.col as i64 + 1);
        Cube::force_from_coords(x as i32, (0 - x - z) as i32, z as i32)
    }

    /// The cube coordinate of `self` in a sharp-topped layout that shoves odd
    /// rows.
    pub fn osharp_to_cube(self) -> (r: Cube)
        requires
            point_fits(osharp_point(self.col as int, self.row as int)),
        ensures
            r@ == osharp_point(self.col as int, self.row as int),
            r.valid(),
    {
        let x: i64 = self.col as i64 - half_floor(self.row as i64);
        let z: i64 = self.row as i64;
        Cube::force_from_coords(x as i32, (0 - x - z) as i32, z as i32)
    }

    /// The cube coordinate of `self` in a sharp-topped layout that shoves
    /// even rows.
    pub fn esharp_to_cube(self) -> (r: Cube)
        requires
            point_fits(esharp_point(self.col as int, self.row as int)),
        ensures
            r@ == esharp_point(self.col as int, self.row as int),
            r.valid(),
    {
        let x: i64 = self.col as i64 - half_floor(self.row as i64 + 1);
        let z: i64 = self.row as i64;
        Cube::force_from_coords(x as i32, (0 - x - z) as i32, z as i32)
    }

    /// Adds to `self` each of six column and row steps. The table holds one
    /// row of steps for an even and one for an odd `parity_check`.
    pub fn offset_map(self, offsets: [[[i32; 2]; 6]; 2], parity_check: i32) -> (r: Vec<Offset>)
        requires
            forall|p: int, i: int|
                0 <= p < 2 && 0 <= i < 6 ==> fits_i32(self.col + (#[trigger] offsets[p][i])[0])
                    && fits_i32(self.row + offsets[p][i][1]),
        ensures
            r@.len() == 6,
            forall|i: int|
                0 <= i < 6 ==> (#[trigger] r@[i]).col == self.col + offsets[parity_check as int % 2][i][0]
                    && r@[i].row == self.row + offsets[parity_check as int % 2][i][1],
    {
        let parity: usize = if is_odd(parity_check as i64) { 1 } else { 0 };
        let mut neighbors: Vec<Offset> = Vec::new();
        let mut side: usize = 0;
        while side < 6
            invariant
                side <= 6,
                parity == parity_check % 2,
                neighbors@.len() == side,
                forall|p: int, i: int|
                    0 <= p < 2 && 0 <= i < 6 ==> fits_i32(
                        self.col + (#[trigger] offsets[p][i])[0],
                    ) && fits_i32(self.row + offsets[p][i][1]),
                forall|i: int|
                    0 <= i < side ==> (#[trigger] neighbors@[i]).col == self.col
                        + offsets[parity as int][i][0] && neighbors@[i].row == self.row
                        + offsets[parity as int][i][1],
            decreases 6 - side,
        {
            let pair: [i32; 2] = offsets[parity][side];
            neighbors.push(Offset { col: self.col + pair[0], row: self.row + pair[1] });
            side += 1;
        }
        neighbors
    }

    /// The six neighbors in a flat-topped layout that shoves odd columns, in
    /// the order of the cube neighbors: northeast first, then clockwise.
    pub fn oflat_neighbors(self) -> (r: Vec<Offset>)
        requires
            around_fits(self.col as int, self.row as int, 1),
        ensures
            r@.len() == 6,
            forall|i: int|
                0 <= i < 6 ==> oflat_point((#[trigger] r@[i]).col as int, r@[i].row as int)
                    == neighbor_of(oflat_point(self.col as int, self.row as int), i),
    {
        let offsets: [[[i32; 2]; 6]; 2] = [
            [[1, -1], [1, 0], [0, 1], [-1, 0], [-1, -1], [0, -1]],
            [[1, 0], [1, 1], [0, 1], [-1, 1], [-1, 0], [0, -1]],
        ];
        self.offset_map(offsets, self.col)
    }

    /// The six neighbors in a flat-topped layout that shoves even columns,
    /// in the order of the cube neighbors: northeast first, then clockwise.
    pub fn eflat_neighbors(self) -> (r: Vec<Offset>)
        requires
            around_fits(self.col as int, self.row as int, 1),
        ensures
            r@.len() == 6,
            forall|i: int|
                0 <= i < 6 ==> eflat_point((#[trigger] r@[i]).col as int, r@[i].row as int)
                    == neighbor_of(eflat_point(self.col as int, self.row as int), i),
    {
        let offsets: [[[i32; 2]; 6]; 2] = [
            [[1, 0], [1, 1], [0, 1], [-1, 1], [-1, 0], [0, -1]],
            [[1, -1], [1, 0], [0, 1], [-1, 0], [-1, -1], [0, -1]],
        ];
        self.offset_map(offsets, self.col)
    }

    /// The six neighbors in a sharp-topped layout that shoves odd rows, in
    /// the order of the cube neighbors: northeast first, then clockwise.
    pub fn osharp_neighbors(self) -> (r: Vec<Offset>)
        requires
            around_fits(self.col as int, self.row as int, 1),
        ensures
            r@.len() == 6,
            forall|i: int|
                0 <= i < 6 ==> osharp_point((#[trigger] r@[i]).col as int, r@[i].row as int)
                    == neighbor_of(osharp_point(self.col as int, self.row as int), i),
    {
        let offsets: [[[i32; 2]; 6]; 2] = [
            [[0, -1], [1, 0], [0, 1], [-1, 1], [-1, 0], [-1, -1]],
            [[1, -1], [1, 0], [1, 1], [0, 1], [-1, 0], [0, -1]],
        ];
        self.offset_map(offsets, self.row)
    }

    /// The six neighbors in a sharp-topped layout that shoves even rows, in
    /// the order of the cube neighbors: northeast first, then clockwise.
    pub fn esharp_neighbors(self) -> (r: Vec<Offset>)
        requires
            around_fits(self.col as int, self.row as int, 1),
        ensures
            r@.len() == 6,
            forall|i: int|
                0 <= i < 6 ==> esharp_point((#[trigger] r@[i]).col as int, r@[i].row as int)
                    == neighbor_of(esharp_point(self.col as int, self.row as int), i),
    {
        let offsets: [[[i32; 2]; 6]; 2] = [
            [[1, -1], [1, 0], [1, 1], [0, 1], [-1, 0], [0, -1]],
            [[0, -1], [1, 0], [0, 1], [-1, 1], [-1, 0], [-1, -1]],
        ];
        self.offset_map(offsets, self.row)
    }

    /// The number of steps between two offset coordinates, read in a
    /// flat-topped layout that shoves even columns.
    pub fn dist(self, other: Offset) -> (r: i32)
        requires
            point_dist(
                eflat_point(self.col as int, self.row as int),
                eflat_point(other.col as int, other.row as int),
            ) <= i32::MAX,
        ensures
            r == point_dist(
                eflat_point(self.col as int, self.row as int),
                eflat_point(other.col as int, other.row as int),
            ),
    {
        let ax: i64 = self.col as i64;
        let az: i64 = self.row as i64 - half_floor(self.col as i64 + 1);
        let bx: i64 = other.col as i64;
        let bz: i64 = other.row as i64 - half_floor(other.col as i64 + 1);
        steps_between(ax, 0 - ax - az, az, bx, 0 - bx - bz, bz) as i32
    }
}

} // verus!
