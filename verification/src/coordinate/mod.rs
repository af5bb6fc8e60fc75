//! Hexagonal coordinate systems.
//!
//! `Cube` is the canonical three-axis system; `Axial` is its two-axis
//! projection; `Offset` and `Double` are rectangular layouts whose meaning
//! depends on how the grid is oriented. `MultiCoord` carries any of the four.

use vstd::prelude::*;
use vstd::std_specs::convert::FromSpecImpl;

pub mod axial;
pub mod cube;
pub mod double;
pub mod offset;

use axial::Axial;
use cube::Cube;
use double::{Double, pair_even};
use offset::Offset;

verus! {

/// What can go wrong when building or converting a coordinate.
#[derive(Clone, Copy, Debug, PartialEq, Eq, Hash, Structural)]
pub enum CoordError {
    /// The numbers do not satisfy the constraint of the coordinate system, or
    /// a component of the result is outside the range of `i32`.
    InvalidCoordinate,
    /// A coordinate was divided by zero.
    DivisionByZero,
    /// A `MultiCoord` holds a coordinate of another system than the one asked for.
    CoordinateSystemMismatch,
}

/// Result of a fallible coordinate operation.
pub type CoordResult<T> = Result<T, CoordError>;

/// A point of the plane `x + y + z == 0`, or a vector in it, over the
/// mathematical integers. Every coordinate system is explained through it.
pub type Point = (int, int, int);

/// Whether `n` can be stored in an `i32`.
pub open spec fn fits_i32(n: int) -> bool {
    i32::MIN <= n <= i32::MAX
}

/// Whether all three components of `p` can be stored in an `i32`.
pub open spec fn point_fits(p: Point) -> bool {
    fits_i32(p.0) && fits_i32(p.1) && fits_i32(p.2)
}

/// Whether `p` lies on the plane `x + y + z == 0`.
pub open spec fn on_plane(p: Point) -> bool {
    p.0 + p.1 + p.2 == 0
}

/// Component-wise sum.
pub open spec fn point_add(a: Point, b: Point) -> Point {
    (a.0 + b.0, a.1 + b.1, a.2 + b.2)
}

/// Component-wise difference.
pub open spec fn point_sub(a: Point, b: Point) -> Point {
    (a.0 - b.0, a.1 - b.1, a.2 - b.2)
}

/// Component-wise product with a scalar.
pub open spec fn point_scale(a: Point, n: int) -> Point {
    (a.0 * n, a.1 * n, a.2 * n)
}

/// Quotient of `a` by `n`, rounded toward zero. Unspecified for `n == 0`.
pub open spec fn trunc_div(a: int, n: int) -> int {
    if a >= 0 && n > 0 {
        a / n
    } else if a < 0 && n > 0 {
        -((-a) / n)
    } else if a >= 0 {
        -(a / (-n))
    } else {
        (-a) / (-n)
    }
}

/// The unit step toward neighbor `i`, scaled by `n`. Slot 0 is the
/// northeastern neighbor; the slots proceed clockwise and wrap around.
pub open spec fn scaled_step(i: int, n: int) -> Point {
    let k = i % 6;
    if k == 0 {
        (n, 0, -n)
    } else if k == 1 {
        (n, -n, 0)
    } else if k == 2 {
        (0, -n, n)
    } else if k == 3 {
        (-n, 0, n)
    } else if k == 4 {
        (-n, n, 0)
    } else {
        (0, n, -n)
    }
}

/// The neighbor of `p` in slot `i`.
pub open spec fn neighbor_of(p: Point, i: int) -> Point {
    point_add(p, scaled_step(i, 1))
}

/// The step toward diagonal `i`. Slot 0 is the southeastern diagonal; the
/// slots proceed clockwise and wrap around.
pub open spec fn diagonal_step(i: int) -> Point {
    let k = i % 6;
    if k == 0 {
        (1, -2, 1)
    } else if k == 1 {
        (-1, -1, 2)
    } else if k == 2 {
        (-2, 1, 1)
    } else if k == 3 {
        (-1, 2, -1)
    } else if k == 4 {
        (1, 1, -2)
    } else {
        (2, -1, -1)
    }
}

/// The diagonal of `p` in slot `i`.
pub open spec fn diagonal_of(p: Point, i: int) -> Point {
    point_add(p, diagonal_step(i))
}

/// One clockwise turn of 60 degrees of the vector `v` about the origin.
pub open spec fn turn_cw(v: Point) -> Point {
    (-v.2, -v.0, -v.1)
}

/// One counterclockwise turn of 60 degrees of the vector `v` about the origin.
pub open spec fn turn_cc(v: Point) -> Point {
    (-v.1, -v.2, -v.0)
}

/// `n` clockwise turns of `v`. Six turns are a full circle.
pub open spec fn turns_cw(v: Point, n: int) -> Point {
    let k = n % 6;
    if k == 0 {
        v
    } else if k == 1 {
        (-v.2, -v.0, -v.1)
    } else if k == 2 {
        (v.1, v.2, v.0)
    } else if k == 3 {
        (-v.0, -v.1, -v.2)
    } else if k == 4 {
        (v.2, v.0, v.1)
    } else {
        (-v.1, -v.2, -v.0)
    }
}

/// `n` counterclockwise turns of `v`: as many clockwise turns as are left
/// of a full circle.
pub open spec fn turns_cc(v: Point, n: int) -> Point {
    turns_cw(v, 6 - n % 6)
}

/// Element `k` of the ring of radius `radius >= 1` around `center`: side
/// `k / radius` starts `radius` steps from the center toward that neighbor
/// slot and is walked toward the slot two further on, which makes the ring a
/// continuous clockwise walk.
pub open spec fn ring_point(center: Point, radius: int, k: int) -> Point {
    let side = k / radius;
    let step = k % radius;
    point_add(point_add(center, scaled_step(side, radius)), scaled_step(side + 2, step))
}

/// The ring of the given radius around `center`, in order.
pub open spec fn ring_points(center: Point, radius: nat) -> Seq<Point> {
    if radius == 0 {
        seq![center]
    } else {
        Seq::new(6 * radius, |k: int| ring_point(center, radius as int, k))
    }
}

/// The rings of radius 0 up to `radius` around `center`, one after another.
pub open spec fn spiral_points(center: Point, radius: nat) -> Seq<Point>
    decreases radius,
{
    if radius == 0 {
        ring_points(center, 0)
    } else {
        spiral_points(center, (radius - 1) as nat) + ring_points(center, radius)
    }
}

/// The absolute value of `n`.
pub open spec fn abs_int(n: int) -> int {
    if n < 0 { -n } else { n }
}

/// The larger of `a` and `b`.
pub open spec fn max_int(a: int, b: int) -> int {
    if a < b { b } else { a }
}

/// Number of steps between two points of the plane: the largest absolute
/// difference over the three axes.
pub open spec fn point_dist(a: Point, b: Point) -> int {
    max_int(max_int(abs_int(a.0 - b.0), abs_int(a.1 - b.1)), abs_int(a.2 - b.2))
}

/// The half of `n`, rounded down.
pub(crate) fn half_floor(n: i64) -> (h: i64)
    requires
        -0x2_0000_0000 <= n <= 0x2_0000_0000,
    ensures
        h == n / 2,
{
    if n >= 0 {
        n / 2
    } else {
        -((1 - n) / 2)
    }
}

/// Whether `n` is odd.
pub(crate) fn is_odd(n: i64) -> (b: bool)
    requires
        -0x2_0000_0000 <= n <= 0x2_0000_0000,
    ensures
        b == (n % 2 == 1),
{
    n - 2 * half_floor(n) == 1
}

/// The number of steps between the points `(ax, ay, az)` and `(bx, by, bz)`.
pub(crate) fn steps_between(ax: i64, ay: i64, az: i64, bx: i64, by: i64, bz: i64) -> (d: i64)
    requires
        -0x2_0000_0000 <= ax <= 0x2_0000_0000,
        -0x2_0000_0000 <= ay <= 0x2_0000_0000,
        -0x2_0000_0000 <= az <= 0x2_0000_0000,
        -0x2_0000_0000 <= bx <= 0x2_0000_0000,
        -0x2_0000_0000 <= by <= 0x2_0000_0000,
        -0x2_0000_0000 <= bz <= 0x2_0000_0000,
    ensures
        d == point_dist((ax as int, ay as int, az as int), (bx as int, by as int, bz as int)),
{
    let dx: i64 = ax - bx;
    let dy: i64 = ay - by;
    let dz: i64 = az - bz;
    let px: i64 = if dx < 0 { -dx } else { dx };
    let py: i64 = if dy < 0 { -dy } else { dy };
    let pz: i64 = if dz < 0 { -dz } else { dz };
    let m: i64 = if px < py { py } else { px };
    if m < pz { pz } else { m }
}

/// A label for one of the four coordinate systems.
#[derive(Clone, Copy, Debug, Eq, Hash, Ord, PartialEq, PartialOrd, Structural)]
pub enum CoordSys {
    Axial,
    Cube,
    Double,
    Offset,
}

impl Default for CoordSys {
    /// The default system is `CoordSys::Axial`.
    fn default() -> (r: CoordSys)
        ensures
            r == CoordSys::Axial,
    {
        CoordSys::Axial
    }
}

impl From<MultiCoord> for CoordSys {
    /// The system of the coordinate that a `MultiCoord` holds.
    fn from(coord: MultiCoord) -> (r: CoordSys) {
        match coord {
            MultiCoord::Axial(_) => CoordSys::Axial,
            MultiCoord::Cube(_) => CoordSys::Cube,
            MultiCoord::Double(_) => CoordSys::Double,
            MultiCoord::Offset(_) => CoordSys::Offset,
        }
    }
}

impl FromSpecImpl<MultiCoord> for CoordSys {
    open spec fn obeys_from_spec() -> bool {
        true
    }

    open spec fn from_spec(coord: MultiCoord) -> CoordSys {
        coord.sys()
    }
}

impl From<Axial> for CoordSys {
    /// `CoordSys::Axial`.
    fn from(_coord: Axial) -> (r: CoordSys) {
        CoordSys::Axial
    }
}

impl FromSpecImpl<Axial> for CoordSys {
    open spec fn obeys_from_spec() -> bool {
        true
    }

    open spec fn from_spec(_coord: Axial) -> CoordSys {
        CoordSys::Axial
    }
}

impl From<Cube> for CoordSys {
    /// `CoordSys::Cube`.
    fn from(_coord: Cube) -> (r: CoordSys) {
        CoordSys::Cube
    }
}

impl FromSpecImpl<Cube> for CoordSys {
    open spec fn obeys_from_spec() -> bool {
        true
    }

    open spec fn from_spec(_coord: Cube) -> CoordSys {
        CoordSys::Cube
    }
}

impl From<Double> for CoordSys {
    /// `CoordSys::Double`.
    fn from(_coord: Double) -> (r: CoordSys) {
        CoordSys::Double
    }
}

impl FromSpecImpl<Double> for CoordSys {
    open spec fn obeys_from_spec() -> bool {
        true
    }

    open spec fn from_spec(_coord: Double) -> CoordSys {
        CoordSys::Double
    }
}

impl From<Offset> for CoordSys {
    /// `CoordSys::Offset`.
    fn from(_coord: Offset) -> (r: CoordSys) {
        CoordSys::Offset
    }
}

impl FromSpecImpl<Offset> for CoordSys {
    open spec fn obeys_from_spec() -> bool {
        true
    }

    open spec fn from_spec(_coord: Offset) -> CoordSys {
        CoordSys::Offset
    }
}

/// A coordinate of any of the four systems. A value is made from a
/// coordinate of one system and remembers which; asking it for a coordinate
/// of another system fails, except between `Axial` and `Cube`, which stand
/// for each other.
#[derive(Clone, Copy, Debug, Eq, Hash, Ord, PartialEq, PartialOrd, Structural)]
pub enum MultiCoord {
    Axial(Axial),
    Cube(Cube),
    Double(Double),
    Offset(Offset),
}

impl Default for MultiCoord {
    /// The default is the axial origin.
    fn default() -> (r: MultiCoord)
        ensures
            r == MultiCoord::Axial(Axial { q: 0, r: 0 }),
    {
        MultiCoord::Axial(Axial { q: 0, r: 0 })
    }
}

impl From<Axial> for MultiCoord {
    /// Wraps an `Axial`.
    fn from(coord: Axial) -> (r: MultiCoord) {
        MultiCoord::Axial(coord)
    }
}

impl FromSpecImpl<Axial> for MultiCoord {
    open spec fn obeys_from_spec() -> bool {
        true
    }

    open spec fn from_spec(coord: Axial) -> MultiCoord {
        MultiCoord::Axial(coord)
    }
}

impl From<Cube> for MultiCoord {
    /// Wraps a `Cube`.
    fn from(coord: Cube) -> (r: MultiCoord) {
        MultiCoord::Cube(coord)
    }
}

impl FromSpecImpl<Cube> for MultiCoord {
    open spec fn obeys_from_spec() -> bool {
        true
    }

    open spec fn from_spec(coord: Cube) -> MultiCoord {
        MultiCoord::Cube(coord)
    }
}

impl From<Double> for MultiCoord {
    /// Wraps a `Double`.
    fn from(coord: Double) -> (r: MultiCoord) {
        MultiCoord::Double(coord)
    }
}

impl FromSpecImpl<Double> for MultiCoord {
    open spec fn obeys_from_spec() -> bool {
        true
    }

    open spec fn from_spec(coord: Double) -> MultiCoord {
        MultiCoord::Double(coord)
    }
}

impl From<Offset> for MultiCoord {
    /// Wraps an `Offset`.
    fn from(coord: Offset) -> (r: MultiCoord) {
        MultiCoord::Offset(coord)
    }
}

impl FromSpecImpl<Offset> for MultiCoord {
    open spec fn obeys_from_spec() -> bool {
        true
    }

    open spec fn from_spec(coord: Offset) -> MultiCoord {
        MultiCoord::Offset(coord)
    }
}

impl MultiCoord {
    /// The system of the coordinate held.
    pub open spec fn sys(self) -> CoordSys {
        match self {
            MultiCoord::Axial(_) => CoordSys::Axial,
            MultiCoord::Cube(_) => CoordSys::Cube,
            MultiCoord::Double(_) => CoordSys::Double,
            MultiCoord::Offset(_) => CoordSys::Offset,
        }
    }

    /// Whether the coordinate held satisfies the constraint of its system.
    pub open spec fn valid(self) -> bool {
        match self {
            MultiCoord::Cube(c) => c.valid(),
            MultiCoord::Double(d) => d.valid(),
            _ => true,
        }
    }

    /// What `to_axial` gives.
    pub open spec fn axial_of(self) -> CoordResult<Axial> {
        match self {
            MultiCoord::Axial(a) => Ok(a),
            MultiCoord::Cube(c) => Ok(Axial::of_cube(c)),
            _ => Err(CoordError::CoordinateSystemMismatch),
        }
    }

    /// What `to_cube` gives.
    pub open spec fn cube_of(self) -> CoordResult<Cube> {
        match self {
            MultiCoord::Cube(c) => Ok(c),
            MultiCoord::Axial(a) => if fits_i32(-a.q - a.r) {
                Ok(Cube::at(a@))
            } else {
                Err(CoordError::InvalidCoordinate)
            },
            _ => Err(CoordError::CoordinateSystemMismatch),
        }
    }

    /// The axial coordinate `(q, r)` as a `MultiCoord`.
    pub fn axial(q: i32, r: i32) -> (m: MultiCoord)
        ensures
            m == MultiCoord::Axial(Axial { q, r }),
    {
        MultiCoord::Axial(Axial::from_coords(q, r))
    }

    /// The cube coordinate `(x, y, z)` as a `MultiCoord`, where
    /// `x + y + z == 0`.
    pub fn cube(x: i32, y: i32, z: i32) -> (r: CoordResult<MultiCoord>)
        ensures
            r == (if on_plane((x as int, y as int, z as int)) {
                Ok(MultiCoord::Cube(Cube::at((x as int, y as int, z as int))))
            } else {
                Err(CoordError::InvalidCoordinate)
            }),
            r.is_ok() ==> r.unwrap().valid(),
    {
        match Cube::from_coords(x, y, z) {
            Ok(cube) => Ok(MultiCoord::Cube(cube)),
            Err(e) => Err(e),
        }
    }

    /// The cube coordinate `(x, y, z)`, which obeys the constraint, as a
    /// `MultiCoord`.
    pub fn force_cube(x: i32, y: i32, z: i32) -> (m: MultiCoord)
        requires
            x + y + z == 0,
        ensures
            m == MultiCoord::Cube(Cube::at((x as int, y as int, z as int))),
            m.valid(),
    {
        let c = Cube::force_from_coords(x, y, z);
        proof {
            c.lemma_view_fits();
        }
        MultiCoord::Cube(c)
    }

    /// The double coordinate `(col, row)` as a `MultiCoord`, where
    /// `col + row` is even.
    pub fn double(col: i32, row: i32) -> (r: CoordResult<MultiCoord>)
        ensures
            r == (if pair_even((col as int, row as int)) {
                Ok(MultiCoord::Double(Double::at((col as int, row as int))))
            } else {
                Err(CoordError::InvalidCoordinate)
            }),
            r.is_ok() ==> r.unwrap().valid(),
    {
        match Double::from_coords(col, row) {
            Ok(double) => Ok(MultiCoord::Double(double)),
            Err(e) => Err(e),
        }
    }

    /// The double coordinate `(col, row)`, which obeys the constraint, as a
    /// `MultiCoord`.
    pub fn force_double(col: i32, row: i32) -> (m: MultiCoord)
        requires
            pair_even((col as int, row as int)),
        ensures
            m == MultiCoord::Double(Double::at((col as int, row as int))),
            m.valid(),
    {
        let d = Double::force_from_coords(col, row);
        proof {
            d.lemma_view_fits();
        }
        MultiCoord::Double(d)
    }

    /// The offset coordinate `(col, row)` as a `MultiCoord`.
    pub fn offset(col: i32, row: i32) -> (m: MultiCoord)
        ensures
            m == MultiCoord::Offset(Offset { col, row }),
    {
        MultiCoord::Offset(Offset::from_coords(col, row))
    }

    /// The `Axial` that the value holds or, for a `Cube`, stands for. Fails
    /// with `CoordinateSystemMismatch` for a `Double` or an `Offset`.
    pub fn to_axial(self) -> (r: CoordResult<Axial>)
        ensures
            r == self.axial_of(),
    {
        match self {
            MultiCoord::Axial(a) => Ok(a),
            MultiCoord::Cube(c) => Ok(Axial::from(c)),
            MultiCoord::Double(_) => Err(CoordError::CoordinateSystemMismatch),
            MultiCoord::Offset(_) => Err(CoordError::CoordinateSystemMismatch),
        }
    }

    /// The `Cube` that the value holds or, for an `Axial`, stands for. Fails
    /// with `CoordinateSystemMismatch` for a `Double` or an `Offset`, and
    /// with `InvalidCoordinate` for an `Axial` whose third component is no
    /// `i32` value.
    pub fn to_cube(self) -> (r: CoordResult<Cube>)
        ensures
            r == self.cube_of(),
            r.is_ok() && self.valid() ==> r.unwrap().valid(),
            r.is_ok() ==> match self {
                MultiCoord::Axial(a) => r.unwrap()@ == a@,
                _ => true,
            },
    {
        match self {
            MultiCoord::Cube(c) => Ok(c),
            MultiCoord::Axial(a) => {
                let y: i64 = 0 - a.q as i64 - a.r as i64;
                if -0x8000_0000 <= y && y <= 0x7fff_ffff {
                    let c = Cube::from_axial(a);
                    proof {
                        c.lemma_view_fits();
                    }
                    Ok(c)
                } else {
                    Err(CoordError::InvalidCoordinate)
                }
            },
            MultiCoord::Double(_) => Err(CoordError::CoordinateSystemMismatch),
            MultiCoord::Offset(_) => Err(CoordError::CoordinateSystemMismatch),
        }
    }

    /// The `Double` that the value holds. Fails with
    /// `CoordinateSystemMismatch` for any other system.
    pub fn to_double(self) -> (r: CoordResult<Double>)
        ensures
            r == (match self {
                MultiCoord::Double(d) => Ok(d),
                _ => Err(CoordError::CoordinateSystemMismatch),
            }),
    {
        match self {
            MultiCoord::Double(d) => Ok(d),
            MultiCoord::Axial(_) => Err(CoordError::CoordinateSystemMismatch),
            MultiCoord::Cube(_) => Err(CoordError::CoordinateSystemMismatch),
            MultiCoord::Offset(_) => Err(CoordError::CoordinateSystemMismatch),
        }
    }

    /// The `Offset` that the value holds. Fails with
    /// `CoordinateSystemMismatch` for any other system.
    pub fn to_offset(self) -> (r: CoordResult<Offset>)
        ensures
            r == (match self {
                MultiCoord::Offset(o) => Ok(o),
                _ => Err(CoordError::CoordinateSystemMismatch),
            }),
    {
        match self {
            MultiCoord::Offset(o) => Ok(o),
            MultiCoord::Axial(_) => Err(CoordError::CoordinateSystemMismatch),
            MultiCoord::Cube(_) => Err(CoordError::CoordinateSystemMismatch),
            MultiCoord::Double(_) => Err(CoordError::CoordinateSystemMismatch),
        }
    }
}

} // verus!
