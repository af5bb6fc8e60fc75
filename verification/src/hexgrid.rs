//! The hexagonal grid: one value per occupied hex, and a link between every
//! two occupied hexes that are neighbors.
//!
//! `tilt`, `parity` and `sys` say how coordinates are read and shown. The
//! grid stores its hexes by cube coordinate, so changing them is cheap and
//! leaves the stored hexes and their links as they are.

use vstd::prelude::*;
use vstd::multiset::Multiset;
use vstd::std_specs::cmp::PartialEqSpec;
use vstd::std_specs::hash::spec_values_iter;
use vstd::std_specs::iter::IteratorSpec;
use std::collections::HashMap;
use std::collections::hash_map::Entry;
use petgraph::stable_graph::StableGraph;
use petgraph::Directed;
use crate::coordinate::{
    CoordSys, MultiCoord, Point, fits_i32, point_fits, on_plane, neighbor_of, spiral_points,
    point_dist,
};
use crate::coordinate::cube::{
    Cube, cube_views, all_valid, spiral_len, lemma_spiral_members, lemma_spiral_distinct,
};
use crate::coordinate::double::{flat_point, sharp_point};
use crate::coordinate::offset::{Offset, oflat_point, eflat_point, osharp_point, esharp_point};
use crate::graph::{
    graph_nodes, graph_edges, graph_new, graph_add_node, graph_add_edge, graph_remove_node,
    graph_edge_between, graph_edge_count,
};

verus! {

broadcast use {vstd::std_specs::hash::group_hash_axioms, vstd::multiset::group_multiset_properties};

/// The eight directions of the compass. A hex has neighbors in six of them:
/// all but east and west where the hexes are flat-topped, all but north and
/// south where they are sharp-topped.
#[derive(Clone, Copy, Debug, Eq, Hash, Ord, PartialEq, PartialOrd, Structural)]
pub enum Compass {
    North,
    Northeast,
    East,
    Southeast,
    South,
    Southwest,
    West,
    Northwest,
}

impl Compass {
    /// The place of the direction on the compass, counted clockwise from
    /// north.
    pub open spec fn place(self) -> int {
        match self {
            Compass::North => 0,
            Compass::Northeast => 1,
            Compass::East => 2,
            Compass::Southeast => 3,
            Compass::South => 4,
            Compass::Southwest => 5,
            Compass::West => 6,
            Compass::Northwest => 7,
        }
    }

    /// The direction in which the neighbor of slot `index` lies where the
    /// hexes have the given tilt.
    pub open spec fn slot_direction(tilt: Tilt, index: int) -> Compass {
        let k = index % 6;
        match tilt {
            Tilt::Flat => if k == 0 {
                Compass::Northeast
            } else if k == 1 {
                Compass::Southeast
            } else if k == 2 {
                Compass::South
            } else if k == 3 {
                Compass::Southwest
            } else if k == 4 {
                Compass::Northwest
            } else {
                Compass::North
            },
            Tilt::Sharp => if k == 0 {
                Compass::Northeast
            } else if k == 1 {
                Compass::East
            } else if k == 2 {
                Compass::Southeast
            } else if k == 3 {
                Compass::Southwest
            } else if k == 4 {
                Compass::West
            } else {
                Compass::Northwest
            },
        }
    }

    /// The next direction clockwise.
    fn next_cw(self) -> (r: Compass)
        ensures
            r.place() == (self.place() + 1) % 8,
    {
        match self {
            Compass::North => Compass::Northeast,
            Compass::Northeast => Compass::East,
            Compass::East => Compass::Southeast,
            Compass::Southeast => Compass::South,
            Compass::South => Compass::Southwest,
            Compass::Southwest => Compass::West,
            Compass::West => Compass::Northwest,
            Compass::Northwest => Compass::North,
        }
    }

    /// The direction `rotations` eighths of a full turn clockwise from
    /// `self`.
    pub fn rotate_cw(self, rotations: u32) -> (r: Compass)
        ensures
            r.place() == (self.place() + rotations) % 8,
    {
        let mut cur_dir = self;
        let turns: u32 = rotations % 8;
        let mut done: u32 = 0;
        while done < turns
            invariant
                done <= turns < 8,
                cur_dir.place() == (self.place() + done) % 8,
            decreases turns - done,
        {
            cur_dir = cur_dir.next_cw();
            done += 1;
        }
        cur_dir
    }

    /// The opposite direction.
    pub fn inverse(self) -> (r: Compass)
        ensures
            r.place() == (self.place() + 4) % 8,
    {
        match self {
            Compass::North => Compass::South,
            Compass::Northeast => Compass::Southwest,
            Compass::East => Compass::West,
            Compass::Southeast => Compass::Northwest,
            Compass::South => Compass::North,
            Compass::Southwest => Compass::Northeast,
            Compass::West => Compass::East,
            Compass::Northwest => Compass::Southeast,
        }
    }

    /// The direction in which the neighbor of slot `index` lies where the
    /// hexes have the given tilt. Slot 0 is the northeastern neighbor; the
    /// slots proceed clockwise and wrap around.
    pub fn of_slot(tilt: Tilt, index: usize) -> (r: Compass)
        ensures
            r == Compass::slot_direction(tilt, index as int),
    {
        let k: usize = index % 6;
        match tilt {
            Tilt::Flat => if k == 0 {
                Compass::Northeast
            } else if k == 1 {
                Compass::Southeast
            } else if k == 2 {
                Compass::South
            } else if k == 3 {
                Compass::Southwest
            } else if k == 4 {
                Compass::Northwest
            } else {
                Compass::North
            },
            Tilt::Sharp => if k == 0 {
                Compass::Northeast
            } else if k == 1 {
                Compass::East
            } else if k == 2 {
                Compass::Southeast
            } else if k == 3 {
                Compass::Southwest
            } else if k == 4 {
                Compass::West
            } else {
                Compass::Northwest
            },
        }
    }
}

/// Two neighbors see each other in opposite directions: the direction of
/// slot `i + 3` is the opposite of the direction of slot `i`.
pub proof fn lemma_opposite_slots(tilt: Tilt, i: int)
    requires
        0 <= i,
    ensures
        Compass::slot_direction(tilt, i + 3).place() == (Compass::slot_direction(tilt, i).place()
            + 4) % 8,
{
}

/// Whether the hexes lie with an edge or with a corner on top.
#[derive(Clone, Copy, Debug, Eq, Hash, Ord, PartialEq, PartialOrd, Structural)]
pub enum Tilt {
    Flat,
    Sharp,
}

impl Default for Tilt {
    /// The default tilt is `Tilt::Flat`.
    fn default() -> (r: Tilt)
        ensures
            r == Tilt::Flat,
    {
        Tilt::Flat
    }
}

impl Tilt {
    /// The alternate tilt.
    pub fn other(&self) -> (r: Tilt)
        ensures
            r == (match *self {
                Tilt::Flat => Tilt::Sharp,
                Tilt::Sharp => Tilt::Flat,
            }),
    {
        match self {
            Tilt::Flat => Tilt::Sharp,
            _ => Tilt::Flat,
        }
    }
}

/// Whether an offset layout shoves its even or its odd columns or rows.
#[derive(Clone, Copy, Debug, Eq, Hash, Ord, PartialEq, PartialOrd, Structural)]
pub enum Parity {
    Even,
    Odd,
}

impl Default for Parity {
    /// The default parity is `Parity::Even`.
    fn default() -> (r: Parity)
        ensures
            r == Parity::Even,
    {
        Parity::Even
    }
}

impl Parity {
    /// The alternate parity.
    pub fn other(&self) -> (r: Parity)
        ensures
            r == (match *self {
                Parity::Even => Parity::Odd,
                Parity::Odd => Parity::Even,
            }),
    {
        match self {
            Parity::Even => Parity::Odd,
            _ => Parity::Even,
        }
    }
}

/// Why a grid refused to store a value.
#[derive(Clone, Copy, Debug, PartialEq, Eq, Hash, Structural)]
pub enum GridError {
    /// `add` found a value at the coordinate.
    AlreadyOccupied,
    /// `update` found no value at the coordinate.
    NotOccupied,
}

/// The point that `coord` stands for in a grid of the given tilt and parity.
pub open spec fn grid_point(tilt: Tilt, parity: Parity, coord: MultiCoord) -> Point {
    match coord {
        MultiCoord::Axial(a) => a@,
        MultiCoord::Cube(c) => c@,
        MultiCoord::Double(d) => match tilt {
            Tilt::Flat => flat_point(d@),
            Tilt::Sharp => sharp_point(d@),
        },
        MultiCoord::Offset(o) => match (tilt, parity) {
            (Tilt::Flat, Parity::Odd) => oflat_point(o.col as int, o.row as int),
            (Tilt::Flat, Parity::Even) => eflat_point(o.col as int, o.row as int),
            (Tilt::Sharp, Parity::Odd) => osharp_point(o.col as int, o.row as int),
            (Tilt::Sharp, Parity::Even) => esharp_point(o.col as int, o.row as int),
        },
    }
}

/// The number under which a grid files the hex at `p`.
spec fn point_key(p: Point) -> int {
    (p.0 + 0x8000_0000) * 0x1_0000_0000 + (p.2 + 0x8000_0000)
}

/// The point that is filed under `k`.
spec fn key_point(k: u64) -> Point {
    let x = k / 0x1_0000_0000 - 0x8000_0000;
    let z = k % 0x1_0000_0000 - 0x8000_0000;
    (x, -x - z, z)
}

/// Whether the graph is due an edge from node `a` to node `b` with weight
/// `w`: both nodes exist, and the hex of `b` is the neighbor of the hex of
/// `a` in slot `w`.
spec fn link_due(nodes: Map<int, u64>, a: int, b: int, w: u8) -> bool {
    &&& nodes.dom().contains(a)
    &&& nodes.dom().contains(b)
    &&& w < 6
    &&& key_point(nodes[b]) == neighbor_of(key_point(nodes[a]), w as int)
}

/// The slot in which a hex sees the neighbor that sees it in slot `w`.
pub open spec fn opposite(w: int) -> int {
    (w + 3) % 6
}

/// Whether the graph is due the edge while the links of node `h` are being
/// made and the slots below `i` are done.
spec fn due_upto(nodes: Map<int, u64>, h: int, i: int, a: int, b: int, w: u8) -> bool {
    link_due(nodes, a, b, w) && (a == h ==> w < i) && (b == h ==> opposite(w as int) < i)
}

/// Whether `p` lies in the box of `cols` columns and `rows` rows of a
/// flat-topped layout that shoves its odd columns: `p` is
/// `oflat_point(col, row)` for a column and a row of the box.
pub open spec fn in_box(p: Point, cols: int, rows: int) -> bool {
    on_plane(p) && 0 <= p.0 < cols && 0 <= p.2 + p.0 / 2 < rows
}

/// The most links that a grid can hold.
pub const MAX_LINKS: usize = 0xffff_ffff;

/// What the grid keeps of one hex: the index of its node in the graph, and
/// its value.
#[derive(Debug)]
struct Slot<T> {
    node: u32,
    value: T,
}

/// A grid of hexes, each holding a value of type `T`.
///
/// The grid keeps an index from the key of each occupied hex to its value
/// and its node, and a graph with one node for each occupied hex and one
/// edge for each ordered pair of occupied neighbors. Both are private and
/// change together.
#[derive(Debug)]
pub struct HexGrid<T> {
    /// How the hexes lie; decides how double and offset coordinates are read
    /// and in which directions the neighbors lie.
    pub tilt: Tilt,
    /// Which columns or rows are shoved; decides how offset coordinates are
    /// read.
    pub parity: Parity,
    /// The coordinate system preferred for showing the hexes.
    pub sys: CoordSys,
    graph: StableGraph<u64, u8, Directed, u32>,
    map: HashMap<u64, Slot<T>>,
}

impl<T> Default for HexGrid<T> {
    /// An empty grid with the default tilt, parity and coordinate system.
    fn default() -> (g: HexGrid<T>)
        ensures
            g.wf(),
            g@ == Map::<Point, T>::empty(),
            g.layout() == (Tilt::Flat, Parity::Even),
            g.preferred() == CoordSys::Axial,
            g.hex_count() == 0,
            g.link_count() == 0,
    {
        HexGrid::new(Tilt::Flat, Parity::Even, CoordSys::Axial)
    }
}

/// The key of a cube coordinate.
fn key_of(c: Cube) -> (k: u64)
    requires
        c.valid(),
    ensures
        k == point_key(c@),
        key_point(k) == c@,
{
    proof {
        c.lemma_view_fits();
    }
    let x: u64 = (c.x() as i64 + 0x8000_0000) as u64;
    let z: u64 = (c.z() as i64 + 0x8000_0000) as u64;
    x * 0x1_0000_0000 + z
}

/// The key of the neighbor of `c` in slot `i`, where that neighbor has
/// `i32` components.
fn neighbor_key(c: Cube, i: usize) -> (r: Option<u64>)
    requires
        c.valid(),
    ensures
        r.is_some() == point_fits(neighbor_of(c@, i as int)),
        r.is_some() ==> r.unwrap() == point_key(neighbor_of(c@, i as int)) && key_point(
            r.unwrap(),
        ) == neighbor_of(c@, i as int),
{
    proof {
        c.lemma_view_fits();
    }
    let k: usize = i % 6;
    let x: i64 = c.x() as i64;
    let y: i64 = c.y() as i64;
    let z: i64 = c.z() as i64;
    let (dx, dy, dz): (i64, i64, i64) = if k == 0 {
        (1, 0, -1)
    } else if k == 1 {
        (1, -1, 0)
    } else if k == 2 {
        (0, -1, 1)
    } else if k == 3 {
        (-1, 0, 1)
    } else if k == 4 {
        (-1, 1, 0)
    } else {
        (0, 1, -1)
    };
    let nx: i64 = x + dx;
    let ny: i64 = y + dy;
    let nz: i64 = z + dz;
    if -0x8000_0000 <= nx && nx <= 0x7fff_ffff && -0x8000_0000 <= ny && ny <= 0x7fff_ffff
        && -0x8000_0000 <= nz && nz <= 0x7fff_ffff {
        let n = Cube::force_from_coords(nx as i32, ny as i32, nz as i32);
        Some(key_of(n))
    } else {
        None
    }
}

/// Different hexes are filed under different keys.
proof fn lemma_key_injective(p: Point, q: Point)
    requires
        on_plane(p),
        on_plane(q),
        point_fits(p),
        point_fits(q),
        point_key(p) == point_key(q),
    ensures
        p == q,
{
}

impl<T> HexGrid<T> {
    /// Whether the grid holds a value at `p`.
    pub closed spec fn occupied(&self, p: Point) -> bool {
        on_plane(p) && point_fits(p) && self.map@.contains_key(point_key(p) as u64)
    }

    /// The hexes of the grid: each occupied point with its value.
    pub closed spec fn view(&self) -> Map<Point, T> {
        Map::new(|p: Point| self.occupied(p), |p: Point| self.map@[point_key(p) as u64].value)
    }

    /// The number of hexes.
    pub closed spec fn hex_count(&self) -> nat {
        self.map@.len()
    }

    /// The number of links. Two occupied neighbors are joined by two links,
    /// one in each direction.
    pub closed spec fn link_count(&self) -> nat {
        graph_edges(self.graph).len()
    }

    /// Whether the hex at `p` has a link to its neighbor in slot `i`.
    pub closed spec fn linked(&self, p: Point, i: int) -> bool {
        let q = neighbor_of(p, i);
        &&& self.occupied(p)
        &&& self.occupied(q)
        &&& graph_edges(self.graph).count(
            (
                self.map@[point_key(p) as u64].node as int,
                self.map@[point_key(q) as u64].node as int,
                (i % 6) as u8,
            ),
        ) > 0
    }

    /// Whether the graph holds an edge from node `a` to node `b` with weight `w`.
    pub closed spec fn has_edge(&self, a: int, b: int, w: u8) -> bool {
        graph_edges(self.graph).count((a, b, w)) > 0
    }

    /// The point of the hex that node `a` of the graph stands for.
    pub closed spec fn hex_of_node(&self, a: int) -> Point {
        key_point(graph_nodes(self.graph)[a])
    }

    /// The invariant of the grid, but for the links of node `h`: of those
    /// the graph holds the ones in the slots below `i` and their opposites.
    /// With `i == 6` this is the whole invariant: a hex is in the index
    /// exactly if it has a node in the graph, and the graph holds exactly one
    /// edge for every ordered pair of occupied neighbors, weighing the slot.
    spec fn wf_upto(&self, h: int, i: int) -> bool {
        let nodes = graph_nodes(self.graph);
        let edges = graph_edges(self.graph);
        &&& nodes.dom().finite()
        &&& nodes.dom().len() == self.map@.len()
        &&& forall|k: u64| #[trigger]
            self.map@.contains_key(k) ==> point_fits(key_point(k)) && nodes.dom().contains(
                self.map@[k].node as int,
            ) && nodes[self.map@[k].node as int] == k
        &&& forall|a: int| #[trigger]
            nodes.dom().contains(a) ==> self.map@.contains_key(nodes[a]) && self.map@[nodes[a]].node
                == a
        &&& forall|a: int, b: int, w: u8| #[trigger]
            edges.count((a, b, w)) == (if due_upto(nodes, h, i, a, b, w) {
                1nat
            } else {
                0nat
            })
    }

    /// The invariant of the grid: index and graph hold the same hexes, and
    /// the graph links exactly the occupied neighbors.
    pub closed spec fn wf(&self) -> bool {
        self.wf_upto(0, 6)
    }

    /// Whether the grid can take one more hex with all its links.
    pub open spec fn has_room(&self) -> bool {
        self.link_count() + 12 <= MAX_LINKS && self.hex_count() < MAX_LINKS
    }

    /// The tilt and the parity by which the grid reads coordinates: its
    /// fields `tilt` and `parity`.
    pub closed spec fn layout(&self) -> (Tilt, Parity) {
        (self.tilt, self.parity)
    }

    /// The coordinate system that the grid prefers for showing its hexes:
    /// its field `sys`.
    pub closed spec fn preferred(&self) -> CoordSys {
        self.sys
    }

    /// The point that `coord` stands for in this grid.
    pub open spec fn point_of(&self, coord: MultiCoord) -> Point {
        grid_point(self.layout().0, self.layout().1, coord)
    }

    /// Whether `coord` names a hex that a grid of this tilt and parity can
    /// hold: it satisfies the constraint of its system and stands for a
    /// point with `i32` components.
    pub open spec fn locates(&self, coord: MultiCoord) -> bool {
        coord.valid() && point_fits(self.point_of(coord))
    }

    /// Converts `coord` to its cube coordinate in this grid.
    pub fn cube_from(&self, coord: MultiCoord) -> (r: Cube)
        requires
            self.locates(coord),
        ensures
            r@ == self.point_of(coord),
            r.valid(),
    {
        match coord {
            MultiCoord::Offset(offset) => {
                match (self.tilt, self.parity) {
                    (Tilt::Flat, Parity::Odd) => offset.oflat_to_cube(),
                    (Tilt::Flat, Parity::Even) => offset.eflat_to_cube(),
                    (Tilt::Sharp, Parity::Odd) => offset.osharp_to_cube(),
                    (Tilt::Sharp, Parity::Even) => offset.esharp_to_cube(),
                }
            },
            MultiCoord::Double(double) => {
                match self.tilt {
                    Tilt::Flat => double.flat_to_cube(),
                    Tilt::Sharp => double.sharp_to_cube(),
                }
            },
            MultiCoord::Axial(axial) => Cube::from_axial(axial),
            MultiCoord::Cube(cube) => cube,
        }
    }

    /// Creates an empty grid with the given parameters.
    pub fn new(tilt: Tilt, parity: Parity, sys: CoordSys) -> (g: HexGrid<T>)
        ensures
            g.wf(),
            g@ == Map::<Point, T>::empty(),
            g.layout() == (tilt, parity),
            g.preferred() == sys,
            g.hex_count() == 0,
            g.link_count() == 0,
    {
        let g = HexGrid { tilt, parity, sys, graph: graph_new(), map: HashMap::new() };
        g
    }

    /// Creates a grid that holds `blank_val` at every hex within `radius`
    /// steps of the origin. Its preferred system is `CoordSys::Cube`; tilt
    /// and parity are the default ones.
    pub fn new_radial(radius: u32, blank_val: T) -> (g: HexGrid<T>) where T: Copy
        requires
            radius <= i32::MAX,
            12 * spiral_len(radius as int) <= MAX_LINKS,
        ensures
            g.wf(),
            g.layout() == (Tilt::Flat, Parity::Even),
            g.preferred() == CoordSys::Cube,
            forall|p: Point| #[trigger]
                g@.contains_key(p) <==> on_plane(p) && point_dist((0, 0, 0), p) <= radius,
            forall|p: Point| #[trigger] g@.contains_key(p) ==> g@[p] == blank_val,
            g.hex_count() == spiral_len(radius as int),
    {
        let mut grid: HexGrid<T> = HexGrid::new(Tilt::Flat, Parity::Even, CoordSys::Cube);
        let hexes: Vec<Cube> = Cube::origin().spiral(radius);
        let n: usize = hexes.len();
        let mut i: usize = 0;
        while i < n
            invariant
                i <= n,
                n == hexes@.len(),
                n == spiral_len(radius as int),
                12 * spiral_len(radius as int) <= MAX_LINKS,
                all_valid(hexes@),
                cube_views(hexes@) == spiral_points((0, 0, 0), radius as nat),
                grid.wf(),
                grid.layout() == (Tilt::Flat, Parity::Even),
                grid.preferred() == CoordSys::Cube,
                grid.link_count() <= 12 * i,
                grid.hex_count() == i,
                forall|p: Point| #[trigger]
                    grid@.contains_key(p) <==> exists|j: int|
                        0 <= j < i && (#[trigger] hexes@[j])@ == p,
                forall|p: Point| #[trigger] grid@.contains_key(p) ==> grid@[p] == blank_val,
            decreases n - i,
        {
            let hex: Cube = hexes[i];
            proof {
                hex.lemma_view_fits();
                assert forall|j: int| 0 <= j < i implies (#[trigger] hexes@[j])@ != hex@ by {
                    lemma_spiral_distinct((0, 0, 0), radius as nat, j, i as int);
                }
            }
            grid.set(MultiCoord::Cube(hex), blank_val);
            i += 1;
        }
        proof {
            let points = spiral_points((0, 0, 0), radius as nat);
            assert forall|p: Point| #[trigger]
                grid@.contains_key(p) <==> on_plane(p) && point_dist((0, 0, 0), p) <= radius by {
                lemma_spiral_members((0, 0, 0), radius as nat, p);
                if grid@.contains_key(p) {
                    let j = choose|j: int| 0 <= j < n && (#[trigger] hexes@[j])@ == p;
                    assert(points[j] == p);
                }
                if points.contains(p) {
                    let j = choose|j: int| 0 <= j < points.len() && points[j] == p;
                }
            }
        }
        grid
    }

    /// Creates a grid that holds `blank_val` at every offset coordinate of
    /// `cols` columns and `rows` rows, counted from 0. The grid is
    /// flat-topped and shoves its odd columns; its preferred system is
    /// `CoordSys::Offset`.
    pub fn new_boxy(cols: u32, rows: u32, blank_val: T) -> (g: HexGrid<T>) where T: Copy
        requires
            cols <= 0x4000_0000,
            rows <= 0x4000_0000,
            12 * (cols * rows) <= MAX_LINKS,
        ensures
            g.wf(),
            g.layout() == (Tilt::Flat, Parity::Odd),
            g.preferred() == CoordSys::Offset,
            forall|p: Point| #[trigger] g@.contains_key(p) <==> in_box(p, cols as int, rows as int),
            forall|p: Point| #[trigger] g@.contains_key(p) ==> g@[p] == blank_val,
            g.hex_count() == cols * rows,
    {
        let mut grid: HexGrid<T> = HexGrid::new(Tilt::Flat, Parity::Odd, CoordSys::Offset);
        let mut col: u32 = 0;
        while col < cols
            invariant
                col <= cols <= 0x4000_0000,
                rows <= 0x4000_0000,
                12 * (cols * rows) <= MAX_LINKS,
                grid.wf(),
                grid.layout() == (Tilt::Flat, Parity::Odd),
                grid.preferred() == CoordSys::Offset,
                grid.link_count() <= 12 * (col * rows),
                grid.hex_count() == col * rows,
                forall|p: Point| #[trigger]
                    grid@.contains_key(p) <==> in_box(p, col as int, rows as int),
                forall|p: Point| #[trigger] grid@.contains_key(p) ==> grid@[p] == blank_val,
            decreases cols - col,
        {
            let mut row: u32 = 0;
            while row < rows
                invariant
                    col < cols <= 0x4000_0000,
                    row <= rows <= 0x4000_0000,
                    12 * (cols * rows) <= MAX_LINKS,
                    grid.wf(),
                    grid.layout() == (Tilt::Flat, Parity::Odd),
                    grid.preferred() == CoordSys::Offset,
                    grid.link_count() <= 12 * (col * rows + row),
                    grid.hex_count() == col * rows + row,
                    forall|p: Point| #[trigger]
                        grid@.contains_key(p) <==> (in_box(p, col as int, rows as int) || (in_box(
                            p,
                            col + 1,
                            row as int,
                        ) && p.0 == col)),
                    forall|p: Point| #[trigger] grid@.contains_key(p) ==> grid@[p] == blank_val,
                decreases rows - row,
            {
                proof {
                    assert(col * rows + row + 1 <= cols * rows) by (nonlinear_arith)
                        requires
                            col < cols,
                            row < rows,
                    ;
                }
                let offset = Offset { col: col as i32, row: row as i32 };
                grid.set(MultiCoord::Offset(offset), blank_val);
                row += 1;
            }
            proof {
                assert(col * rows + rows == (col + 1) * rows) by (nonlinear_arith);
            }
            col += 1;
        }
        grid
    }

    /// Changes how the grid reads and shows coordinates. The hexes stay where
    /// they are in the plane, with their values and links; what changes is
    /// which double and offset coordinates name them.
    pub fn set_layout(&mut self, tilt: Tilt, parity: Parity, sys: CoordSys)
        ensures
            final(self).layout() == (tilt, parity),
            final(self).preferred() == sys,
            final(self)@ == old(self)@,
            final(self).wf() == old(self).wf(),
            final(self).hex_count() == old(self).hex_count(),
            final(self).link_count() == old(self).link_count(),
            forall|p: Point, i: int| #[trigger] final(self).linked(p, i) == old(self).linked(p, i),
    {
        self.tilt = tilt;
        self.parity = parity;
        self.sys = sys;
    }

    /// Whether the grid holds a value at the given coordinate.
    pub fn contains_coord(&self, coord: MultiCoord) -> (r: bool)
        requires
            self.locates(coord),
        ensures
            r == self@.contains_key(self.point_of(coord)),
    {
        let key = key_of(self.cube_from(coord));
        self.map.contains_key(&key)
    }

    /// The value at the given coordinate, if there is one.
    pub fn get(&self, coord: MultiCoord) -> (r: Option<&T>)
        requires
            self.locates(coord),
        ensures
            r == (if self@.contains_key(self.point_of(coord)) {
                Some(&self@[self.point_of(coord)])
            } else {
                None
            }),
    {
        let key = key_of(self.cube_from(coord));
        match self.map.get(&key) {
            Some(slot) => Some(&slot.value),
            None => None,
        }
    }

    /// The value at the given coordinate, if there is one, for changing it
    /// in place. The hexes and their links stay as they are.
    pub fn get_mut(&mut self, coord: MultiCoord) -> (r: Option<&mut T>)
        requires
            old(self).wf(),
            old(self).locates(coord),
        ensures
            match r {
                Some(v) => old(self)@.contains_key(old(self).point_of(coord)) && *v == old(
                    self,
                )@[old(self).point_of(coord)] && final(self)@ == old(self)@.insert(
                    old(self).point_of(coord),
                    *final(v),
                ),
                None => !old(self)@.contains_key(old(self).point_of(coord)) && final(self)@ == old(
                    self,
                )@,
            },
            final(self).wf(),
            final(self).layout() == old(self).layout(),
            final(self).preferred() == old(self).preferred(),
            final(self).link_count() == old(self).link_count(),
            final(self).hex_count() == old(self).hex_count(),
    {
        let cube = self.cube_from(coord);
        let key = key_of(cube);
        proof {
            cube.lemma_view_fits();
        }
        match self.map.entry(key) {
            Entry::Occupied(entry) => {
                let slot: &mut Slot<T> = entry.into_mut();
                Some(&mut slot.value)
            },
            Entry::Vacant(_) => None,
        }
    }

    /// Whether the grid holds a value equal to `target` at one hex or more.
    pub fn contains_value(&self, target: T) -> (r: bool) where T: Eq
        requires
            self.wf(),
        ensures
            T::obeys_eq_spec() ==> r == exists|p: Point|
                self@.contains_key(p) && (#[trigger] self@[p]).eq_spec(&target),
    {
        let mut found = false;
        let ghost vals = spec_values_iter(&self.map).remaining();
        let ghost mut done: int = 0;
        for slot in iter: self.map.values()
            invariant
                iter.seq() == vals,
                done == iter.index(),
                T::obeys_eq_spec() ==> found == exists|j: int|
                    0 <= j < done && (#[trigger] vals[j]).value.eq_spec(&target),
        {
            if slot.value == target {
                found = true;
            }
            proof {
                done = done + 1;
            }
        }
        proof {
            if T::obeys_eq_spec() {
                if found {
                    let j = choose|j: int|
                        0 <= j < done && (#[trigger] vals[j]).value.eq_spec(&target);
                    assert(vals.unref()[j] == *vals[j]);
                    assert(self.map@.values().contains(*vals[j]));
                    let k = choose|k: u64| self.map@.contains_key(k) && self.map@[k] == *vals[j];
                    lemma_key_point_fixed(k);
                    let p = key_point(k);
                    assert(self@.contains_key(p) && self@[p].eq_spec(&target));
                }
                if exists|p: Point| self@.contains_key(p) && (#[trigger] self@[p]).eq_spec(&target) {
                    let p = choose|p: Point|
                        self@.contains_key(p) && (#[trigger] self@[p]).eq_spec(&target);
                    let k = point_key(p) as u64;
                    assert(vals.unref().to_set().contains(self.map@[k]));
                }
            }
        }
        found
    }

    /// The number of hexes in the grid.
    pub fn len(&self) -> (n: usize)
        ensures
            n == self.hex_count(),
            self.wf() ==> n == self@.dom().len(),
    {
        proof {
            if self.wf() {
                self.lemma_hex_count();
            }
        }
        self.map.len()
    }

    /// The number of links in the grid.
    pub fn links(&self) -> (n: usize)
        ensures
            n == self.link_count(),
    {
        graph_edge_count(&self.graph)
    }

    /// Whether the grid can take one more hex with all its links.
    pub fn room(&self) -> (r: bool)
        ensures
            r == self.has_room(),
    {
        let links: usize = graph_edge_count(&self.graph);
        links <= MAX_LINKS - 12 && self.map.len() < MAX_LINKS
    }

    /// Links the hex of node `h`, which has no links yet, to each of its
    /// occupied neighbors, in both directions.
    fn nlink(&mut self, cube: Cube, h: u32)
        requires
            cube.valid(),
            old(self).wf_upto(h as int, 0),
            old(self).map@.contains_key(point_key(cube@) as u64),
            old(self).map@[point_key(cube@) as u64].node == h,
            old(self).link_count() + 12 <= MAX_LINKS,
        ensures
            final(self).wf(),
            final(self).map@ == old(self).map@,
            final(self).layout() == old(self).layout(),
            final(self).preferred() == old(self).preferred(),
            final(self).link_count() <= old(self).link_count() + 12,
    {
        let key = key_of(cube);
        let ghost nodes = graph_nodes(self.graph);
        let ghost start = graph_edges(self.graph).len();
        let mut i: usize = 0;
        while i < 6
            invariant
                i <= 6,
                cube.valid(),
                key == point_key(cube@),
                key_point(key) == cube@,
                self.wf_upto(h as int, i as int),
                graph_nodes(self.graph) == nodes,
                self.map@ == old(self).map@,
                self.map@.contains_key(key),
                self.map@[key].node == h,
                self.layout() == old(self).layout(),
                self.preferred() == old(self).preferred(),
                start + 12 <= MAX_LINKS,
                graph_edges(self.graph).len() <= start + 2 * i,
            decreases 6 - i,
        {
            let ghost before = graph_edges(self.graph);
            let mut found: Option<u32> = None;
            match neighbor_key(cube, i) {
                Some(nk) => {
                    match self.map.get(&nk) {
                        Some(slot) => {
                            found = Some(slot.node);
                        },
                        None => {},
                    }
                },
                None => {},
            }
            match found {
                Some(other) => {
                    let w: u8 = i as u8;
                    let back: u8 = ((i + 3) % 6) as u8;
                    graph_add_edge(&mut self.graph, h, other, w);
                    graph_add_edge(&mut self.graph, other, h, back);
                    proof {
                        let after = graph_edges(self.graph);
                        assert forall|a: int, b: int, x: u8| #[trigger]
                            after.count((a, b, x)) == (if due_upto(
                                nodes,
                                h as int,
                                i + 1,
                                a,
                                b,
                                x,
                            ) {
                                1nat
                            } else {
                                0nat
                            }) by {
                            assert(before.count((a, b, x)) == (if due_upto(
                                nodes,
                                h as int,
                                i as int,
                                a,
                                b,
                                x,
                            ) {
                                1nat
                            } else {
                                0nat
                            }));
                            lemma_step_back(key_point(nodes[a]), cube@, x as int);
                            if nodes.dom().contains(a) && nodes.dom().contains(b) {
                                lemma_key_point_injective(nodes[a], nodes[other as int]);
                                lemma_key_point_injective(nodes[b], nodes[other as int]);
                            }
                        }
                    }
                },
                None => {
                    proof {
                        assert forall|a: int, b: int, x: u8| #[trigger]
                            before.count((a, b, x)) == (if due_upto(
                                nodes,
                                h as int,
                                i + 1,
                                a,
                                b,
                                x,
                            ) {
                                1nat
                            } else {
                                0nat
                            }) by {
                            assert(before.count((a, b, x)) == (if due_upto(
                                nodes,
                                h as int,
                                i as int,
                                a,
                                b,
                                x,
                            ) {
                                1nat
                            } else {
                                0nat
                            }));
                            lemma_step_back(key_point(nodes[a]), cube@, x as int);
                            if nodes.dom().contains(a) && nodes.dom().contains(b) {
                                lemma_key_point_fixed(nodes[a]);
                                lemma_key_point_fixed(nodes[b]);
                            }
                        }
                    }
                },
            }
            i += 1;
        }
    }

    /// Stores `data` at the given coordinate: in place of the value that is
    /// there, or as a new hex, which is then linked to its occupied
    /// neighbors.
    pub fn set(&mut self, coord: MultiCoord, data: T)
        requires
            old(self).wf(),
            old(self).locates(coord),
            old(self).has_room() || old(self)@.contains_key(old(self).point_of(coord)),
        ensures
            final(self).wf(),
            final(self)@ == old(self)@.insert(old(self).point_of(coord), data),
            final(self).layout() == old(self).layout(),
            final(self).preferred() == old(self).preferred(),
            final(self).link_count() <= old(self).link_count() + 12,
            final(self).hex_count() <= old(self).hex_count() + 1,
            old(self)@.contains_key(old(self).point_of(coord)) ==> final(self).link_count() == old(
                self,
            ).link_count() && final(self).hex_count() == old(self).hex_count(),
            !old(self)@.contains_key(old(self).point_of(coord)) ==> final(self).hex_count() == old(
                self,
            ).hex_count() + 1,
    {
        let cube = self.cube_from(coord);
        let key = key_of(cube);
        let ghost p = cube@;
        let mut node: Option<u32> = None;
        match self.map.get(&key) {
            Some(slot) => {
                node = Some(slot.node);
            },
            None => {},
        }
        proof {
            cube.lemma_view_fits();
        }
        match node {
            Some(h) => {
                self.map.insert(key, Slot { node: h, value: data });
            },
            None => {
                let ghost nodes = graph_nodes(self.graph);
                let h = graph_add_node(&mut self.graph, key);
                self.map.insert(key, Slot { node: h, value: data });
                proof {
                    let after = graph_nodes(self.graph);
                    assert forall|a: int, b: int, w: u8| #[trigger]
                        graph_edges(self.graph).count((a, b, w)) == (if due_upto(
                            after,
                            h as int,
                            0,
                            a,
                            b,
                            w,
                        ) {
                            1nat
                        } else {
                            0nat
                        }) by {
                        assert(graph_edges(self.graph).count((a, b, w)) == (if due_upto(
                            nodes,
                            0,
                            6,
                            a,
                            b,
                            w,
                        ) {
                            1nat
                        } else {
                            0nat
                        }));
                    }
                }
                self.nlink(cube, h);
            },
        }
        proof {
            assert forall|q: Point| self.occupied(q) <==> (q == p || old(self).occupied(q)) by {
                if on_plane(q) && point_fits(q) && point_key(q) == point_key(p) {
                    lemma_key_injective(p, q);
                }
            }
        }
    }

    /// Stores `data` at a coordinate that holds no value yet. Fails with
    /// `AlreadyOccupied`, and changes nothing, where it holds one.
    pub fn add(&mut self, coord: MultiCoord, data: T) -> (r: Result<(), GridError>)
        requires
            old(self).wf(),
            old(self).locates(coord),
            old(self).has_room() || old(self)@.contains_key(old(self).point_of(coord)),
        ensures
            final(self).wf(),
            final(self).layout() == old(self).layout(),
            final(self).preferred() == old(self).preferred(),
            old(self)@.contains_key(old(self).point_of(coord)) ==> r == Err::<(), GridError>(
                GridError::AlreadyOccupied,
            ) && *final(self) == *old(self),
            !old(self)@.contains_key(old(self).point_of(coord)) ==> r == Ok::<(), GridError>(())
                && final(self)@ == old(self)@.insert(old(self).point_of(coord), data)
                && final(self).link_count() <= old(self).link_count() + 12
                && final(self).hex_count() == old(self).hex_count() + 1,
    {
        if self.contains_coord(coord) {
            Err(GridError::AlreadyOccupied)
        } else {
            self.set(coord, data);
            Ok(())
        }
    }

    /// Replaces the value at a coordinate that holds one. Fails with
    /// `NotOccupied`, and changes nothing, where it holds none.
    pub fn update(&mut self, coord: MultiCoord, data: T) -> (r: Result<(), GridError>)
        requires
            old(self).wf(),
            old(self).locates(coord),
        ensures
            final(self).wf(),
            final(self).layout() == old(self).layout(),
            final(self).preferred() == old(self).preferred(),
            final(self).link_count() == old(self).link_count(),
            final(self).hex_count() == old(self).hex_count(),
            old(self)@.contains_key(old(self).point_of(coord)) ==> r == Ok::<(), GridError>(())
                && final(self)@ == old(self)@.insert(old(self).point_of(coord), data),
            !old(self)@.contains_key(old(self).point_of(coord)) ==> r == Err::<(), GridError>(
                GridError::NotOccupied,
            ) && *final(self) == *old(self),
    {
        if self.contains_coord(coord) {
            self.set(coord, data);
            Ok(())
        } else {
            Err(GridError::NotOccupied)
        }
    }

    /// Removes the hex at the given coordinate with all its links, and
    /// returns its value. Returns `None`, and changes nothing, where the
    /// coordinate holds no value.
    pub fn remove(&mut self, coord: MultiCoord) -> (r: Option<T>)
        requires
            old(self).wf(),
            old(self).locates(coord),
        ensures
            final(self).wf(),
            final(self).layout() == old(self).layout(),
            final(self).preferred() == old(self).preferred(),
            r == (if old(self)@.contains_key(old(self).point_of(coord)) {
                Some(old(self)@[old(self).point_of(coord)])
            } else {
                None
            }),
            final(self)@ == old(self)@.remove(old(self).point_of(coord)),
            final(self).link_count() <= old(self).link_count(),
            final(self).hex_count() == (if old(self)@.contains_key(old(self).point_of(coord)) {
                old(self).hex_count() - 1
            } else {
                old(self).hex_count() as int
            }),
            !old(self)@.contains_key(old(self).point_of(coord)) ==> final(self).link_count() == old(
                self,
            ).link_count(),
    {
        let cube = self.cube_from(coord);
        let key = key_of(cube);
        let ghost p = cube@;
        proof {
            cube.lemma_view_fits();
        }
        let taken = self.map.remove(&key);
        let r = match taken {
            Some(slot) => {
                let ghost nodes = graph_nodes(self.graph);
                let ghost before = graph_edges(self.graph);
                let h: u32 = slot.node;
                let _ = graph_remove_node(&mut self.graph, h);
                proof {
                    let after = graph_nodes(self.graph);
                    assert forall|a: int, b: int, w: u8| #[trigger]
                        graph_edges(self.graph).count((a, b, w)) == (if due_upto(
                            after,
                            0,
                            6,
                            a,
                            b,
                            w,
                        ) {
                            1nat
                        } else {
                            0nat
                        }) by {
                        assert(before.count((a, b, w)) == (if due_upto(nodes, 0, 6, a, b, w) {
                            1nat
                        } else {
                            0nat
                        }));
                    }
                }
                Some(slot.value)
            },
            None => None,
        };
        proof {
            assert forall|q: Point| self.occupied(q) <==> (q != p && old(self).occupied(q)) by {
                if on_plane(q) && point_fits(q) && point_key(q) == point_key(p) {
                    lemma_key_injective(p, q);
                }
            }
        }
        r
    }

    /// The direction of the link from the hex at the given coordinate to its
    /// neighbor in slot `index`, as the grid's tilt has it; `None` where the
    /// hex has no link in that slot.
    pub fn link(&self, coord: MultiCoord, index: usize) -> (r: Option<Compass>)
        requires
            self.wf(),
            self.locates(coord),
        ensures
            r == (if self.linked(self.point_of(coord), index as int) {
                Some(Compass::slot_direction(self.layout().0, index as int))
            } else {
                None
            }),
            r.is_some() == (self@.contains_key(self.point_of(coord)) && self@.contains_key(
                neighbor_of(self.point_of(coord), index as int),
            )),
    {
        let cube = self.cube_from(coord);
        let key = key_of(cube);
        proof {
            cube.lemma_view_fits();
            self.lemma_links(cube@, index as int);
        }
        let own = match self.map.get(&key) {
            Some(slot) => slot.node,
            None => {
                return None;
            },
        };
        let nk = match neighbor_key(cube, index) {
            Some(nk) => nk,
            None => {
                return None;
            },
        };
        let other = match self.map.get(&nk) {
            Some(slot) => slot.node,
            None => {
                return None;
            },
        };
        match graph_edge_between(&self.graph, own, other) {
            Some(w) => {
                proof {
                    lemma_slots_differ(cube@, w as int, index as int);
                }
                Some(Compass::of_slot(self.tilt, index))
            },
            None => None,
        }
    }

    /// In a grid that satisfies its invariant, the number of hexes is the
    /// size of the view.
    pub proof fn lemma_hex_count(&self)
        requires
            self.wf(),
        ensures
            self@.dom().finite(),
            self@.dom().len() == self.hex_count(),
    {
        let f = |k: u64| key_point(k);
        let keys = self.map@.dom();
        assert forall|j: u64, k: u64| keys.contains(j) && keys.contains(k) && #[trigger] f(j)
            == #[trigger] f(k) implies j == k by {
            lemma_key_point_injective(j, k);
        }
        assert(keys.map(f) =~= self@.dom()) by {
            assert forall|p: Point| keys.map(f).contains(p) == self@.dom().contains(p) by {
                if keys.map(f).contains(p) {
                    let k = choose|k: u64| keys.contains(k) && f(k) == p;
                    lemma_key_point_fixed(k);
                }
                if self@.dom().contains(p) {
                    let k = point_key(p) as u64;
                }
            }
        }
        vstd::set_lib::lemma_map_size(keys, self@.dom(), f);
    }

    /// In a grid that satisfies its invariant, a hex has a link in a slot
    /// exactly if it is occupied and its neighbor in that slot is occupied
    /// too.
    pub proof fn lemma_links(&self, p: Point, i: int)
        requires
            self.wf(),
        ensures
            self.linked(p, i) <==> self@.contains_key(p) && self@.contains_key(neighbor_of(p, i)),
    {
    }

    /// In a grid that satisfies its invariant no edge dangles: every edge of
    /// the graph is there once, and it joins the nodes of two occupied hexes
    /// of which the second is the neighbor of the first in the slot that the
    /// edge weighs.
    pub proof fn lemma_no_dangling_edge(&self, a: int, b: int, w: u8)
        requires
            self.wf(),
            self.has_edge(a, b, w),
        ensures
            w < 6,
            self@.contains_key(self.hex_of_node(a)),
            self@.contains_key(self.hex_of_node(b)),
            self.hex_of_node(b) == neighbor_of(self.hex_of_node(a), w as int),
            self.linked(self.hex_of_node(a), w as int),
    {
        let nodes = graph_nodes(self.graph);
        lemma_key_point_fixed(nodes[a]);
        lemma_key_point_fixed(nodes[b]);
    }
}

/// A key is the key of its point, so different keys stand for different
/// points.
proof fn lemma_key_point_fixed(k: u64)
    ensures
        point_key(key_point(k)) == k,
        on_plane(key_point(k)),
        fits_i32(key_point(k).0),
        fits_i32(key_point(k).2),
{
}

/// Keys that stand for the same point are the same.
proof fn lemma_key_point_injective(j: u64, k: u64)
    ensures
        key_point(j) == key_point(k) ==> j == k,
{
    lemma_key_point_fixed(j);
    lemma_key_point_fixed(k);
}

/// If `q` is the neighbor of `p` in slot `w`, then `p` is the neighbor of
/// `q` in the opposite slot, and the other way round.
pub proof fn lemma_step_back(p: Point, q: Point, w: int)
    ensures
        q == neighbor_of(p, w) <==> p == neighbor_of(q, opposite(w)),
{
}

/// The neighbors of a point in different slots are different points.
pub proof fn lemma_slots_differ(p: Point, v: int, w: int)
    requires
        neighbor_of(p, v) == neighbor_of(p, w),
    ensures
        v % 6 == w % 6,
{
}

} // verus!
