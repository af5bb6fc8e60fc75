//! The grid: factories, lookups, changes, and the links between neighbors.

use chickenwire::prelude::{
    Axial, Compass, CoordSys, Cube, Double, GridError, HexGrid, MultiCoord, Offset, Parity, Tilt,
};

/// Checks, for every hex of `hexes` that the grid holds, that it has a link
/// in a slot exactly if the grid holds its neighbor in that slot.
fn links_match_neighbors(grid: &HexGrid<i32>, hexes: &[Cube]) {
    for hex in hexes {
        if !grid.contains_coord(MultiCoord::Cube(*hex)) {
            for slot in 0..6 {
                assert_eq!(grid.link(MultiCoord::Cube(*hex), slot), None);
            }
            continue;
        }
        for slot in 0..6 {
            let neighbor = hex.neighbor(slot);
            assert_eq!(
                grid.link(MultiCoord::Cube(*hex), slot).is_some(),
                grid.contains_coord(MultiCoord::Cube(neighbor)),
            );
        }
    }
}

#[test]
fn test_radial() {
    let grid = HexGrid::new_radial(5, 0);

    assert_eq!(Some(&0), grid.get(MultiCoord::axial(0, 0)));
    assert_eq!(Some(&0), grid.get(MultiCoord::axial(1, 0)));
}

#[test]
fn radial_grid_of_radius_one_holds_seven_hexes() {
    let grid = HexGrid::new_radial(1, 0);

    assert_eq!(grid.len(), 7);
    assert_eq!(grid.sys, CoordSys::Cube);
    assert_eq!(grid.tilt, Tilt::Flat);
    assert_eq!(grid.parity, Parity::Even);
    assert_eq!(Some(&0), grid.get(MultiCoord::Cube(Cube::origin())));
    for hex in Cube::origin().neighbors() {
        assert_eq!(Some(&0), grid.get(MultiCoord::Cube(hex)));
    }
    for hex in Cube::origin().ring(2) {
        assert_eq!(None, grid.get(MultiCoord::Cube(hex)));
        assert!(!grid.contains_coord(MultiCoord::Cube(hex)));
    }
    // six spokes and six rim pairs, each linked in both directions
    assert_eq!(grid.links(), 24);
    links_match_neighbors(&grid, &Cube::origin().spiral(2));
}

#[test]
fn radial_grid_of_radius_zero_holds_the_origin() {
    let grid = HexGrid::new_radial(0, 'x');

    assert_eq!(grid.len(), 1);
    assert_eq!(grid.links(), 0);
    assert_eq!(grid.get(MultiCoord::Cube(Cube::origin())), Some(&'x'));
}

#[test]
fn radial_grid_holds_the_spiral() {
    let grid = HexGrid::new_radial(3, 7);

    assert_eq!(grid.len(), 1 + 3 * 3 * 4);
    for hex in Cube::origin().spiral(3) {
        assert_eq!(grid.get(MultiCoord::Cube(hex)), Some(&7));
    }
    for hex in Cube::origin().ring(4) {
        assert_eq!(grid.get(MultiCoord::Cube(hex)), None);
    }
    links_match_neighbors(&grid, &Cube::origin().spiral(4));
}

#[test]
fn rectangular_grid_of_one_hex() {
    let grid = HexGrid::new_boxy(1, 1, 0);

    assert_eq!(grid.len(), 1);
    assert_eq!(grid.links(), 0);
    assert_eq!(grid.tilt, Tilt::Flat);
    assert_eq!(grid.parity, Parity::Odd);
    assert_eq!(grid.sys, CoordSys::Offset);
    assert_eq!(grid.get(MultiCoord::offset(0, 0)), Some(&0));
    for neighbor in Offset::from_coords(0, 0).oflat_neighbors() {
        assert!(!grid.contains_coord(MultiCoord::Offset(neighbor)));
    }
    for slot in 0..6 {
        assert_eq!(grid.link(MultiCoord::offset(0, 0), slot), None);
    }
}

#[test]
fn rectangular_grid_holds_every_column_and_row() {
    let grid = HexGrid::new_boxy(3, 2, 5);

    assert_eq!(grid.len(), 6);
    for col in 0..3 {
        for row in 0..2 {
            assert_eq!(grid.get(MultiCoord::offset(col, row)), Some(&5));
        }
    }
    assert_eq!(grid.get(MultiCoord::offset(3, 0)), None);
    assert_eq!(grid.get(MultiCoord::offset(0, 2)), None);
    assert_eq!(grid.get(MultiCoord::offset(-1, 0)), None);
    assert_eq!(grid.get(MultiCoord::offset(0, -1)), None);
    // (1, 0) is shoved down by half a hex: it touches (0, 0), (0, 1), (1, 1), (2, 0), (2, 1)
    let mut linked = 0;
    for slot in 0..6 {
        if grid.link(MultiCoord::offset(1, 0), slot).is_some() {
            linked += 1;
        }
    }
    assert_eq!(linked, 5);
    // 9 pairs of neighbors, linked in both directions
    assert_eq!(grid.links(), 18);
}

#[test]
fn empty_rectangular_grid() {
    let grid = HexGrid::new_boxy(0, 4, 1);

    assert_eq!(grid.len(), 0);
    assert_eq!(grid.get(MultiCoord::offset(0, 0)), None);
}

#[test]
fn new_grid_is_empty() {
    let grid: HexGrid<i32> = HexGrid::new(Tilt::Sharp, Parity::Odd, CoordSys::Double);

    assert_eq!(grid.len(), 0);
    assert_eq!(grid.links(), 0);
    assert!(grid.room());
    assert_eq!(grid.tilt, Tilt::Sharp);
    assert_eq!(grid.parity, Parity::Odd);
    assert_eq!(grid.sys, CoordSys::Double);
    assert!(!grid.contains_coord(MultiCoord::axial(0, 0)));

    let default: HexGrid<i32> = HexGrid::default();
    assert_eq!(default.tilt, Tilt::Flat);
    assert_eq!(default.parity, Parity::Even);
    assert_eq!(default.sys, CoordSys::Axial);
    assert_eq!(default.len(), 0);
}

#[test]
fn add_on_an_occupied_coordinate_fails() {
    let mut grid = HexGrid::new(Tilt::Flat, Parity::Even, CoordSys::Cube);
    let spot = MultiCoord::force_cube(2, -3, 1);

    assert_eq!(grid.add(spot, 10), Ok(()));
    assert_eq!(grid.add(spot, 20), Err(GridError::AlreadyOccupied));
    assert_eq!(grid.get(spot), Some(&10));
    assert_eq!(grid.len(), 1);
    // the same hex under its axial name
    assert_eq!(grid.add(MultiCoord::axial(2, 1), 30), Err(GridError::AlreadyOccupied));
    assert_eq!(grid.get(MultiCoord::axial(2, 1)), Some(&10));
}

#[test]
fn update_on_a_vacant_coordinate_fails() {
    let mut grid = HexGrid::new(Tilt::Flat, Parity::Even, CoordSys::Cube);
    let spot = MultiCoord::axial(0, 0);

    assert_eq!(grid.update(spot, 1), Err(GridError::NotOccupied));
    assert_eq!(grid.get(spot), None);
    assert_eq!(grid.len(), 0);

    grid.set(spot, 2);
    assert_eq!(grid.update(spot, 3), Ok(()));
    assert_eq!(grid.get(spot), Some(&3));
    assert_eq!(grid.len(), 1);
}

#[test]
fn set_inserts_or_overwrites() {
    let mut grid = HexGrid::new(Tilt::Flat, Parity::Even, CoordSys::Cube);
    let here = MultiCoord::axial(0, 0);
    let there = MultiCoord::axial(1, 0);

    grid.set(here, 1);
    grid.set(there, 2);
    assert_eq!(grid.links(), 2);
    grid.set(here, 3);
    assert_eq!(grid.get(here), Some(&3));
    assert_eq!(grid.get(there), Some(&2));
    assert_eq!(grid.len(), 2);
    // overwriting makes no second pair of links
    assert_eq!(grid.links(), 2);
}

#[test]
fn remove_returns_the_value_and_unlinks() {
    let mut grid = HexGrid::new_radial(1, 0);
    let center = MultiCoord::Cube(Cube::origin());
    grid.set(center, 42);

    assert_eq!(grid.remove(center), Some(42));
    assert!(!grid.contains_coord(center));
    assert_eq!(grid.get(center), None);
    assert_eq!(grid.len(), 6);
    assert_eq!(grid.remove(center), None);
    assert_eq!(grid.len(), 6);
    // the six spokes are gone, the rim stays
    assert_eq!(grid.links(), 12);
    for slot in 0..6 {
        assert_eq!(grid.link(center, slot), None);
        let rim = Cube::origin().neighbor(slot);
        assert_eq!(grid.link(MultiCoord::Cube(rim), slot + 3), None);
    }
    links_match_neighbors(&grid, &Cube::origin().spiral(2));

    // a hex put back is linked again
    grid.set(center, 1);
    assert_eq!(grid.links(), 24);
    links_match_neighbors(&grid, &Cube::origin().spiral(2));
}

#[test]
fn links_follow_every_change() {
    let mut grid = HexGrid::new(Tilt::Sharp, Parity::Even, CoordSys::Axial);
    let around = Cube::origin().spiral(3);

    assert_eq!(grid.add(MultiCoord::axial(0, 0), 1), Ok(()));
    links_match_neighbors(&grid, &around);
    grid.set(MultiCoord::axial(1, 0), 2);
    links_match_neighbors(&grid, &around);
    grid.set(MultiCoord::axial(0, 1), 3);
    links_match_neighbors(&grid, &around);
    assert_eq!(grid.links(), 6);
    grid.set(MultiCoord::axial(2, -1), 4);
    links_match_neighbors(&grid, &around);
    assert_eq!(grid.remove(MultiCoord::axial(1, 0)), Some(2));
    links_match_neighbors(&grid, &around);
    assert_eq!(grid.links(), 2);
    assert_eq!(grid.remove(MultiCoord::axial(5, 5)), None);
    grid.set(MultiCoord::axial(1, 0), 5);
    grid.set(MultiCoord::axial(1, -1), 6);
    links_match_neighbors(&grid, &around);
    assert_eq!(grid.len(), 5);
}

#[test]
fn link_directions_follow_the_tilt() {
    let mut grid = HexGrid::new_radial(1, 0);
    let center = MultiCoord::Cube(Cube::origin());

    let flat = [
        Compass::Northeast,
        Compass::Southeast,
        Compass::South,
        Compass::Southwest,
        Compass::Northwest,
        Compass::North,
    ];
    for slot in 0..6 {
        assert_eq!(grid.link(center, slot), Some(flat[slot]));
        assert_eq!(grid.link(center, slot + 6), Some(flat[slot]));
        let rim = MultiCoord::Cube(Cube::origin().neighbor(slot));
        assert_eq!(grid.link(rim, slot + 3), Some(flat[slot].inverse()));
    }

    grid.tilt = Tilt::Sharp;
    let sharp = [
        Compass::Northeast,
        Compass::East,
        Compass::Southeast,
        Compass::Southwest,
        Compass::West,
        Compass::Northwest,
    ];
    for slot in 0..6 {
        assert_eq!(grid.link(center, slot), Some(sharp[slot]));
        let rim = MultiCoord::Cube(Cube::origin().neighbor(slot));
        assert_eq!(grid.link(rim, slot + 3), Some(sharp[slot].inverse()));
    }
}

#[test]
fn set_layout_renames_the_hexes() {
    let mut grid = HexGrid::new_boxy(2, 2, 1);
    grid.set(MultiCoord::offset(1, 1), 8);
    assert_eq!(grid.get(MultiCoord::force_cube(1, -2, 1)), Some(&8));

    grid.set_layout(Tilt::Flat, Parity::Even, CoordSys::Cube);
    assert_eq!(grid.tilt, Tilt::Flat);
    assert_eq!(grid.parity, Parity::Even);
    assert_eq!(grid.sys, CoordSys::Cube);
    assert_eq!(grid.len(), 4);
    // the hex is where it was; its offset name is another one now
    assert_eq!(grid.get(MultiCoord::force_cube(1, -2, 1)), Some(&8));
    assert_eq!(grid.get(MultiCoord::offset(1, 2)), Some(&8));
    assert_eq!(grid.get(MultiCoord::offset(1, 1)), Some(&1));
    assert_eq!(grid.links(), 10);
}

#[test]
fn get_mut_changes_a_value_in_place() {
    let mut grid = HexGrid::new_radial(1, 0);
    let spot = MultiCoord::axial(1, -1);

    match grid.get_mut(spot) {
        Some(value) => *value = 9,
        None => panic!("the hex is occupied"),
    }
    assert_eq!(grid.get(spot), Some(&9));
    assert_eq!(grid.get(MultiCoord::axial(0, 0)), Some(&0));
    assert_eq!(grid.len(), 7);
    assert_eq!(grid.links(), 24);
    assert!(grid.get_mut(MultiCoord::axial(2, 0)).is_none());
    assert_eq!(grid.len(), 7);
}

#[test]
fn contains_value_scans_all_hexes() {
    let mut grid = HexGrid::new_radial(1, 0);

    assert!(grid.contains_value(0));
    assert!(!grid.contains_value(4));
    grid.set(MultiCoord::axial(0, 1), 4);
    assert!(grid.contains_value(4));
    assert_eq!(grid.remove(MultiCoord::axial(0, 1)), Some(4));
    assert!(!grid.contains_value(4));

    let empty: HexGrid<i32> = HexGrid::default();
    assert!(!empty.contains_value(0));
}

#[test]
fn cube_from_reads_each_system_by_the_layout() {
    let layouts = [
        (Tilt::Flat, Parity::Odd),
        (Tilt::Flat, Parity::Even),
        (Tilt::Sharp, Parity::Odd),
        (Tilt::Sharp, Parity::Even),
    ];
    let expected_one_one = [(1, -2, 1), (1, -1, 0), (1, -2, 1), (0, -1, 1)];
    let expected_odd = [(-1, -3, 4), (-1, -2, 3), (-2, -1, 3), (-3, 0, 3)];
    for (i, (tilt, parity)) in layouts.iter().enumerate() {
        let grid: HexGrid<i32> = HexGrid::new(*tilt, *parity, CoordSys::Offset);
        assert_eq!(grid.cube_from(MultiCoord::offset(0, 0)), Cube::origin());
        assert_eq!(grid.cube_from(MultiCoord::offset(1, 1)).to_tuple(), expected_one_one[i]);
        assert_eq!(grid.cube_from(MultiCoord::offset(-1, 3)).to_tuple(), expected_odd[i]);
        assert_eq!(grid.cube_from(MultiCoord::axial(4, -1)).to_tuple(), (4, -3, -1));
        assert_eq!(grid.cube_from(MultiCoord::force_cube(4, -3, -1)).to_tuple(), (4, -3, -1));
    }
    let flat: HexGrid<i32> = HexGrid::new(Tilt::Flat, Parity::Even, CoordSys::Double);
    let sharp: HexGrid<i32> = HexGrid::new(Tilt::Sharp, Parity::Even, CoordSys::Double);
    assert_eq!(flat.cube_from(MultiCoord::force_double(1, 3)).to_tuple(), (1, -2, 1));
    assert_eq!(sharp.cube_from(MultiCoord::force_double(3, 1)).to_tuple(), (1, -2, 1));
    assert_eq!(flat.cube_from(MultiCoord::force_double(-3, 1)).to_tuple(), (-3, 1, 2));
    assert_eq!(sharp.cube_from(MultiCoord::force_double(-3, 1)).to_tuple(), (-2, 1, 1));
}

#[test]
fn one_hex_under_four_names() {
    let mut grid = HexGrid::new(Tilt::Flat, Parity::Odd, CoordSys::Offset);

    grid.set(MultiCoord::offset(1, 1), 'a');
    assert_eq!(grid.get(MultiCoord::force_cube(1, -2, 1)), Some(&'a'));
    assert_eq!(grid.get(MultiCoord::Axial(Axial::from_coords(1, 1))), Some(&'a'));
    assert_eq!(grid.get(MultiCoord::Double(Double::force_from_coords(1, 3))), Some(&'a'));
    assert_eq!(grid.get(MultiCoord::offset(1, 0)), None);
}

#[test]
fn compass_turns_and_inverts() {
    assert_eq!(Compass::North.rotate_cw(0), Compass::North);
    assert_eq!(Compass::North.rotate_cw(1), Compass::Northeast);
    assert_eq!(Compass::Northeast.rotate_cw(2), Compass::Southeast);
    assert_eq!(Compass::West.rotate_cw(3), Compass::Northeast);
    assert_eq!(Compass::Northwest.rotate_cw(1), Compass::North);
    assert_eq!(Compass::South.rotate_cw(8), Compass::South);
    assert_eq!(Compass::South.rotate_cw(13), Compass::North.rotate_cw(1));
    assert_eq!(Compass::East.rotate_cw(4), Compass::East.inverse());

    assert_eq!(Compass::North.inverse(), Compass::South);
    assert_eq!(Compass::Northeast.inverse(), Compass::Southwest);
    assert_eq!(Compass::East.inverse(), Compass::West);
    assert_eq!(Compass::Southeast.inverse(), Compass::Northwest);
    assert_eq!(Compass::South.inverse(), Compass::North);
    assert_eq!(Compass::Southwest.inverse(), Compass::Northeast);
    assert_eq!(Compass::West.inverse(), Compass::East);
    assert_eq!(Compass::Northwest.inverse(), Compass::Southeast);

    for slot in 0..12 {
        assert_eq!(
            Compass::of_slot(Tilt::Flat, slot + 3),
            Compass::of_slot(Tilt::Flat, slot).inverse()
        );
        assert_eq!(
            Compass::of_slot(Tilt::Sharp, slot + 3),
            Compass::of_slot(Tilt::Sharp, slot).inverse()
        );
    }
}

#[test]
fn tilt_and_parity_alternate() {
    assert_eq!(Tilt::Flat.other(), Tilt::Sharp);
    assert_eq!(Tilt::Sharp.other(), Tilt::Flat);
    assert_eq!(Parity::Even.other(), Parity::Odd);
    assert_eq!(Parity::Odd.other(), Parity::Even);
    assert_eq!(Tilt::default(), Tilt::Flat);
    assert_eq!(Parity::default(), Parity::Even);
}
