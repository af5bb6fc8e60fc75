//! Double coordinates: arithmetic, construction, neighbors and distances.

use chickenwire::coordinate::double::Double;

/// The double coordinate `(col, row)`; panics where the sum is odd.
fn double(col: i32, row: i32) -> Double {
    Double::from_coords(col, row).unwrap()
}

#[test]
fn test_add_trait() {
    let d1 = Double::force_from_coords(1, 3);
    let d2 = Double::force_from_coords(0, 2);
    let d3 = Double::force_from_coords(-4, 6);

    assert_eq!(Double::force_from_coords(2, 6), d1 + d1);
    assert_eq!(Double::force_from_coords(1, 5), d1 + d2);
    assert_eq!(Double::force_from_coords(-3, 9), d1 + d3);

    assert_eq!(Double::force_from_coords(0, 4), d2 + d2);
    assert_eq!(Double::force_from_coords(-4, 8), d2 + d3);

    assert_eq!(Double::force_from_coords(-8, 12), d3 + d3);
}

#[test]
fn test_sub_trait() {
    let d1 = Double::force_from_coords(2, 4);
    let d2 = Double::force_from_coords(0, -2);
    let d3 = Double::force_from_coords(3, 7);

    assert_eq!(Double::origin(), d1 - d1);
    assert_eq!(Double::force_from_coords(2, 6), d1 - d2);
    assert_eq!(Double::force_from_coords(-1, -3), d1 - d3);

    assert_eq!(Double::force_from_coords(-2, -6), d2 - d1);
    assert_eq!(Double::origin(), d2 - d2);
    assert_eq!(Double::force_from_coords(-3, -9), d2 - d3);

    assert_eq!(Double::force_from_coords(1, 3), d3 - d1);
    assert_eq!(Double::force_from_coords(3, 9), d3 - d2);
    assert_eq!(Double::origin(), d3 - d3);
}

#[test]
fn test_mul_trait() {
    let d1 = Double::force_from_coords(1, 3);
    let d2 = Double::force_from_coords(-2, 8);
    let d3 = Double::force_from_coords(-3, -1);

    assert_eq!(2 * d1, d1 + d1);
    assert_eq!(0 * d1, Double::origin());
    assert_eq!(-1 * d1, Double::origin() - d1);

    assert_eq!(5 * d2, d2 + d2 + d2 + d2 + d2);
    assert_eq!(0 * d2, Double::origin());
    assert_eq!(-3 * d2, Double::origin() - d2 - d2 - d2);

    assert_eq!(1 * d3, d3);
    assert_eq!(14 * d3, Double::force_from_coords(-42, -14));
}

#[test]
fn test_double_from_tuple_trait() {
    assert_eq!(Double::from_tuple((0, 0)).unwrap(), Double::origin());
    assert_eq!(Double::from_tuple((3, 1)).unwrap(), double(3, 1));
    assert_eq!(Double::from_tuple((2, 8)).unwrap(), double(2, 8));
}

#[test]
fn test_from_coords_ok() {
    let ok_double_1 = Ok(double(1, 3));
    let ok_double_2 = Ok(double(2, 4));
    let ok_double_3 = Ok(double(3, 5));
    let ok_double_4 = Ok(double(8, -4));
    let ok_double_5 = Ok(double(-2, 6));

    assert_eq!(ok_double_1, Double::from_coords(1, 3));
    assert_eq!(ok_double_2, Double::from_coords(2, 4));
    assert_eq!(ok_double_3, Double::from_coords(3, 5));
    assert_eq!(ok_double_4, Double::from_coords(8, -4));
    assert_eq!(ok_double_5, Double::from_coords(-2, 6));
}

#[test]
fn test_from_coords_err() {
    let err_double_1 = Double::from_coords(0, 1);
    let err_double_2 = Double::from_coords(1, 0);
    let err_double_3 = Double::from_coords(2, 1);
    let err_double_4 = Double::from_coords(-4, 3);
    let err_double_5 = Double::from_coords(5, -6);

    assert!(err_double_1.is_err());
    assert!(err_double_2.is_err());
    assert!(err_double_3.is_err());
    assert!(err_double_4.is_err());
    assert!(err_double_5.is_err());
}

#[test]
fn test_force_from_coords_valid() {
    let double_1 = double(1, 3);
    let double_2 = double(2, 4);
    let double_3 = double(3, 5);
    let double_4 = double(8, -4);
    let double_5 = double(-2, 6);

    assert_eq!(double_1, Double::force_from_coords(1, 3));
    assert_eq!(double_2, Double::force_from_coords(2, 4));
    assert_eq!(double_3, Double::force_from_coords(3, 5));
    assert_eq!(double_4, Double::force_from_coords(8, -4));
    assert_eq!(double_5, Double::force_from_coords(-2, 6));
}

#[test]
fn test_from_tuple_ok() {
    let ok_double_1 = Ok(double(1, 3));
    let ok_double_2 = Ok(double(2, 4));
    let ok_double_3 = Ok(double(3, 5));
    let ok_double_4 = Ok(double(8, -4));
    let ok_double_5 = Ok(double(-2, 6));

    assert_eq!(ok_double_1, Double::from_tuple((1, 3)));
    assert_eq!(ok_double_2, Double::from_tuple((2, 4)));
    assert_eq!(ok_double_3, Double::from_tuple((3, 5)));
    assert_eq!(ok_double_4, Double::from_tuple((8, -4)));
    assert_eq!(ok_double_5, Double::from_tuple((-2, 6)));
}

#[test]
fn test_from_tuple_err() {
    let err_double_1 = Double::from_tuple((0, 1));
    let err_double_2 = Double::from_tuple((1, 0));
    let err_double_3 = Double::from_tuple((2, 1));
    let err_double_4 = Double::from_tuple((-4, 3));
    let err_double_5 = Double::from_tuple((5, -6));

    assert!(err_double_1.is_err());
    assert!(err_double_2.is_err());
    assert!(err_double_3.is_err());
    assert!(err_double_4.is_err());
    assert!(err_double_5.is_err());
}

#[test]
fn test_col() {
    let col_1 = 1;
    let col_2 = 2;

    let double_1 = double(col_1, 3);
    let double_2 = double(col_2, 4);

    assert_eq!(double_1.col(), col_1);
    assert_eq!(double_2.col(), col_2);
}

#[test]
fn test_row() {
    let row_1 = 3;
    let row_2 = 4;

    let double_1 = double(1, row_1);
    let double_2 = double(2, row_2);

    assert_eq!(double_1.row(), row_1);
    assert_eq!(double_2.row(), row_2);
}

#[test]
fn test_flat_neighbors() {
    let exp_origin_neighbors = vec![
        double(1, -1),
        double(1, 1),
        double(0, 2),
        double(-1, 1),
        double(-1, -1),
        double(0, -2),
    ];

    assert_eq!(
        exp_origin_neighbors,
        Double::origin().flat_neighbors(),
        "origin neighbors"
    );

    let offset_coord = double(1, 3);
    let exp_offset_neighbors = vec![
        double(2, 2),
        double(2, 4),
        double(1, 5),
        double(0, 4),
        double(0, 2),
        double(1, 1),
    ];

    assert_eq!(
        exp_offset_neighbors,
        offset_coord.flat_neighbors(),
        "offset neighbors"
    );
}

#[test]
fn test_sharp_neighbors() {
    let exp_origin_neighbors = vec![
        double(1, -1),
        double(2, 0),
        double(1, 1),
        double(-1, 1),
        double(-2, 0),
        double(-1, -1),
    ];

    assert_eq!(
        exp_origin_neighbors,
        Double::origin().sharp_neighbors(),
        "origin neighbors"
    );

    let offset_coord = double(3, 5);
    let exp_offset_neighbors = vec![
        double(4, 4),
        double(5, 5),
        double(4, 6),
        double(2, 6),
        double(1, 5),
        double(2, 4),
    ];

    assert_eq!(
        exp_offset_neighbors,
        offset_coord.sharp_neighbors(),
        "offset neighbors"
    );
}

#[test]
fn test_flat_dist() {
    let coord_1 = double(1, 3);
    let coord_2 = double(2, 8);
    let coord_3 = double(3, 5);
    let coord_4 = double(4, 4);
    let coord_5 = double(7, 11);

    assert_eq!(Double::origin().flat_dist(coord_1), 2);
    assert_eq!(Double::origin().flat_dist(coord_2), 5);
    assert_eq!(Double::origin().flat_dist(coord_3), 4);
    assert_eq!(Double::origin().flat_dist(coord_4), 4);
    assert_eq!(Double::origin().flat_dist(coord_5), 9);

    assert_eq!(coord_1.flat_dist(coord_1), 0);
    assert_eq!(coord_1.flat_dist(coord_2), 3);
    assert_eq!(coord_1.flat_dist(coord_3), 2);
    assert_eq!(coord_1.flat_dist(coord_4), 3);
    assert_eq!(coord_1.flat_dist(coord_5), 7);

    assert_eq!(coord_5.flat_dist(coord_5), 0);
    assert_eq!(coord_5.flat_dist(coord_4), 5);
    assert_eq!(coord_5.flat_dist(coord_3), 5);
    assert_eq!(coord_5.flat_dist(coord_2), 5);
    assert_eq!(coord_5.flat_dist(coord_1), 7);
}

#[test]
fn test_sharp_dist() {
    let coord_1 = double(1, 3);
    let coord_2 = double(4, 2);
    let coord_3 = double(7, 3);
    let coord_4 = double(8, 0);
    let coord_5 = double(12, 6);

    assert_eq!(Double::origin().sharp_dist(coord_1), 3);
    assert_eq!(Double::origin().sharp_dist(coord_2), 3);
    assert_eq!(Double::origin().sharp_dist(coord_3), 5);
    assert_eq!(Double::origin().sharp_dist(coord_4), 4);
    assert_eq!(Double::origin().sharp_dist(coord_5), 9);

    assert_eq!(coord_1.sharp_dist(coord_1), 0);
    assert_eq!(coord_1.sharp_dist(coord_2), 2);
    assert_eq!(coord_1.sharp_dist(coord_3), 3);
    assert_eq!(coord_1.sharp_dist(coord_4), 5);
    assert_eq!(coord_1.sharp_dist(coord_5), 7);

    assert_eq!(coord_5.sharp_dist(coord_5), 0);
    assert_eq!(coord_5.sharp_dist(coord_4), 6);
    assert_eq!(coord_5.sharp_dist(coord_3), 4);
    assert_eq!(coord_5.sharp_dist(coord_2), 6);
    assert_eq!(coord_5.sharp_dist(coord_1), 7);
}
