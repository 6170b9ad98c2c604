use softrender::geometry::{Coordinate, Dimensions};

#[test]
fn coordinate_index() {
    let dim = Dimensions::new(10, 20);

    let mut i = 0;

    for y in 0..dim.height {
        for x in 0..dim.width {
            let coord = Coordinate::new(x, y);

            assert_eq!(coord.into_index(dim), i);
            assert_eq!(Coordinate::from_index(i, dim), coord);

            i += 1;
        }
    }
}

#[test]
fn index_round_trip_on_a_wide_surface() {
    let dim = Dimensions::new(7, 3);
    for index in 0..dim.area() {
        let coord = Coordinate::from_index(index, dim);
        assert!(coord.x < 7 && coord.y < 3);
        assert_eq!(coord.into_index(dim), index);
    }
    assert_eq!(Coordinate::new(6, 2).into_index(dim), 20);
    assert_eq!(Coordinate::new(0, 1).into_index(dim), 7);
}

#[test]
fn from_index_beyond_the_area_keeps_counting_rows() {
    let dim = Dimensions::new(4, 2);
    assert_eq!(Coordinate::from_index(8, dim), Coordinate::new(0, 2));
    assert_eq!(Coordinate::from_index(11, dim), Coordinate::new(3, 2));
}

#[test]
fn dimensions_area() {
    assert_eq!(Dimensions::new(10, 20).area(), 200);
    assert_eq!(Dimensions::new(0, 20).area(), 0);
    assert_eq!(Dimensions::new(1, 1).area(), 1);
    let d = Dimensions::new(3, 5);
    assert_eq!((d.width, d.height), (3, 5));
}

#[test]
fn coordinate_default_is_the_origin() {
    assert_eq!(Coordinate::default(), Coordinate::new(0, 0));
}

#[test]
fn coordinate_addition() {
    let sum = Coordinate::new(1, 2) + Coordinate::new(30, 40);
    assert_eq!(sum, Coordinate::new(31, 42));
    let mut c = Coordinate::new(5, 6);
    c += Coordinate::new(1, 1);
    assert_eq!(c, Coordinate::new(6, 7));
}

#[test]
fn coordinate_vector_round_trip() {
    let v = nalgebra::Vector2::new(3u32, 7u32);
    let c = Coordinate::from_vector(v);
    assert_eq!(c, Coordinate::new(3, 7));
    assert_eq!(c.into_vector(), v);
    assert_eq!(Coordinate::new(9, 4).into_vector(), nalgebra::Vector2::new(9u32, 4u32));
}

#[test]
fn coordinate_vector_conversions() {
    let c: Coordinate = nalgebra::Vector2::new(11u32, 12u32).into();
    assert_eq!(c, Coordinate::new(11, 12));
    let v: nalgebra::Vector2<u32> = Coordinate::new(13, 14).into();
    assert_eq!((v.x, v.y), (13, 14));
}
