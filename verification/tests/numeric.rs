use softrender::numeric::interpolate::floor_div;
use softrender::numeric::{Barycentric, Fraction, Interpolate, HALF_PIXEL, SUBPIXEL};

#[test]
fn a_pixel_has_256_positions() {
    assert_eq!(SUBPIXEL, 256);
    assert_eq!(HALF_PIXEL, 128);
}

#[test]
fn floor_division_rounds_down() {
    assert_eq!(floor_div(7, 2), 3);
    assert_eq!(floor_div(-7, 2), -4);
    assert_eq!(floor_div(-8, 2), -4);
    assert_eq!(floor_div(0, 5), 0);
    assert_eq!(floor_div(-1, 256), -1);
    assert_eq!(floor_div(255, 256), 0);
}

#[test]
fn barycentric_interpolation_of_scalars() {
    let weights = Barycentric { u: 1, v: 1, w: 2 };
    assert_eq!(<i32 as Interpolate>::barycentric_interpolate(&weights, &10, &20, &30), 22);
    assert_eq!(<i32 as Interpolate>::barycentric_interpolate(&weights, &-10, &-20, &-30), -23);
    let corner = Barycentric { u: 0, v: 5, w: 0 };
    assert_eq!(<i32 as Interpolate>::barycentric_interpolate(&corner, &1, &-7, &3), -7);
    let large = Barycentric { u: 1 << 64, v: 1 << 64, w: 1 << 65 };
    assert_eq!(
        <i32 as Interpolate>::barycentric_interpolate(&large, &i32::MAX, &i32::MAX, &i32::MAX),
        i32::MAX
    );
    assert_eq!(<i32 as Interpolate>::barycentric_interpolate(&large, &i32::MIN, &i32::MIN, &i32::MAX), -1);
}

#[test]
fn linear_interpolation_of_scalars() {
    let third = Fraction { numerator: 1, denominator: 3 };
    assert_eq!(<i32 as Interpolate>::linear_interpolate(&third, &0, &10), 3);
    assert_eq!(<i32 as Interpolate>::linear_interpolate(&third, &0, &-10), -4);
    let start = Fraction { numerator: 0, denominator: 1 };
    assert_eq!(<i32 as Interpolate>::linear_interpolate(&start, &5, &9), 5);
    let end = Fraction { numerator: 4, denominator: 4 };
    assert_eq!(<i32 as Interpolate>::linear_interpolate(&end, &5, &9), 9);
    assert_eq!(<i32 as Interpolate>::linear_interpolate(&end, &i32::MIN, &i32::MAX), i32::MAX);
}

#[test]
fn unit_data_interpolates_to_unit() {
    let weights = Barycentric { u: 1, v: 1, w: 1 };
    assert_eq!(<() as Interpolate>::barycentric_interpolate(&weights, &(), &(), &()), ());
    let half = Fraction { numerator: 1, denominator: 2 };
    assert_eq!(<() as Interpolate>::linear_interpolate(&half, &(), &()), ());
}

#[test]
fn data_in_two_parts_interpolates_part_by_part() {
    let weights = Barycentric { u: 1, v: 1, w: 2 };
    assert_eq!(
        <(i32, ((), i32)) as Interpolate>::barycentric_interpolate(&weights, &(10, ((), 0)), &(20, ((), 4)), &(30, ((), 8))),
        (22, ((), 5))
    );
    let quarter = Fraction { numerator: 1, denominator: 4 };
    assert_eq!(<(i32, i32) as Interpolate>::linear_interpolate(&quarter, &(0, 8), &(8, 0)), (2, 6));
}
