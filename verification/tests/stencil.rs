use softrender::stencil::{GenericStencilConfig, Stencil, StencilConfig, StencilOp, StencilTest};

#[test]
fn invert_zero_replace_keep() {
    assert_eq!(StencilOp::Invert.op(0b1010_0101u8, 7), 0b0101_1010);
    assert_eq!(StencilOp::Invert.op(5i32, 7), -6);
    assert_eq!(StencilOp::Invert.op(0u64, 1), u64::MAX);
    assert_eq!(StencilOp::Zero.op(99u16, 7), 0);
    assert_eq!(StencilOp::Replace.op(99u16, 7), 7);
    assert_eq!(StencilOp::Keep.op(99u16, 7), 99);
}

#[test]
fn increment_and_decrement_at_the_bounds() {
    assert_eq!(StencilOp::Increment { wrap: true }.op(u8::MAX, 0), u8::MIN);
    assert_eq!(StencilOp::Increment { wrap: false }.op(u8::MAX, 0), u8::MAX);
    assert_eq!(StencilOp::Decrement { wrap: true }.op(u8::MIN, 0), u8::MAX);
    assert_eq!(StencilOp::Decrement { wrap: false }.op(u8::MIN, 0), u8::MIN);
    assert_eq!(StencilOp::Increment { wrap: true }.op(i16::MAX, 0), i16::MIN);
    assert_eq!(StencilOp::Increment { wrap: false }.op(i16::MAX, 0), i16::MAX);
    assert_eq!(StencilOp::Decrement { wrap: true }.op(i16::MIN, 0), i16::MAX);
    assert_eq!(StencilOp::Decrement { wrap: false }.op(i16::MIN, 0), i16::MIN);
    assert_eq!(StencilOp::Increment { wrap: true }.op(usize::MAX, 0), 0);
    assert_eq!(StencilOp::Decrement { wrap: false }.op(isize::MIN, 0), isize::MIN);
}

#[test]
fn increment_and_decrement_inside_the_bounds() {
    assert_eq!(StencilOp::Increment { wrap: true }.op(41u32, 0), 42);
    assert_eq!(StencilOp::Increment { wrap: false }.op(41u32, 0), 42);
    assert_eq!(StencilOp::Decrement { wrap: true }.op(-41i64, 0), -42);
    assert_eq!(StencilOp::Decrement { wrap: false }.op(-41i64, 0), -42);
}

#[test]
fn tests_compare_the_stored_value_with_the_reference() {
    // `test(value, mask)`: the reference value first, the stored value second.
    assert!(StencilTest::Always.test(1u8, 2u8));
    assert!(!StencilTest::Never.test(1u8, 1u8));
    assert!(StencilTest::LessThan.test(5u8, 3u8));
    assert!(!StencilTest::LessThan.test(3u8, 3u8));
    assert!(!StencilTest::LessThan.test(3u8, 5u8));
    assert!(StencilTest::LessThanEq.test(3u8, 3u8));
    assert!(StencilTest::LessThanEq.test(5u8, 3u8));
    assert!(!StencilTest::LessThanEq.test(3u8, 5u8));
    assert!(StencilTest::GreaterThan.test(-5i32, -3i32));
    assert!(!StencilTest::GreaterThan.test(-3i32, -3i32));
    assert!(StencilTest::GreaterThanEq.test(-3i32, -3i32));
    assert!(!StencilTest::GreaterThanEq.test(-3i32, -5i32));
    assert!(StencilTest::Equal.test(7u64, 7u64));
    assert!(!StencilTest::Equal.test(7u64, 8u64));
    assert!(StencilTest::NotEqual.test(7u64, 8u64));
    assert!(!StencilTest::NotEqual.test(7u64, 7u64));
}

#[test]
fn unit_stencil_is_a_no_op() {
    assert_eq!(StencilOp::Invert.op((), ()), ());
    assert_eq!(StencilOp::Increment { wrap: true }.op((), ()), ());
    assert_eq!(StencilOp::Decrement { wrap: false }.op((), ()), ());
    assert!(StencilTest::Always.test((), ()));
    assert!(!StencilTest::Never.test((), ()));
    assert!(StencilTest::Equal.test((), ()));
    assert!(StencilTest::LessThanEq.test((), ()));
    assert!(!StencilTest::LessThan.test((), ()));
    assert!(!StencilTest::NotEqual.test((), ()));
}

#[test]
fn stencil_arithmetic_on_integers() {
    assert_eq!(<u8 as Stencil>::zero(), 0);
    assert_eq!(<u8 as Stencil>::one(), 1);
    assert_eq!(Stencil::not(0x0fu8), 0xf0);
    assert_eq!(Stencil::wrapping_add(250u8, 10u8), 4);
    assert_eq!(Stencil::wrapping_sub(5u8, 10u8), 251);
    assert_eq!(Stencil::saturating_add(250u8, 10u8), 255);
    assert_eq!(Stencil::saturating_sub(5u8, 10u8), 0);
    assert_eq!(Stencil::wrapping_add(120i8, 10i8), -126);
    assert_eq!(Stencil::wrapping_sub(-120i8, 10i8), 126);
    assert_eq!(Stencil::saturating_add(120i8, 10i8), 127);
    assert_eq!(Stencil::saturating_add(-120i8, -10i8), -128);
    assert_eq!(Stencil::saturating_sub(-120i8, 10i8), -128);
    assert_eq!(Stencil::saturating_sub(120i8, -10i8), 127);
    assert_eq!(Stencil::saturating_sub(20i8, 10i8), 10);
    assert!(Stencil::less(3i64, 4i64));
    assert!(!Stencil::less(4i64, 4i64));
    assert!(Stencil::same(4usize, 4usize));
}

#[test]
fn stencil_configurations() {
    let config = GenericStencilConfig::default();
    assert_eq!(config.get_op(), StencilOp::Keep);
    assert_eq!(config.get_test(), StencilTest::Always);
    let config = GenericStencilConfig { op: StencilOp::Replace, test: StencilTest::NotEqual };
    assert_eq!(config.get_op(), StencilOp::Replace);
    assert_eq!(config.get_test(), StencilTest::NotEqual);
    assert_eq!(().get_op(), StencilOp::Keep);
    assert_eq!(().get_test(), StencilTest::Always);
}
