use softrender::attachments::{
    AlphaMultiply, Blend, Color, ColorAlpha, Depth, Luma, LumaA, Overwrite, Rgb, Rgba, ScaleAlpha, SourceOver,
};
use softrender::error::RenderError;

#[test]
fn far_is_the_smallest_value() {
    assert_eq!(<i8 as Depth>::far(), i8::MIN);
    assert_eq!(<i16 as Depth>::far(), i16::MIN);
    assert_eq!(<i32 as Depth>::far(), i32::MIN);
    assert_eq!(<i64 as Depth>::far(), i64::MIN);
    assert_eq!(<isize as Depth>::far(), isize::MIN);
    assert_eq!(<u8 as Depth>::far(), 0);
    assert_eq!(<u16 as Depth>::far(), 0);
    assert_eq!(<u32 as Depth>::far(), 0);
    assert_eq!(<u64 as Depth>::far(), 0);
    assert_eq!(<usize as Depth>::far(), 0);
    assert_eq!(<() as Depth>::far(), ());
}

#[test]
fn depth_from_scalar_in_range() {
    assert_eq!(<i8 as Depth>::from_scalar(-128), Ok(-128i8));
    assert_eq!(<i8 as Depth>::from_scalar(127), Ok(127i8));
    assert_eq!(<i16 as Depth>::from_scalar(-32768), Ok(-32768i16));
    assert_eq!(<i32 as Depth>::from_scalar(i32::MIN), Ok(i32::MIN));
    assert_eq!(<i64 as Depth>::from_scalar(i32::MAX), Ok(i32::MAX as i64));
    assert_eq!(<isize as Depth>::from_scalar(-7), Ok(-7isize));
    assert_eq!(<u8 as Depth>::from_scalar(255), Ok(255u8));
    assert_eq!(<u16 as Depth>::from_scalar(65535), Ok(65535u16));
    assert_eq!(<u32 as Depth>::from_scalar(i32::MAX), Ok(i32::MAX as u32));
    assert_eq!(<u64 as Depth>::from_scalar(12), Ok(12u64));
    assert_eq!(<usize as Depth>::from_scalar(0), Ok(0usize));
    assert_eq!(<() as Depth>::from_scalar(-5), Ok(()));
}

#[test]
fn depth_from_scalar_out_of_range_is_a_bad_cast() {
    assert_eq!(<i8 as Depth>::from_scalar(128), Err(RenderError::BadCast));
    assert_eq!(<i8 as Depth>::from_scalar(-129), Err(RenderError::BadCast));
    assert_eq!(<i16 as Depth>::from_scalar(32768), Err(RenderError::BadCast));
    assert_eq!(<u8 as Depth>::from_scalar(256), Err(RenderError::BadCast));
    assert_eq!(<u8 as Depth>::from_scalar(-1), Err(RenderError::BadCast));
    assert_eq!(<u16 as Depth>::from_scalar(65536), Err(RenderError::BadCast));
    assert_eq!(<u32 as Depth>::from_scalar(-1), Err(RenderError::BadCast));
    assert_eq!(<u64 as Depth>::from_scalar(i32::MIN), Err(RenderError::BadCast));
    assert_eq!(<usize as Depth>::from_scalar(-1), Err(RenderError::BadCast));
}

#[test]
fn depth_order() {
    assert!(Depth::less(1i32, 2i32));
    assert!(!Depth::less(2i32, 2i32));
    assert!(!Depth::less(3u8, 2u8));
    assert!(!Depth::less((), ()));
}

#[test]
fn empty_colors() {
    assert_eq!(<Rgb<u8> as Color>::empty(), Rgb { data: [0, 0, 0] });
    assert_eq!(<Luma<u16> as Color>::empty(), Luma { data: [0] });
    assert_eq!(<Rgba<u8> as Color>::empty(), Rgba { data: [0, 0, 0, 0] });
    assert_eq!(<LumaA<u16> as Color>::empty(), LumaA { data: [0, 0] });
    assert_eq!(<() as Color>::empty(), ());
}

#[test]
fn colors_without_alpha_ignore_it() {
    let rgb = Rgb { data: [1u8, 2, 3] };
    assert_eq!(rgb.with_alpha(()), rgb);
    assert_eq!(rgb.mul_alpha(()), rgb);
    assert_eq!(rgb.get_alpha(), ());
    let luma = Luma { data: [9u8] };
    assert_eq!(luma.with_alpha(()), luma);
    assert_eq!(luma.mul_alpha(()), luma);
    assert_eq!(luma.get_alpha(), ());
}

#[test]
fn colors_with_alpha() {
    let rgba = Rgba { data: [10u8, 20, 30, 200] };
    assert_eq!(rgba.with_alpha(7), Rgba { data: [10, 20, 30, 7] });
    assert_eq!(rgba.get_alpha(), 200);
    // 200 * 128 / 255 = 100.39..., rounded down.
    assert_eq!(rgba.mul_alpha(128), Rgba { data: [10, 20, 30, 100] });
    assert_eq!(rgba.mul_alpha(255), rgba);
    assert_eq!(rgba.mul_alpha(0), Rgba { data: [10, 20, 30, 0] });
    let luma = LumaA { data: [1000u16, 65535] };
    assert_eq!(luma.with_alpha(3), LumaA { data: [1000, 3] });
    assert_eq!(luma.get_alpha(), 65535);
    assert_eq!(luma.mul_alpha(32768), LumaA { data: [1000, 32768] });
}

#[test]
fn color_of_one_plane() {
    let color = (Rgba { data: [10u8, 20, 30, 200] },);
    assert_eq!(<(Rgba<u8>,) as Color>::empty(), (Rgba { data: [0, 0, 0, 0] },));
    assert_eq!(color.with_alpha(7), (Rgba { data: [10, 20, 30, 7] },));
    assert_eq!(color.mul_alpha(128), (Rgba { data: [10, 20, 30, 100] },));
    assert_eq!(color.get_alpha(), 200);
    assert_eq!(ScaleAlpha.blend(color, color, 51), (Rgba { data: [10, 20, 30, 40] },));
}

#[test]
fn channels() {
    assert_eq!(<u8 as ColorAlpha>::zero(), 0);
    assert_eq!(<u16 as ColorAlpha>::zero(), 0);
    assert_eq!(AlphaMultiply::mul_alpha(255u8, 255u8), 255);
    assert_eq!(AlphaMultiply::mul_alpha(255u8, 1u8), 1);
    assert_eq!(AlphaMultiply::mul_alpha(100u8, 100u8), 39);
    assert_eq!(AlphaMultiply::mul_alpha(65535u16, 65535u16), 65535);
    assert_eq!(AlphaMultiply::mul_alpha(30000u16, 30000u16), 13733);
    assert_eq!(AlphaMultiply::mul_alpha(u32::MAX, u32::MAX), u32::MAX);
    assert_eq!(AlphaMultiply::mul_alpha(3_000_000_000u32, 2_147_483_648u32), 1_500_000_000);
    assert_eq!(AlphaMultiply::mul_alpha(u64::MAX, u64::MAX), u64::MAX);
    assert_eq!(AlphaMultiply::mul_alpha(u64::MAX, 1u64), 1);
    assert_eq!(<i32 as ColorAlpha>::zero(), 0);
    assert_eq!(<Rgb<i64> as Color>::empty(), Rgb { data: [0, 0, 0] });
    assert_eq!((Rgba { data: [1u32, 2, 3, u32::MAX] }).mul_alpha(5), Rgba { data: [1, 2, 3, 5] });
}

#[test]
fn blending() {
    let source = Rgba { data: [200u8, 100, 0, 255] };
    let destination = Rgba { data: [0u8, 100, 200, 51] };
    assert_eq!(Overwrite.blend(source, destination, 17), source);
    assert_eq!(ScaleAlpha.blend(source, destination, 17), Rgba { data: [200, 100, 0, 17] });
    assert_eq!(SourceOver.blend(source, destination, 255), Rgba { data: [200, 100, 0, 255] });
    assert_eq!(SourceOver.blend(source, destination, 0), destination);
    // At the opacity 51, a fifth of the source and four fifths of the destination.
    assert_eq!(SourceOver.blend(source, destination, 51), Rgba { data: [40, 100, 160, 91] });
}
