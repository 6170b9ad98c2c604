//! The color attachment and the packed pixel formats.

use vstd::prelude::*;

use super::Attachment;

verus! {

/// A channel value of a packed pixel format.
pub trait ColorAlpha: Attachment {
    /// The channel value of an empty pixel.
    spec fn spec_zero() -> Self;

    /// The channel value of an empty pixel.
    fn zero() -> (r: Self)
        ensures
            r == Self::spec_zero(),
    ;
}

/// A channel value that can be scaled by an alpha value of its own type,
/// where the largest value of the type stands for full opacity: the scaled
/// channel is the product of the two over the largest value, rounded down.
pub trait AlphaMultiply: ColorAlpha {
    /// The channel scaled by `alpha`.
    spec fn spec_mul_alpha(self, alpha: Self) -> Self;

    /// Scales the channel by `alpha`.
    fn mul_alpha(self, alpha: Self) -> (r: Self)
        ensures
            r == self.spec_mul_alpha(alpha),
    ;
}

impl ColorAlpha for () {
    open spec fn spec_zero() -> () {
        ()
    }

    #[inline(always)]
    fn zero() -> () {
        ()
    }
}

impl AlphaMultiply for () {
    open spec fn spec_mul_alpha(self, alpha: ()) -> () {
        ()
    }

    #[inline(always)]
    fn mul_alpha(self, _alpha: ()) -> () {
        ()
    }
}

impl ColorAlpha for u8 {
    open spec fn spec_zero() -> u8 {
        0
    }

    #[inline(always)]
    fn zero() -> u8 {
        0
    }
}

impl AlphaMultiply for u8 {
    open spec fn spec_mul_alpha(self, alpha: u8) -> u8 {
        ((self * alpha) / 255) as u8
    }

    #[inline]
    fn mul_alpha(self, alpha: u8) -> u8 {
        assert(0 <= self * alpha <= 255 * 255) by (nonlinear_arith)
            requires
                0 <= self <= 255,
                0 <= alpha <= 255,
        ;
        let product: u16 = self as u16 * alpha as u16;
        (product / 255) as u8
    }
}

impl ColorAlpha for u16 {
    open spec fn spec_zero() -> u16 {
        0
    }

    #[inline(always)]
    fn zero() -> u16 {
        0
    }
}

impl AlphaMultiply for u16 {
    open spec fn spec_mul_alpha(self, alpha: u16) -> u16 {
        ((self * alpha) / 65535) as u16
    }

    #[inline]
    fn mul_alpha(self, alpha: u16) -> u16 {
        assert(0 <= self * alpha <= 65535 * 65535) by (nonlinear_arith)
            requires
                0 <= self <= 65535,
                0 <= alpha <= 65535,
        ;
        let product: u32 = self as u32 * alpha as u32;
        (product / 65535) as u16
    }
}

impl ColorAlpha for u32 {
    open spec fn spec_zero() -> u32 {
        0
    }

    #[inline(always)]
    fn zero() -> u32 {
        0
    }
}

impl AlphaMultiply for u32 {
    open spec fn spec_mul_alpha(self, alpha: u32) -> u32 {
        ((self * alpha) / 0xffff_ffff) as u32
    }

    #[inline]
    fn mul_alpha(self, alpha: u32) -> u32 {
        assert(0 <= self * alpha <= 0xffff_ffff * 0xffff_ffff) by (nonlinear_arith)
            requires
                0 <= self <= 0xffff_ffff,
                0 <= alpha <= 0xffff_ffff,
        ;
        let product: u64 = self as u64 * alpha as u64;
        (product / 0xffff_ffff) as u32
    }
}

impl ColorAlpha for u64 {
    open spec fn spec_zero() -> u64 {
        0
    }

    #[inline(always)]
    fn zero() -> u64 {
        0
    }
}

impl AlphaMultiply for u64 {
    open spec fn spec_mul_alpha(self, alpha: u64) -> u64 {
        ((self * alpha) / 0xffff_ffff_ffff_ffff) as u64
    }

    #[inline]
    fn mul_alpha(self, alpha: u64) -> u64 {
        assert(0 <= self * alpha <= 0xffff_ffff_ffff_ffff * 0xffff_ffff_ffff_ffff) by (nonlinear_arith)
            requires
                0 <= self <= 0xffff_ffff_ffff_ffff,
                0 <= alpha <= 0xffff_ffff_ffff_ffff,
        ;
        let product: u128 = self as u128 * alpha as u128;
        (product / 0xffff_ffff_ffff_ffff) as u64
    }
}

impl ColorAlpha for usize {
    open spec fn spec_zero() -> usize {
        0
    }

    #[inline(always)]
    fn zero() -> usize {
        0
    }
}

impl ColorAlpha for i8 {
    open spec fn spec_zero() -> i8 {
        0
    }

    #[inline(always)]
    fn zero() -> i8 {
        0
    }
}

impl ColorAlpha for i16 {
    open spec fn spec_zero() -> i16 {
        0
    }

    #[inline(always)]
    fn zero() -> i16 {
        0
    }
}

impl ColorAlpha for i32 {
    open spec fn spec_zero() -> i32 {
        0
    }

    #[inline(always)]
    fn zero() -> i32 {
        0
    }
}

impl ColorAlpha for i64 {
    open spec fn spec_zero() -> i64 {
        0
    }

    #[inline(always)]
    fn zero() -> i64 {
        0
    }
}

impl ColorAlpha for isize {
    open spec fn spec_zero() -> isize {
        0
    }

    #[inline(always)]
    fn zero() -> isize {
        0
    }
}

/// A value that can be stored as the color of a pixel.
pub trait Color: Attachment {
    /// The type of the alpha channel; the unit type for colors without one.
    type Alpha;

    /// The color of a pixel that nothing has been drawn on.
    spec fn spec_empty() -> Self;

    /// The color with its alpha channel replaced by `alpha`.
    spec fn spec_with_alpha(self, alpha: Self::Alpha) -> Self;

    /// The color with its alpha channel scaled by `alpha`.
    spec fn spec_mul_alpha(self, alpha: Self::Alpha) -> Self;

    /// The alpha channel of the color.
    spec fn spec_get_alpha(&self) -> Self::Alpha;

    /// The color of a pixel that nothing has been drawn on.
    fn empty() -> (c: Self)
        ensures
            c == Self::spec_empty(),
    ;

    /// Replaces the alpha channel.
    fn with_alpha(self, alpha: Self::Alpha) -> (c: Self)
        ensures
            c == self.spec_with_alpha(alpha),
    ;

    /// Scales the alpha channel by `alpha`.
    fn mul_alpha(self, alpha: Self::Alpha) -> (c: Self)
        ensures
            c == self.spec_mul_alpha(alpha),
    ;

    /// Reads the alpha channel.
    fn get_alpha(&self) -> (alpha: Self::Alpha)
        ensures
            alpha == self.spec_get_alpha(),
    ;
}

impl Color for () {
    type Alpha = ();

    open spec fn spec_empty() -> () {
        ()
    }

    open spec fn spec_with_alpha(self, alpha: ()) -> () {
        ()
    }

    open spec fn spec_mul_alpha(self, alpha: ()) -> () {
        ()
    }

    open spec fn spec_get_alpha(&self) -> () {
        ()
    }

    #[inline(always)]
    fn empty() -> () {
        ()
    }

    #[inline(always)]
    fn with_alpha(self, _alpha: ()) -> () {
        ()
    }

    #[inline(always)]
    fn mul_alpha(self, _alpha: ()) -> () {
        ()
    }

    #[inline(always)]
    fn get_alpha(&self) -> () {
        ()
    }
}

/// The color of a framebuffer with one color plane: the color of the plane.
impl<C: Color> Color for (C,) {
    type Alpha = C::Alpha;

    open spec fn spec_empty() -> (C,) {
        (C::spec_empty(),)
    }

    open spec fn spec_with_alpha(self, alpha: C::Alpha) -> (C,) {
        (self.0.spec_with_alpha(alpha),)
    }

    open spec fn spec_mul_alpha(self, alpha: C::Alpha) -> (C,) {
        (self.0.spec_mul_alpha(alpha),)
    }

    open spec fn spec_get_alpha(&self) -> C::Alpha {
        self.0.spec_get_alpha()
    }

    #[inline]
    fn empty() -> (C,) {
        (C::empty(),)
    }

    #[inline]
    fn with_alpha(self, alpha: C::Alpha) -> (C,) {
        (self.0.with_alpha(alpha),)
    }

    #[inline]
    fn mul_alpha(self, alpha: C::Alpha) -> (C,) {
        (self.0.mul_alpha(alpha),)
    }

    #[inline]
    fn get_alpha(&self) -> C::Alpha {
        self.0.get_alpha()
    }
}

/// A pixel of red, green and blue channels.
#[derive(Debug, Clone, Copy, PartialEq, Eq, Hash)]
pub struct Rgb<T> {
    /// The channels: red, green, blue.
    pub data: [T; 3],
}

/// A pixel of one luminance channel.
#[derive(Debug, Clone, Copy, PartialEq, Eq, Hash)]
pub struct Luma<T> {
    /// The luminance channel.
    pub data: [T; 1],
}

/// A pixel of red, green, blue and alpha channels.
#[derive(Debug, Clone, Copy, PartialEq, Eq, Hash)]
pub struct Rgba<T> {
    /// The channels: red, green, blue, alpha.
    pub data: [T; 4],
}

/// A pixel of a luminance and an alpha channel.
#[derive(Debug, Clone, Copy, PartialEq, Eq, Hash)]
pub struct LumaA<T> {
    /// The channels: luminance, alpha.
    pub data: [T; 2],
}

impl<T: ColorAlpha + Copy> Color for Rgb<T> {
    type Alpha = ();

    open spec fn spec_empty() -> Rgb<T> {
        Rgb { data: [T::spec_zero(), T::spec_zero(), T::spec_zero()] }
    }

    open spec fn spec_with_alpha(self, alpha: ()) -> Rgb<T> {
        self
    }

    open spec fn spec_mul_alpha(self, alpha: ()) -> Rgb<T> {
        self
    }

    open spec fn spec_get_alpha(&self) -> () {
        ()
    }

    #[inline]
    fn empty() -> Rgb<T> {
        Rgb { data: [T::zero(), T::zero(), T::zero()] }
    }

    #[inline]
    fn with_alpha(self, _alpha: ()) -> Rgb<T> {
        self
    }

    #[inline]
    fn mul_alpha(self, _alpha: ()) -> Rgb<T> {
        self
    }

    #[inline]
    fn get_alpha(&self) -> () {
        ()
    }
}

impl<T: ColorAlpha + Copy> Color for Luma<T> {
    type Alpha = ();

    open spec fn spec_empty() -> Luma<T> {
        Luma { data: [T::spec_zero()] }
    }

    open spec fn spec_with_alpha(self, alpha: ()) -> Luma<T> {
        self
    }

    open spec fn spec_mul_alpha(self, alpha: ()) -> Luma<T> {
        self
    }

    open spec fn spec_get_alpha(&self) -> () {
        ()
    }

    #[inline]
    fn empty() -> Luma<T> {
        Luma { data: [T::zero()] }
    }

    #[inline]
    fn with_alpha(self, _alpha: ()) -> Luma<T> {
        self
    }

    #[inline]
    fn mul_alpha(self, _alpha: ()) -> Luma<T> {
        self
    }

    #[inline]
    fn get_alpha(&self) -> () {
        ()
    }
}

impl<T: AlphaMultiply + Copy> Color for Rgba<T> {
    type Alpha = T;

    open spec fn spec_empty() -> Rgba<T> {
        Rgba { data: [T::spec_zero(), T::spec_zero(), T::spec_zero(), T::spec_zero()] }
    }

    open spec fn spec_with_alpha(self, alpha: T) -> Rgba<T> {
        Rgba { data: [self.data[0], self.data[1], self.data[2], alpha] }
    }

    open spec fn spec_mul_alpha(self, alpha: T) -> Rgba<T> {
        Rgba { data: [self.data[0], self.data[1], self.data[2], self.data[3].spec_mul_alpha(alpha)] }
    }

    open spec fn spec_get_alpha(&self) -> T {
        self.data[3]
    }

    #[inline]
    fn empty() -> Rgba<T> {
        Rgba { data: [T::zero(), T::zero(), T::zero(), T::zero()] }
    }

    fn with_alpha(self, alpha: T) -> Rgba<T> {
        Rgba { data: [self.data[0], self.data[1], self.data[2], alpha] }
    }

    fn mul_alpha(self, alpha: T) -> Rgba<T> {
        Rgba {
            data: [
                self.data[0],
                self.data[1],
                self.data[2],
                AlphaMultiply::mul_alpha(self.data[3], alpha),
            ],
        }
    }

    #[inline]
    fn get_alpha(&self) -> T {
        self.data[3]
    }
}

impl<T: AlphaMultiply + Copy> Color for LumaA<T> {
    type Alpha = T;

    open spec fn spec_empty() -> LumaA<T> {
        LumaA { data: [T::spec_zero(), T::spec_zero()] }
    }

    open spec fn spec_with_alpha(self, alpha: T) -> LumaA<T> {
        LumaA { data: [self.data[0], alpha] }
    }

    open spec fn spec_mul_alpha(self, alpha: T) -> LumaA<T> {
        LumaA { data: [self.data[0], self.data[1].spec_mul_alpha(alpha)] }
    }

    open spec fn spec_get_alpha(&self) -> T {
        self.data[1]
    }

    #[inline]
    fn empty() -> LumaA<T> {
        LumaA { data: [T::zero(), T::zero()] }
    }

    fn with_alpha(self, alpha: T) -> LumaA<T> {
        LumaA { data: [self.data[0], alpha] }
    }

    fn mul_alpha(self, alpha: T) -> LumaA<T> {
        LumaA { data: [self.data[0], AlphaMultiply::mul_alpha(self.data[1], alpha)] }
    }

    #[inline]
    fn get_alpha(&self) -> T {
        self.data[1]
    }
}

} // verus!
