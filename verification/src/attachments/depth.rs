//! The depth attachment.

use vstd::prelude::*;

use super::Attachment;
use crate::error::RenderError;
use crate::numeric::Scalar;

verus! {

/// A value that can be stored in a depth buffer.
///
/// Depth follows the greater-is-closer convention: a fragment is in front of
/// what the buffer holds when its depth is strictly greater than the stored
/// one. The unit type is the depth of a framebuffer without a depth
/// attachment.
pub trait Depth: Attachment + PartialOrd {
    /// The value that lies behind every other one.
    spec fn spec_far() -> Self;

    /// The strict order of the type.
    spec fn spec_less(self, rhs: Self) -> bool;

    /// The depth value that stands for the scalar `n`, if the type has one.
    spec fn spec_from_scalar(n: Scalar) -> Option<Self>;

    /// The value that represents the farthest away depth.
    fn far() -> (r: Self)
        ensures
            r == Self::spec_far(),
    ;

    /// Creates the depth value for a scalar of the vertex data, or fails
    /// with `BadCast` when the type cannot represent it.
    fn from_scalar(n: Scalar) -> (r: Result<Self, RenderError>)
        ensures
            r == match Self::spec_from_scalar(n) {
                Some(depth) => Ok::<Self, RenderError>(depth),
                None => Err::<Self, RenderError>(RenderError::BadCast),
            },
    ;

    /// Whether `self` lies strictly behind `rhs`.
    fn less(self, rhs: Self) -> (r: bool)
        ensures
            r == self.spec_less(rhs),
    ;

    /// Nothing lies behind `far`.
    proof fn lemma_far_is_least(d: Self)
        ensures
            !d.spec_less(Self::spec_far()),
    ;

    /// The scalars that the type represents form an interval.
    proof fn lemma_representable_between(a: Scalar, b: Scalar, n: Scalar)
        requires
            a <= n <= b,
            Self::spec_from_scalar(a).is_some(),
            Self::spec_from_scalar(b).is_some(),
        ensures
            Self::spec_from_scalar(n).is_some(),
    ;
}

/// The depth of a framebuffer without a depth attachment. It has one value,
/// which lies behind nothing: no fragment is closer than what is stored.
impl Depth for () {
    open spec fn spec_far() -> () {
        ()
    }

    open spec fn spec_less(self, rhs: ()) -> bool {
        false
    }

    open spec fn spec_from_scalar(n: Scalar) -> Option<()> {
        Some(())
    }

    #[inline(always)]
    fn far() -> () {
        ()
    }

    #[inline(always)]
    fn from_scalar(_n: Scalar) -> Result<(), RenderError> {
        Ok(())
    }

    #[inline(always)]
    fn less(self, _rhs: ()) -> bool {
        false
    }

    proof fn lemma_far_is_least(d: ()) {
    }

    proof fn lemma_representable_between(a: Scalar, b: Scalar, n: Scalar) {
    }
}

/// `num_traits::NumCast::from` for `i8`, applied to an `i32` and taken on
/// trust: it gives the same number as a `i8` when the number lies within
/// the bounds of `i8`, and nothing otherwise.
#[verifier::external_body]
fn cast_to_i8(n: Scalar) -> (r: Option<i8>)
    ensures
        r == if i8::MIN <= n <= i8::MAX {
            Some(n as i8)
        } else {
            None::<i8>
        },
{
    num_traits::NumCast::from(n)
}

impl Depth for i8 {
    open spec fn spec_far() -> i8 {
        i8::MIN
    }

    open spec fn spec_less(self, rhs: i8) -> bool {
        self < rhs
    }

    open spec fn spec_from_scalar(n: Scalar) -> Option<i8> {
        if i8::MIN <= n <= i8::MAX {
            Some(n as i8)
        } else {
            None
        }
    }

    #[inline(always)]
    fn far() -> i8 {
        i8::MIN
    }

    #[inline(always)]
    fn from_scalar(n: Scalar) -> Result<i8, RenderError> {
        match cast_to_i8(n) {
            Some(depth) => Ok(depth),
            None => Err(RenderError::BadCast),
        }
    }

    #[inline(always)]
    fn less(self, rhs: i8) -> bool {
        self < rhs
    }

    proof fn lemma_far_is_least(d: i8) {
    }

    proof fn lemma_representable_between(a: Scalar, b: Scalar, n: Scalar) {
    }
}

/// `num_traits::NumCast::from` for `i16`, applied to an `i32` and taken on
/// trust: it gives the same number as a `i16` when the number lies within
/// the bounds of `i16`, and nothing otherwise.
#[verifier::external_body]
fn cast_to_i16(n: Scalar) -> (r: Option<i16>)
    ensures
        r == if i16::MIN <= n <= i16::MAX {
            Some(n as i16)
        } else {
            None::<i16>
        },
{
    num_traits::NumCast::from(n)
}

impl Depth for i16 {
    open spec fn spec_far() -> i16 {
        i16::MIN
    }

    open spec fn spec_less(self, rhs: i16) -> bool {
        self < rhs
    }

    open spec fn spec_from_scalar(n: Scalar) -> Option<i16> {
        if i16::MIN <= n <= i16::MAX {
            Some(n as i16)
        } else {
            None
        }
    }

    #[inline(always)]
    fn far() -> i16 {
        i16::MIN
    }

    #[inline(always)]
    fn from_scalar(n: Scalar) -> Result<i16, RenderError> {
        match cast_to_i16(n) {
            Some(depth) => Ok(depth),
            None => Err(RenderError::BadCast),
        }
    }

    #[inline(always)]
    fn less(self, rhs: i16) -> bool {
        self < rhs
    }

    proof fn lemma_far_is_least(d: i16) {
    }

    proof fn lemma_representable_between(a: Scalar, b: Scalar, n: Scalar) {
    }
}

/// `num_traits::NumCast::from` for `i32`, applied to an `i32` and taken on
/// trust: it gives the same number as a `i32` when the number lies within
/// the bounds of `i32`, and nothing otherwise.
#[verifier::external_body]
fn cast_to_i32(n: Scalar) -> (r: Option<i32>)
    ensures
        r == if i32::MIN <= n <= i32::MAX {
            Some(n as i32)
        } else {
            None::<i32>
        },
{
    num_traits::NumCast::from(n)
}

impl Depth for i32 {
    open spec fn spec_far() -> i32 {
        i32::MIN
    }

    open spec fn spec_less(self, rhs: i32) -> bool {
        self < rhs
    }

    open spec fn spec_from_scalar(n: Scalar) -> Option<i32> {
        if i32::MIN <= n <= i32::MAX {
            Some(n as i32)
        } else {
            None
        }
    }

    #[inline(always)]
    fn far() -> i32 {
        i32::MIN
    }

    #[inline(always)]
    fn from_scalar(n: Scalar) -> Result<i32, RenderError> {
        match cast_to_i32(n) {
            Some(depth) => Ok(depth),
            None => Err(RenderError::BadCast),
        }
    }

    #[inline(always)]
    fn less(self, rhs: i32) -> bool {
        self < rhs
    }

    proof fn lemma_far_is_least(d: i32) {
    }

    proof fn lemma_representable_between(a: Scalar, b: Scalar, n: Scalar) {
    }
}

/// `num_traits::NumCast::from` for `i64`, applied to an `i32` and taken on
/// trust: it gives the same number as a `i64` when the number lies within
/// the bounds of `i64`, and nothing otherwise.
#[verifier::external_body]
fn cast_to_i64(n: Scalar) -> (r: Option<i64>)
    ensures
        r == if i64::MIN <= n <= i64::MAX {
            Some(n as i64)
        } else {
            None::<i64>
        },
{
    num_traits::NumCast::from(n)
}

impl Depth for i64 {
    open spec fn spec_far() -> i64 {
        i64::MIN
    }

    open spec fn spec_less(self, rhs: i64) -> bool {
        self < rhs
    }

    open spec fn spec_from_scalar(n: Scalar) -> Option<i64> {
        if i64::MIN <= n <= i64::MAX {
            Some(n as i64)
        } else {
            None
        }
    }

    #[inline(always)]
    fn far() -> i64 {
        i64::MIN
    }

    #[inline(always)]
    fn from_scalar(n: Scalar) -> Result<i64, RenderError> {
        match cast_to_i64(n) {
            Some(depth) => Ok(depth),
            None => Err(RenderError::BadCast),
        }
    }

    #[inline(always)]
    fn less(self, rhs: i64) -> bool {
        self < rhs
    }

    proof fn lemma_far_is_least(d: i64) {
    }

    proof fn lemma_representable_between(a: Scalar, b: Scalar, n: Scalar) {
    }
}

/// `num_traits::NumCast::from` for `u8`, applied to an `i32` and taken on
/// trust: it gives the same number as a `u8` when the number lies within
/// the bounds of `u8`, and nothing otherwise.
#[verifier::external_body]
fn cast_to_u8(n: Scalar) -> (r: Option<u8>)
    ensures
        r == if u8::MIN <= n <= u8::MAX {
            Some(n as u8)
        } else {
            None::<u8>
        },
{
    num_traits::NumCast::from(n)
}

impl Depth for u8 {
    open spec fn spec_far() -> u8 {
        u8::MIN
    }

    open spec fn spec_less(self, rhs: u8) -> bool {
        self < rhs
    }

    open spec fn spec_from_scalar(n: Scalar) -> Option<u8> {
        if u8::MIN <= n <= u8::MAX {
            Some(n as u8)
        } else {
            None
        }
    }

    #[inline(always)]
    fn far() -> u8 {
        u8::MIN
    }

    #[inline(always)]
    fn from_scalar(n: Scalar) -> Result<u8, RenderError> {
        match cast_to_u8(n) {
            Some(depth) => Ok(depth),
            None => Err(RenderError::BadCast),
        }
    }

    #[inline(always)]
    fn less(self, rhs: u8) -> bool {
        self < rhs
    }

    proof fn lemma_far_is_least(d: u8) {
    }

    proof fn lemma_representable_between(a: Scalar, b: Scalar, n: Scalar) {
    }
}

/// `num_traits::NumCast::from` for `u16`, applied to an `i32` and taken on
/// trust: it gives the same number as a `u16` when the number lies within
/// the bounds of `u16`, and nothing otherwise.
#[verifier::external_body]
fn cast_to_u16(n: Scalar) -> (r: Option<u16>)
    ensures
        r == if u16::MIN <= n <= u16::MAX {
            Some(n as u16)
        } else {
            None::<u16>
        },
{
    num_traits::NumCast::from(n)
}

impl Depth for u16 {
    open spec fn spec_far() -> u16 {
        u16::MIN
    }

    open spec fn spec_less(self, rhs: u16) -> bool {
        self < rhs
    }

    open spec fn spec_from_scalar(n: Scalar) -> Option<u16> {
        if u16::MIN <= n <= u16::MAX {
            Some(n as u16)
        } else {
            None
        }
    }

    #[inline(always)]
    fn far() -> u16 {
        u16::MIN
    }

    #[inline(always)]
    fn from_scalar(n: Scalar) -> Result<u16, RenderError> {
        match cast_to_u16(n) {
            Some(depth) => Ok(depth),
            None => Err(RenderError::BadCast),
        }
    }

    #[inline(always)]
    fn less(self, rhs: u16) -> bool {
        self < rhs
    }

    proof fn lemma_far_is_least(d: u16) {
    }

    proof fn lemma_representable_between(a: Scalar, b: Scalar, n: Scalar) {
    }
}

/// `num_traits::NumCast::from` for `u32`, applied to an `i32` and taken on
/// trust: it gives the same number as a `u32` when the number lies within
/// the bounds of `u32`, and nothing otherwise.
#[verifier::external_body]
fn cast_to_u32(n: Scalar) -> (r: Option<u32>)
    ensures
        r == if u32::MIN <= n <= u32::MAX {
            Some(n as u32)
        } else {
            None::<u32>
        },
{
    num_traits::NumCast::from(n)
}

impl Depth for u32 {
    open spec fn spec_far() -> u32 {
        u32::MIN
    }

    open spec fn spec_less(self, rhs: u32) -> bool {
        self < rhs
    }

    open spec fn spec_from_scalar(n: Scalar) -> Option<u32> {
        if u32::MIN <= n <= u32::MAX {
            Some(n as u32)
        } else {
            None
        }
    }

    #[inline(always)]
    fn far() -> u32 {
        u32::MIN
    }

    #[inline(always)]
    fn from_scalar(n: Scalar) -> Result<u32, RenderError> {
        match cast_to_u32(n) {
            Some(depth) => Ok(depth),
            None => Err(RenderError::BadCast),
        }
    }

    #[inline(always)]
    fn less(self, rhs: u32) -> bool {
        self < rhs
    }

    proof fn lemma_far_is_least(d: u32) {
    }

    proof fn lemma_representable_between(a: Scalar, b: Scalar, n: Scalar) {
    }
}

/// `num_traits::NumCast::from` for `u64`, applied to an `i32` and taken on
/// trust: it gives the same number as a `u64` when the number lies within
/// the bounds of `u64`, and nothing otherwise.
#[verifier::external_body]
fn cast_to_u64(n: Scalar) -> (r: Option<u64>)
    ensures
        r == if u64::MIN <= n <= u64::MAX {
            Some(n as u64)
        } else {
            None::<u64>
        },
{
    num_traits::NumCast::from(n)
}

impl Depth for u64 {
    open spec fn spec_far() -> u64 {
        u64::MIN
    }

    open spec fn spec_less(self, rhs: u64) -> bool {
        self < rhs
    }

    open spec fn spec_from_scalar(n: Scalar) -> Option<u64> {
        if u64::MIN <= n <= u64::MAX {
            Some(n as u64)
        } else {
            None
        }
    }

    #[inline(always)]
    fn far() -> u64 {
        u64::MIN
    }

    #[inline(always)]
    fn from_scalar(n: Scalar) -> Result<u64, RenderError> {
        match cast_to_u64(n) {
            Some(depth) => Ok(depth),
            None => Err(RenderError::BadCast),
        }
    }

    #[inline(always)]
    fn less(self, rhs: u64) -> bool {
        self < rhs
    }

    proof fn lemma_far_is_least(d: u64) {
    }

    proof fn lemma_representable_between(a: Scalar, b: Scalar, n: Scalar) {
    }
}

/// `num_traits::NumCast::from` for `isize`, applied to an `i32` and taken on
/// trust: it gives the same number as a `isize` when the number lies within
/// the bounds of `isize`, and nothing otherwise.
#[verifier::external_body]
fn cast_to_isize(n: Scalar) -> (r: Option<isize>)
    ensures
        r == if isize::MIN <= n <= isize::MAX {
            Some(n as isize)
        } else {
            None::<isize>
        },
{
    num_traits::NumCast::from(n)
}

impl Depth for isize {
    open spec fn spec_far() -> isize {
        isize::MIN
    }

    open spec fn spec_less(self, rhs: isize) -> bool {
        self < rhs
    }

    open spec fn spec_from_scalar(n: Scalar) -> Option<isize> {
        if isize::MIN <= n <= isize::MAX {
            Some(n as isize)
        } else {
            None
        }
    }

    #[inline(always)]
    fn far() -> isize {
        isize::MIN
    }

    #[inline(always)]
    fn from_scalar(n: Scalar) -> Result<isize, RenderError> {
        match cast_to_isize(n) {
            Some(depth) => Ok(depth),
            None => Err(RenderError::BadCast),
        }
    }

    #[inline(always)]
    fn less(self, rhs: isize) -> bool {
        self < rhs
    }

    proof fn lemma_far_is_least(d: isize) {
    }

    proof fn lemma_representable_between(a: Scalar, b: Scalar, n: Scalar) {
    }
}

/// `num_traits::NumCast::from` for `usize`, applied to an `i32` and taken on
/// trust: it gives the same number as a `usize` when the number lies within
/// the bounds of `usize`, and nothing otherwise.
#[verifier::external_body]
fn cast_to_usize(n: Scalar) -> (r: Option<usize>)
    ensures
        r == if usize::MIN <= n <= usize::MAX {
            Some(n as usize)
        } else {
            None::<usize>
        },
{
    num_traits::NumCast::from(n)
}

impl Depth for usize {
    open spec fn spec_far() -> usize {
        usize::MIN
    }

    open spec fn spec_less(self, rhs: usize) -> bool {
        self < rhs
    }

    open spec fn spec_from_scalar(n: Scalar) -> Option<usize> {
        if usize::MIN <= n <= usize::MAX {
            Some(n as usize)
        } else {
            None
        }
    }

    #[inline(always)]
    fn far() -> usize {
        usize::MIN
    }

    #[inline(always)]
    fn from_scalar(n: Scalar) -> Result<usize, RenderError> {
        match cast_to_usize(n) {
            Some(depth) => Ok(depth),
            None => Err(RenderError::BadCast),
        }
    }

    #[inline(always)]
    fn less(self, rhs: usize) -> bool {
        self < rhs
    }

    proof fn lemma_far_is_least(d: usize) {
    }

    proof fn lemma_representable_between(a: Scalar, b: Scalar, n: Scalar) {
    }
}

} // verus!
