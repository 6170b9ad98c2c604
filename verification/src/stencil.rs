//! The stencil engine: stencil values, the test that admits a fragment and
//! the operation that updates the stored value.

use vstd::prelude::*;

verus! {

/// A value that can be stored in a stencil buffer.
///
/// Every primitive integer is a stencil value; the unit type is the stencil
/// of a framebuffer without a stencil attachment, on which every operation
/// is a no-op.
pub trait Stencil: Sized + Send + Sync + Default + PartialOrd {
    /// The value that `Default::default` returns.
    spec fn spec_default() -> Self;

    /// The additive identity.
    spec fn spec_zero() -> Self;

    /// The unit by which a stored value is incremented and decremented.
    spec fn spec_one() -> Self;

    /// The largest value of the type.
    spec fn spec_max() -> Self;

    /// The smallest value of the type.
    spec fn spec_min() -> Self;

    /// Bitwise negation.
    spec fn spec_not(self) -> Self;

    /// The sum, wrapped around at the bounds of the type.
    spec fn spec_wrapping_add(self, rhs: Self) -> Self;

    /// The difference, wrapped around at the bounds of the type.
    spec fn spec_wrapping_sub(self, rhs: Self) -> Self;

    /// The sum, held at the bounds of the type.
    spec fn spec_saturating_add(self, rhs: Self) -> Self;

    /// The difference, held at the bounds of the type.
    spec fn spec_saturating_sub(self, rhs: Self) -> Self;

    /// The strict order of the type.
    spec fn spec_less(self, rhs: Self) -> bool;

    /// The integer that the value stands for; zero for the unit type.
    spec fn spec_number(self) -> int;

    /// The additive identity.
    fn zero() -> (r: Self)
        ensures
            r == Self::spec_zero(),
    ;

    /// The unit by which a stored value is incremented and decremented.
    fn one() -> (r: Self)
        ensures
            r == Self::spec_one(),
    ;

    /// Bitwise negation.
    fn not(self) -> (r: Self)
        ensures
            r == self.spec_not(),
    ;

    /// Addition that wraps around at the bounds of the type.
    fn wrapping_add(self, rhs: Self) -> (r: Self)
        ensures
            r == self.spec_wrapping_add(rhs),
    ;

    /// Subtraction that wraps around at the bounds of the type.
    fn wrapping_sub(self, rhs: Self) -> (r: Self)
        ensures
            r == self.spec_wrapping_sub(rhs),
    ;

    /// Addition that stops at the bounds of the type.
    fn saturating_add(self, rhs: Self) -> (r: Self)
        ensures
            r == self.spec_saturating_add(rhs),
    ;

    /// Subtraction that stops at the bounds of the type.
    fn saturating_sub(self, rhs: Self) -> (r: Self)
        ensures
            r == self.spec_saturating_sub(rhs),
    ;

    /// Whether `self` is strictly below `rhs`.
    fn less(self, rhs: Self) -> (r: bool)
        ensures
            r == self.spec_less(rhs),
    ;

    /// Whether `self` and `rhs` are the same value.
    fn same(self, rhs: Self) -> (r: bool)
        ensures
            r == (self == rhs),
    ;

    /// The values are ordered and told apart as the integers that they stand for.
    proof fn lemma_stencil_order(a: Self, b: Self)
        ensures
            a.spec_less(b) == (a.spec_number() < b.spec_number()),
            (a == b) == (a.spec_number() == b.spec_number()),
    ;

    /// `Default::default` returns `spec_default()`, and stepping over a bound
    /// by one wraps to the opposite bound or stays, as the operation says.
    proof fn lemma_stencil_laws()
        ensures
            forall|r: Self| call_ensures(<Self as Default>::default, (), r) ==> r == Self::spec_default(),
            Self::spec_max().spec_wrapping_add(Self::spec_one()) == Self::spec_min(),
            Self::spec_max().spec_saturating_add(Self::spec_one()) == Self::spec_max(),
            Self::spec_min().spec_wrapping_sub(Self::spec_one()) == Self::spec_max(),
            Self::spec_min().spec_saturating_sub(Self::spec_one()) == Self::spec_min(),
    ;
}

impl Stencil for u8 {
    open spec fn spec_default() -> u8 {
        0
    }

    open spec fn spec_zero() -> u8 {
        0
    }

    open spec fn spec_one() -> u8 {
        1
    }

    open spec fn spec_max() -> u8 {
        u8::MAX
    }

    open spec fn spec_min() -> u8 {
        u8::MIN
    }

    open spec fn spec_not(self) -> u8 {
        !self
    }

    open spec fn spec_wrapping_add(self, rhs: u8) -> u8 {
        if self + rhs > u8::MAX {
            (self + rhs - (u8::MAX - u8::MIN + 1)) as u8
        } else {
            (self + rhs) as u8
        }
    }

    open spec fn spec_wrapping_sub(self, rhs: u8) -> u8 {
        if self - rhs < u8::MIN {
            (self - rhs + (u8::MAX - u8::MIN + 1)) as u8
        } else {
            (self - rhs) as u8
        }
    }

    open spec fn spec_saturating_add(self, rhs: u8) -> u8 {
        if self + rhs > u8::MAX {
            u8::MAX
        } else {
            (self + rhs) as u8
        }
    }

    open spec fn spec_saturating_sub(self, rhs: u8) -> u8 {
        if self - rhs < u8::MIN {
            u8::MIN
        } else {
            (self - rhs) as u8
        }
    }

    open spec fn spec_less(self, rhs: u8) -> bool {
        self < rhs
    }

    open spec fn spec_number(self) -> int {
        self as int
    }

    #[inline(always)]
    fn zero() -> u8 {
        0
    }

    #[inline(always)]
    fn one() -> u8 {
        1
    }

    #[inline(always)]
    fn not(self) -> u8 {
        !self
    }

    #[inline(always)]
    fn wrapping_add(self, rhs: u8) -> u8 {
        u8::wrapping_add(self, rhs)
    }

    #[inline(always)]
    fn wrapping_sub(self, rhs: u8) -> u8 {
        u8::wrapping_sub(self, rhs)
    }

    #[inline(always)]
    fn saturating_add(self, rhs: u8) -> u8 {
        u8::saturating_add(self, rhs)
    }

    #[inline(always)]
    fn saturating_sub(self, rhs: u8) -> u8 {
        u8::saturating_sub(self, rhs)
    }

    #[inline(always)]
    fn less(self, rhs: u8) -> bool {
        self < rhs
    }

    #[inline(always)]
    fn same(self, rhs: u8) -> bool {
        self == rhs
    }

    proof fn lemma_stencil_order(a: u8, b: u8) {
    }

    proof fn lemma_stencil_laws() {
    }
}

impl Stencil for u16 {
    open spec fn spec_default() -> u16 {
        0
    }

    open spec fn spec_zero() -> u16 {
        0
    }

    open spec fn spec_one() -> u16 {
        1
    }

    open spec fn spec_max() -> u16 {
        u16::MAX
    }

    open spec fn spec_min() -> u16 {
        u16::MIN
    }

    open spec fn spec_not(self) -> u16 {
        !self
    }

    open spec fn spec_wrapping_add(self, rhs: u16) -> u16 {
        if self + rhs > u16::MAX {
            (self + rhs - (u16::MAX - u16::MIN + 1)) as u16
        } else {
            (self + rhs) as u16
        }
    }

    open spec fn spec_wrapping_sub(self, rhs: u16) -> u16 {
        if self - rhs < u16::MIN {
            (self - rhs + (u16::MAX - u16::MIN + 1)) as u16
        } else {
            (self - rhs) as u16
        }
    }

    open spec fn spec_saturating_add(self, rhs: u16) -> u16 {
        if self + rhs > u16::MAX {
            u16::MAX
        } else {
            (self + rhs) as u16
        }
    }

    open spec fn spec_saturating_sub(self, rhs: u16) -> u16 {
        if self - rhs < u16::MIN {
            u16::MIN
        } else {
            (self - rhs) as u16
        }
    }

    open spec fn spec_less(self, rhs: u16) -> bool {
        self < rhs
    }

    open spec fn spec_number(self) -> int {
        self as int
    }

    #[inline(always)]
    fn zero() -> u16 {
        0
    }

    #[inline(always)]
    fn one() -> u16 {
        1
    }

    #[inline(always)]
    fn not(self) -> u16 {
        !self
    }

    #[inline(always)]
    fn wrapping_add(self, rhs: u16) -> u16 {
        u16::wrapping_add(self, rhs)
    }

    #[inline(always)]
    fn wrapping_sub(self, rhs: u16) -> u16 {
        u16::wrapping_sub(self, rhs)
    }

    #[inline(always)]
    fn saturating_add(self, rhs: u16) -> u16 {
        u16::saturating_add(self, rhs)
    }

    #[inline(always)]
    fn saturating_sub(self, rhs: u16) -> u16 {
        u16::saturating_sub(self, rhs)
    }

    #[inline(always)]
    fn less(self, rhs: u16) -> bool {
        self < rhs
    }

    #[inline(always)]
    fn same(self, rhs: u16) -> bool {
        self == rhs
    }

    proof fn lemma_stencil_order(a: u16, b: u16) {
    }

    proof fn lemma_stencil_laws() {
    }
}

impl Stencil for u32 {
    open spec fn spec_default() -> u32 {
        0
    }

    open spec fn spec_zero() -> u32 {
        0
    }

    open spec fn spec_one() -> u32 {
        1
    }

    open spec fn spec_max() -> u32 {
        u32::MAX
    }

    open spec fn spec_min() -> u32 {
        u32::MIN
    }

    open spec fn spec_not(self) -> u32 {
        !self
    }

    open spec fn spec_wrapping_add(self, rhs: u32) -> u32 {
        if self + rhs > u32::MAX {
            (self + rhs - (u32::MAX - u32::MIN + 1)) as u32
        } else {
            (self + rhs) as u32
        }
    }

    open spec fn spec_wrapping_sub(self, rhs: u32) -> u32 {
        if self - rhs < u32::MIN {
            (self - rhs + (u32::MAX - u32::MIN + 1)) as u32
        } else {
            (self - rhs) as u32
        }
    }

    open spec fn spec_saturating_add(self, rhs: u32) -> u32 {
        if self + rhs > u32::MAX {
            u32::MAX
        } else {
            (self + rhs) as u32
        }
    }

    open spec fn spec_saturating_sub(self, rhs: u32) -> u32 {
        if self - rhs < u32::MIN {
            u32::MIN
        } else {
            (self - rhs) as u32
        }
    }

    open spec fn spec_less(self, rhs: u32) -> bool {
        self < rhs
    }

    open spec fn spec_number(self) -> int {
        self as int
    }

    #[inline(always)]
    fn zero() -> u32 {
        0
    }

    #[inline(always)]
    fn one() -> u32 {
        1
    }

    #[inline(always)]
    fn not(self) -> u32 {
        !self
    }

    #[inline(always)]
    fn wrapping_add(self, rhs: u32) -> u32 {
        u32::wrapping_add(self, rhs)
    }

    #[inline(always)]
    fn wrapping_sub(self, rhs: u32) -> u32 {
        u32::wrapping_sub(self, rhs)
    }

    #[inline(always)]
    fn saturating_add(self, rhs: u32) -> u32 {
        u32::saturating_add(self, rhs)
    }

    #[inline(always)]
    fn saturating_sub(self, rhs: u32) -> u32 {
        u32::saturating_sub(self, rhs)
    }

    #[inline(always)]
    fn less(self, rhs: u32) -> bool {
        self < rhs
    }

    #[inline(always)]
    fn same(self, rhs: u32) -> bool {
        self == rhs
    }

    proof fn lemma_stencil_order(a: u32, b: u32) {
    }

    proof fn lemma_stencil_laws() {
    }
}

impl Stencil for u64 {
    open spec fn spec_default() -> u64 {
        0
    }

    open spec fn spec_zero() -> u64 {
        0
    }

    open spec fn spec_one() -> u64 {
        1
    }

    open spec fn spec_max() -> u64 {
        u64::MAX
    }

    open spec fn spec_min() -> u64 {
        u64::MIN
    }

    open spec fn spec_not(self) -> u64 {
        !self
    }

    open spec fn spec_wrapping_add(self, rhs: u64) -> u64 {
        if self + rhs > u64::MAX {
            (self + rhs - (u64::MAX - u64::MIN + 1)) as u64
        } else {
            (self + rhs) as u64
        }
    }

    open spec fn spec_wrapping_sub(self, rhs: u64) -> u64 {
        if self - rhs < u64::MIN {
            (self - rhs + (u64::MAX - u64::MIN + 1)) as u64
        } else {
            (self - rhs) as u64
        }
    }

    open spec fn spec_saturating_add(self, rhs: u64) -> u64 {
        if self + rhs > u64::MAX {
            u64::MAX
        } else {
            (self + rhs) as u64
        }
    }

    open spec fn spec_saturating_sub(self, rhs: u64) -> u64 {
        if self - rhs < u64::MIN {
            u64::MIN
        } else {
            (self - rhs) as u64
        }
    }

    open spec fn spec_less(self, rhs: u64) -> bool {
        self < rhs
    }

    open spec fn spec_number(self) -> int {
        self as int
    }

    #[inline(always)]
    fn zero() -> u64 {
        0
    }

    #[inline(always)]
    fn one() -> u64 {
        1
    }

    #[inline(always)]
    fn not(self) -> u64 {
        !self
    }

    #[inline(always)]
    fn wrapping_add(self, rhs: u64) -> u64 {
        u64::wrapping_add(self, rhs)
    }

    #[inline(always)]
    fn wrapping_sub(self, rhs: u64) -> u64 {
        u64::wrapping_sub(self, rhs)
    }

    #[inline(always)]
    fn saturating_add(self, rhs: u64) -> u64 {
        u64::saturating_add(self, rhs)
    }

    #[inline(always)]
    fn saturating_sub(self, rhs: u64) -> u64 {
        u64::saturating_sub(self, rhs)
    }

    #[inline(always)]
    fn less(self, rhs: u64) -> bool {
        self < rhs
    }

    #[inline(always)]
    fn same(self, rhs: u64) -> bool {
        self == rhs
    }

    proof fn lemma_stencil_order(a: u64, b: u64) {
    }

    proof fn lemma_stencil_laws() {
    }
}

impl Stencil for usize {
    open spec fn spec_default() -> usize {
        0
    }

    open spec fn spec_zero() -> usize {
        0
    }

    open spec fn spec_one() -> usize {
        1
    }

    open spec fn spec_max() -> usize {
        usize::MAX
    }

    open spec fn spec_min() -> usize {
        usize::MIN
    }

    open spec fn spec_not(self) -> usize {
        !self
    }

    open spec fn spec_wrapping_add(self, rhs: usize) -> usize {
        if self + rhs > usize::MAX {
            (self + rhs - (usize::MAX - usize::MIN + 1)) as usize
        } else {
            (self + rhs) as usize
        }
    }

    open spec fn spec_wrapping_sub(self, rhs: usize) -> usize {
        if self - rhs < usize::MIN {
            (self - rhs + (usize::MAX - usize::MIN + 1)) as usize
        } else {
            (self - rhs) as usize
        }
    }

    open spec fn spec_saturating_add(self, rhs: usize) -> usize {
        if self + rhs > usize::MAX {
            usize::MAX
        } else {
            (self + rhs) as usize
        }
    }

    open spec fn spec_saturating_sub(self, rhs: usize) -> usize {
        if self - rhs < usize::MIN {
            usize::MIN
        } else {
            (self - rhs) as usize
        }
    }

    open spec fn spec_less(self, rhs: usize) -> bool {
        self < rhs
    }

    open spec fn spec_number(self) -> int {
        self as int
    }

    #[inline(always)]
    fn zero() -> usize {
        0
    }

    #[inline(always)]
    fn one() -> usize {
        1
    }

    #[inline(always)]
    fn not(self) -> usize {
        !self
    }

    #[inline(always)]
    fn wrapping_add(self, rhs: usize) -> usize {
        usize::wrapping_add(self, rhs)
    }

    #[inline(always)]
    fn wrapping_sub(self, rhs: usize) -> usize {
        usize::wrapping_sub(self, rhs)
    }

    #[inline(always)]
    fn saturating_add(self, rhs: usize) -> usize {
        usize::saturating_add(self, rhs)
    }

    #[inline(always)]
    fn saturating_sub(self, rhs: usize) -> usize {
        usize::saturating_sub(self, rhs)
    }

    #[inline(always)]
    fn less(self, rhs: usize) -> bool {
        self < rhs
    }

    #[inline(always)]
    fn same(self, rhs: usize) -> bool {
        self == rhs
    }

    proof fn lemma_stencil_order(a: usize, b: usize) {
    }

    proof fn lemma_stencil_laws() {
    }
}

impl Stencil for i8 {
    open spec fn spec_default() -> i8 {
        0
    }

    open spec fn spec_zero() -> i8 {
        0
    }

    open spec fn spec_one() -> i8 {
        1
    }

    open spec fn spec_max() -> i8 {
        i8::MAX
    }

    open spec fn spec_min() -> i8 {
        i8::MIN
    }

    open spec fn spec_not(self) -> i8 {
        !self
    }

    open spec fn spec_wrapping_add(self, rhs: i8) -> i8 {
        if self + rhs > i8::MAX {
            (self + rhs - (i8::MAX - i8::MIN + 1)) as i8
        } else if self + rhs < i8::MIN {
            (self + rhs + (i8::MAX - i8::MIN + 1)) as i8
        } else {
            (self + rhs) as i8
        }
    }

    open spec fn spec_wrapping_sub(self, rhs: i8) -> i8 {
        if self - rhs > i8::MAX {
            (self - rhs - (i8::MAX - i8::MIN + 1)) as i8
        } else if self - rhs < i8::MIN {
            (self - rhs + (i8::MAX - i8::MIN + 1)) as i8
        } else {
            (self - rhs) as i8
        }
    }

    open spec fn spec_saturating_add(self, rhs: i8) -> i8 {
        if self + rhs > i8::MAX {
            i8::MAX
        } else if self + rhs < i8::MIN {
            i8::MIN
        } else {
            (self + rhs) as i8
        }
    }

    open spec fn spec_saturating_sub(self, rhs: i8) -> i8 {
        if self - rhs > i8::MAX {
            i8::MAX
        } else if self - rhs < i8::MIN {
            i8::MIN
        } else {
            (self - rhs) as i8
        }
    }

    open spec fn spec_less(self, rhs: i8) -> bool {
        self < rhs
    }

    open spec fn spec_number(self) -> int {
        self as int
    }

    #[inline(always)]
    fn zero() -> i8 {
        0
    }

    #[inline(always)]
    fn one() -> i8 {
        1
    }

    #[inline(always)]
    fn not(self) -> i8 {
        !self
    }

    #[inline(always)]
    fn wrapping_add(self, rhs: i8) -> i8 {
        i8::wrapping_add(self, rhs)
    }

    #[inline(always)]
    fn wrapping_sub(self, rhs: i8) -> i8 {
        i8::wrapping_sub(self, rhs)
    }

    #[inline(always)]
    fn saturating_add(self, rhs: i8) -> i8 {
        match self.checked_add(rhs) {
            Some(sum) => sum,
            None => if rhs > 0 {
                i8::MAX
            } else {
                i8::MIN
            },
        }
    }

    #[inline(always)]
    fn saturating_sub(self, rhs: i8) -> i8 {
        match self.checked_sub(rhs) {
            Some(difference) => difference,
            None => if rhs > 0 {
                i8::MIN
            } else {
                i8::MAX
            },
        }
    }

    #[inline(always)]
    fn less(self, rhs: i8) -> bool {
        self < rhs
    }

    #[inline(always)]
    fn same(self, rhs: i8) -> bool {
        self == rhs
    }

    proof fn lemma_stencil_order(a: i8, b: i8) {
    }

    proof fn lemma_stencil_laws() {
    }
}

impl Stencil for i16 {
    open spec fn spec_default() -> i16 {
        0
    }

    open spec fn spec_zero() -> i16 {
        0
    }

    open spec fn spec_one() -> i16 {
        1
    }

    open spec fn spec_max() -> i16 {
        i16::MAX
    }

    open spec fn spec_min() -> i16 {
        i16::MIN
    }

    open spec fn spec_not(self) -> i16 {
        !self
    }

    open spec fn spec_wrapping_add(self, rhs: i16) -> i16 {
        if self + rhs > i16::MAX {
            (self + rhs - (i16::MAX - i16::MIN + 1)) as i16
        } else if self + rhs < i16::MIN {
            (self + rhs + (i16::MAX - i16::MIN + 1)) as i16
        } else {
            (self + rhs) as i16
        }
    }

    open spec fn spec_wrapping_sub(self, rhs: i16) -> i16 {
        if self - rhs > i16::MAX {
            (self - rhs - (i16::MAX - i16::MIN + 1)) as i16
        } else if self - rhs < i16::MIN {
            (self - rhs + (i16::MAX - i16::MIN + 1)) as i16
        } else {
            (self - rhs) as i16
        }
    }

    open spec fn spec_saturating_add(self, rhs: i16) -> i16 {
        if self + rhs > i16::MAX {
            i16::MAX
        } else if self + rhs < i16::MIN {
            i16::MIN
        } else {
            (self + rhs) as i16
        }
    }

    open spec fn spec_saturating_sub(self, rhs: i16) -> i16 {
        if self - rhs > i16::MAX {
            i16::MAX
        } else if self - rhs < i16::MIN {
            i16::MIN
        } else {
            (self - rhs) as i16
        }
    }

    open spec fn spec_less(self, rhs: i16) -> bool {
        self < rhs
    }

    open spec fn spec_number(self) -> int {
        self as int
    }

    #[inline(always)]
    fn zero() -> i16 {
        0
    }

    #[inline(always)]
    fn one() -> i16 {
        1
    }

    #[inline(always)]
    fn not(self) -> i16 {
        !self
    }

    #[inline(always)]
    fn wrapping_add(self, rhs: i16) -> i16 {
        i16::wrapping_add(self, rhs)
    }

    #[inline(always)]
    fn wrapping_sub(self, rhs: i16) -> i16 {
        i16::wrapping_sub(self, rhs)
    }

    #[inline(always)]
    fn saturating_add(self, rhs: i16) -> i16 {
        match self.checked_add(rhs) {
            Some(sum) => sum,
            None => if rhs > 0 {
                i16::MAX
            } else {
                i16::MIN
            },
        }
    }

    #[inline(always)]
    fn saturating_sub(self, rhs: i16) -> i16 {
        match self.checked_sub(rhs) {
            Some(difference) => difference,
            None => if rhs > 0 {
                i16::MIN
            } else {
                i16::MAX
            },
        }
    }

    #[inline(always)]
    fn less(self, rhs: i16) -> bool {
        self < rhs
    }

    #[inline(always)]
    fn same(self, rhs: i16) -> bool {
        self == rhs
    }

    proof fn lemma_stencil_order(a: i16, b: i16) {
    }

    proof fn lemma_stencil_laws() {
    }
}

impl Stencil for i32 {
    open spec fn spec_default() -> i32 {
        0
    }

    open spec fn spec_zero() -> i32 {
        0
    }

    open spec fn spec_one() -> i32 {
        1
    }

    open spec fn spec_max() -> i32 {
        i32::MAX
    }

    open spec fn spec_min() -> i32 {
        i32::MIN
    }

    open spec fn spec_not(self) -> i32 {
        !self
    }

    open spec fn spec_wrapping_add(self, rhs: i32) -> i32 {
        if self + rhs > i32::MAX {
            (self + rhs - (i32::MAX - i32::MIN + 1)) as i32
        } else if self + rhs < i32::MIN {
            (self + rhs + (i32::MAX - i32::MIN + 1)) as i32
        } else {
            (self + rhs) as i32
        }
    }

    open spec fn spec_wrapping_sub(self, rhs: i32) -> i32 {
        if self - rhs > i32::MAX {
            (self - rhs - (i32::MAX - i32::MIN + 1)) as i32
        } else if self - rhs < i32::MIN {
            (self - rhs + (i32::MAX - i32::MIN + 1)) as i32
        } else {
            (self - rhs) as i32
        }
    }

    open spec fn spec_saturating_add(self, rhs: i32) -> i32 {
        if self + rhs > i32::MAX {
            i32::MAX
        } else if self + rhs < i32::MIN {
            i32::MIN
        } else {
            (self + rhs) as i32
        }
    }

    open spec fn spec_saturating_sub(self, rhs: i32) -> i32 {
        if self - rhs > i32::MAX {
            i32::MAX
        } else if self - rhs < i32::MIN {
            i32::MIN
        } else {
            (self - rhs) as i32
        }
    }

    open spec fn spec_less(self, rhs: i32) -> bool {
        self < rhs
    }

    open spec fn spec_number(self) -> int {
        self as int
    }

    #[inline(always)]
    fn zero() -> i32 {
        0
    }

    #[inline(always)]
    fn one() -> i32 {
        1
    }

    #[inline(always)]
    fn not(self) -> i32 {
        !self
    }

    #[inline(always)]
    fn wrapping_add(self, rhs: i32) -> i32 {
        i32::wrapping_add(self, rhs)
    }

    #[inline(always)]
    fn wrapping_sub(self, rhs: i32) -> i32 {
        i32::wrapping_sub(self, rhs)
    }

    #[inline(always)]
    fn saturating_add(self, rhs: i32) -> i32 {
        match self.checked_add(rhs) {
            Some(sum) => sum,
            None => if rhs > 0 {
                i32::MAX
            } else {
                i32::MIN
            },
        }
    }

    #[inline(always)]
    fn saturating_sub(self, rhs: i32) -> i32 {
        match self.checked_sub(rhs) {
            Some(difference) => difference,
            None => if rhs > 0 {
                i32::MIN
            } else {
                i32::MAX
            },
        }
    }

    #[inline(always)]
    fn less(self, rhs: i32) -> bool {
        self < rhs
    }

    #[inline(always)]
    fn same(self, rhs: i32) -> bool {
        self == rhs
    }

    proof fn lemma_stencil_order(a: i32, b: i32) {
    }

    proof fn lemma_stencil_laws() {
    }
}

impl Stencil for i64 {
    open spec fn spec_default() -> i64 {
        0
    }

    open spec fn spec_zero() -> i64 {
        0
    }

    open spec fn spec_one() -> i64 {
        1
    }

    open spec fn spec_max() -> i64 {
        i64::MAX
    }

    open spec fn spec_min() -> i64 {
        i64::MIN
    }

    open spec fn spec_not(self) -> i64 {
        !self
    }

    open spec fn spec_wrapping_add(self, rhs: i64) -> i64 {
        if self + rhs > i64::MAX {
            (self + rhs - (i64::MAX - i64::MIN + 1)) as i64
        } else if self + rhs < i64::MIN {
            (self + rhs + (i64::MAX - i64::MIN + 1)) as i64
        } else {
            (self + rhs) as i64
        }
    }

    open spec fn spec_wrapping_sub(self, rhs: i64) -> i64 {
        if self - rhs > i64::MAX {
            (self - rhs - (i64::MAX - i64::MIN + 1)) as i64
        } else if self - rhs < i64::MIN {
            (self - rhs + (i64::MAX - i64::MIN + 1)) as i64
        } else {
            (self - rhs) as i64
        }
    }

    open spec fn spec_saturating_add(self, rhs: i64) -> i64 {
        if self + rhs > i64::MAX {
            i64::MAX
        } else if self + rhs < i64::MIN {
            i64::MIN
        } else {
            (self + rhs) as i64
        }
    }

    open spec fn spec_saturating_sub(self, rhs: i64) -> i64 {
        if self - rhs > i64::MAX {
            i64::MAX
        } else if self - rhs < i64::MIN {
            i64::MIN
        } else {
            (self - rhs) as i64
        }
    }

    open spec fn spec_less(self, rhs: i64) -> bool {
        self < rhs
    }

    open spec fn spec_number(self) -> int {
        self as int
    }

    #[inline(always)]
    fn zero() -> i64 {
        0
    }

    #[inline(always)]
    fn one() -> i64 {
        1
    }

    #[inline(always)]
    fn not(self) -> i64 {
        !self
    }

    #[inline(always)]
    fn wrapping_add(self, rhs: i64) -> i64 {
        i64::wrapping_add(self, rhs)
    }

    #[inline(always)]
    fn wrapping_sub(self, rhs: i64) -> i64 {
        i64::wrapping_sub(self, rhs)
    }

    #[inline(always)]
    fn saturating_add(self, rhs: i64) -> i64 {
        match self.checked_add(rhs) {
            Some(sum) => sum,
            None => if rhs > 0 {
                i64::MAX
            } else {
                i64::MIN
            },
        }
    }

    #[inline(always)]
    fn saturating_sub(self, rhs: i64) -> i64 {
        match self.checked_sub(rhs) {
            Some(difference) => difference,
            None => if rhs > 0 {
                i64::MIN
            } else {
                i64::MAX
            },
        }
    }

    #[inline(always)]
    fn less(self, rhs: i64) -> bool {
        self < rhs
    }

    #[inline(always)]
    fn same(self, rhs: i64) -> bool {
        self == rhs
    }

    proof fn lemma_stencil_order(a: i64, b: i64) {
    }

    proof fn lemma_stencil_laws() {
    }
}

impl Stencil for isize {
    open spec fn spec_default() -> isize {
        0
    }

    open spec fn spec_zero() -> isize {
        0
    }

    open spec fn spec_one() -> isize {
        1
    }

    open spec fn spec_max() -> isize {
        isize::MAX
    }

    open spec fn spec_min() -> isize {
        isize::MIN
    }

    open spec fn spec_not(self) -> isize {
        !self
    }

    open spec fn spec_wrapping_add(self, rhs: isize) -> isize {
        if self + rhs > isize::MAX {
            (self + rhs - (isize::MAX - isize::MIN + 1)) as isize
        } else if self + rhs < isize::MIN {
            (self + rhs + (isize::MAX - isize::MIN + 1)) as isize
        } else {
            (self + rhs) as isize
        }
    }

    open spec fn spec_wrapping_sub(self, rhs: isize) -> isize {
        if self - rhs > isize::MAX {
            (self - rhs - (isize::MAX - isize::MIN + 1)) as isize
        } else if self - rhs < isize::MIN {
            (self - rhs + (isize::MAX - isize::MIN + 1)) as isize
        } else {
            (self - rhs) as isize
        }
    }

    open spec fn spec_saturating_add(self, rhs: isize) -> isize {
        if self + rhs > isize::MAX {
            isize::MAX
        } else if self + rhs < isize::MIN {
            isize::MIN
        } else {
            (self + rhs) as isize
        }
    }

    open spec fn spec_saturating_sub(self, rhs: isize) -> isize {
        if self - rhs > isize::MAX {
            isize::MAX
        } else if self - rhs < isize::MIN {
            isize::MIN
        } else {
            (self - rhs) as isize
        }
    }

    open spec fn spec_less(self, rhs: isize) -> bool {
        self < rhs
    }

    open spec fn spec_number(self) -> int {
        self as int
    }

    #[inline(always)]
    fn zero() -> isize {
        0
    }

    #[inline(always)]
    fn one() -> isize {
        1
    }

    #[inline(always)]
    fn not(self) -> isize {
        !self
    }

    #[inline(always)]
    fn wrapping_add(self, rhs: isize) -> isize {
        isize::wrapping_add(self, rhs)
    }

    #[inline(always)]
    fn wrapping_sub(self, rhs: isize) -> isize {
        isize::wrapping_sub(self, rhs)
    }

    #[inline(always)]
    fn saturating_add(self, rhs: isize) -> isize {
        match self.checked_add(rhs) {
            Some(sum) => sum,
            None => if rhs > 0 {
                isize::MAX
            } else {
                isize::MIN
            },
        }
    }

    #[inline(always)]
    fn saturating_sub(self, rhs: isize) -> isize {
        match self.checked_sub(rhs) {
            Some(difference) => difference,
            None => if rhs > 0 {
                isize::MIN
            } else {
                isize::MAX
            },
        }
    }

    #[inline(always)]
    fn less(self, rhs: isize) -> bool {
        self < rhs
    }

    #[inline(always)]
    fn same(self, rhs: isize) -> bool {
        self == rhs
    }

    proof fn lemma_stencil_order(a: isize, b: isize) {
    }

    proof fn lemma_stencil_laws() {
    }
}

impl Stencil for () {
    open spec fn spec_default() -> () {
        ()
    }

    open spec fn spec_zero() -> () {
        ()
    }

    open spec fn spec_one() -> () {
        ()
    }

    open spec fn spec_max() -> () {
        ()
    }

    open spec fn spec_min() -> () {
        ()
    }

    open spec fn spec_not(self) -> () {
        ()
    }

    open spec fn spec_wrapping_add(self, rhs: ()) -> () {
        ()
    }

    open spec fn spec_wrapping_sub(self, rhs: ()) -> () {
        ()
    }

    open spec fn spec_saturating_add(self, rhs: ()) -> () {
        ()
    }

    open spec fn spec_saturating_sub(self, rhs: ()) -> () {
        ()
    }

    open spec fn spec_less(self, rhs: ()) -> bool {
        false
    }

    open spec fn spec_number(self) -> int {
        0
    }

    #[inline(always)]
    fn zero() -> () {
        ()
    }

    #[inline(always)]
    fn one() -> () {
        ()
    }

    #[inline(always)]
    fn not(self) -> () {
        ()
    }

    #[inline(always)]
    fn wrapping_add(self, _rhs: ()) -> () {
        ()
    }

    #[inline(always)]
    fn wrapping_sub(self, _rhs: ()) -> () {
        ()
    }

    #[inline(always)]
    fn saturating_add(self, _rhs: ()) -> () {
        ()
    }

    #[inline(always)]
    fn saturating_sub(self, _rhs: ()) -> () {
        ()
    }

    #[inline(always)]
    fn less(self, _rhs: ()) -> bool {
        false
    }

    #[inline(always)]
    fn same(self, _rhs: ()) -> bool {
        true
    }

    proof fn lemma_stencil_order(a: (), b: ()) {
    }

    proof fn lemma_stencil_laws() {
    }
}

/// The comparison that decides whether a fragment passes the stencil stage.
#[derive(Debug, Clone, Copy, Hash, PartialEq, Eq, Structural)]
pub enum StencilTest {
    /// Always pass.
    Always,
    /// Never pass.
    Never,
    /// Pass if the stored value is less than the reference value.
    LessThan,
    /// Pass if the stored value is greater than the reference value.
    GreaterThan,
    /// Pass if the stored value is less than or equal to the reference value.
    LessThanEq,
    /// Pass if the stored value is greater than or equal to the reference value.
    GreaterThanEq,
    /// Pass only if the stored value is equal to the reference value.
    Equal,
    /// Pass only if the stored value differs from the reference value.
    NotEqual,
}

impl StencilTest {
    /// The outcome of the test for the reference `value` and the stored `mask`.
    pub open spec fn test_spec<T: Stencil>(self, value: T, mask: T) -> bool {
        match self {
            StencilTest::Always => true,
            StencilTest::Never => false,
            StencilTest::LessThan => mask.spec_less(value),
            StencilTest::LessThanEq => mask.spec_less(value) || mask == value,
            StencilTest::GreaterThan => value.spec_less(mask),
            StencilTest::GreaterThanEq => value.spec_less(mask) || mask == value,
            StencilTest::Equal => mask == value,
            StencilTest::NotEqual => mask != value,
        }
    }

    /// Performs the stencil test on the reference `value` and the stored `mask`.
    #[inline]
    pub fn test<T>(&self, value: T, mask: T) -> (pass: bool) where T: Stencil + Copy
        ensures
            pass == self.test_spec(value, mask),
    {
        match *self {
            StencilTest::Always => true,
            StencilTest::Never => false,
            StencilTest::LessThan => Stencil::less(mask, value),
            StencilTest::LessThanEq => Stencil::less(mask, value) || Stencil::same(mask, value),
            StencilTest::GreaterThan => Stencil::less(value, mask),
            StencilTest::GreaterThanEq => Stencil::less(value, mask) || Stencil::same(mask, value),
            StencilTest::Equal => Stencil::same(mask, value),
            StencilTest::NotEqual => !Stencil::same(mask, value),
        }
    }
}

/// The update applied to the stored stencil value when a fragment is processed.
#[derive(Debug, Clone, Copy, Hash, PartialEq, Eq, Structural)]
pub enum StencilOp {
    /// Keep the stored value.
    Keep,
    /// Negate the stored value bitwise.
    Invert,
    /// Replace the stored value with zero.
    Zero,
    /// Replace the stored value with the reference value.
    Replace,
    /// Increment the stored value by one, wrapping at the upper bound or staying there.
    Increment {
        /// Whether the value wraps around at the upper bound.
        wrap: bool,
    },
    /// Decrement the stored value by one, wrapping at the lower bound or staying there.
    Decrement {
        /// Whether the value wraps around at the lower bound.
        wrap: bool,
    },
}

impl StencilOp {
    /// The value that replaces the stored `value`, given the reference `mask`.
    pub open spec fn op_spec<T: Stencil>(self, value: T, mask: T) -> T {
        match self {
            StencilOp::Keep => value,
            StencilOp::Invert => value.spec_not(),
            StencilOp::Zero => T::spec_zero(),
            StencilOp::Replace => mask,
            StencilOp::Increment { wrap } => if wrap {
                value.spec_wrapping_add(T::spec_one())
            } else {
                value.spec_saturating_add(T::spec_one())
            },
            StencilOp::Decrement { wrap } => if wrap {
                value.spec_wrapping_sub(T::spec_one())
            } else {
                value.spec_saturating_sub(T::spec_one())
            },
        }
    }

    /// Performs the operation on the stored `value`, returning the new value.
    #[inline]
    pub fn op<T>(&self, value: T, mask: T) -> (r: T) where T: Stencil + Copy
        ensures
            r == self.op_spec(value, mask),
    {
        match *self {
            StencilOp::Keep => value,
            StencilOp::Invert => Stencil::not(value),
            StencilOp::Zero => Stencil::zero(),
            StencilOp::Replace => mask,
            StencilOp::Increment { wrap: true } => Stencil::wrapping_add(value, Stencil::one()),
            StencilOp::Decrement { wrap: true } => Stencil::wrapping_sub(value, Stencil::one()),
            StencilOp::Increment { wrap: false } => Stencil::saturating_add(value, Stencil::one()),
            StencilOp::Decrement { wrap: false } => Stencil::saturating_sub(value, Stencil::one()),
        }
    }
}

/// Stepping over a bound: with `wrap` the value moves to the opposite bound,
/// without it the value stays at the bound.
pub proof fn lemma_op_at_bounds<T: Stencil>(mask: T)
    ensures
        (StencilOp::Increment { wrap: true }).op_spec(T::spec_max(), mask) == T::spec_min(),
        (StencilOp::Increment { wrap: false }).op_spec(T::spec_max(), mask) == T::spec_max(),
        (StencilOp::Decrement { wrap: true }).op_spec(T::spec_min(), mask) == T::spec_max(),
        (StencilOp::Decrement { wrap: false }).op_spec(T::spec_min(), mask) == T::spec_min(),
{
    T::lemma_stencil_laws();
}

/// `Invert` negates the stored value, `Zero` gives zero and `Replace` gives
/// the reference value, whatever the other operand is.
pub proof fn lemma_op_invert_zero_replace<T: Stencil>(value: T, mask: T)
    ensures
        StencilOp::Invert.op_spec(value, mask) == value.spec_not(),
        StencilOp::Zero.op_spec(value, mask) == T::spec_zero(),
        StencilOp::Replace.op_spec(value, mask) == mask,
        StencilOp::Keep.op_spec(value, mask) == value,
{
}

/// `Always` passes and `Never` fails on every pair of operands.
pub proof fn lemma_test_constant<T: Stencil>(value: T, mask: T)
    ensures
        StencilTest::Always.test_spec(value, mask),
        !StencilTest::Never.test_spec(value, mask),
{
}

/// The six comparisons compare the stored value with the reference value
/// as the integers that they stand for.
pub proof fn lemma_test_compares<T: Stencil>(value: T, mask: T)
    ensures
        StencilTest::LessThan.test_spec(value, mask) == (mask.spec_number() < value.spec_number()),
        StencilTest::LessThanEq.test_spec(value, mask) == (mask.spec_number() <= value.spec_number()),
        StencilTest::GreaterThan.test_spec(value, mask) == (mask.spec_number() > value.spec_number()),
        StencilTest::GreaterThanEq.test_spec(value, mask) == (mask.spec_number() >= value.spec_number()),
        StencilTest::Equal.test_spec(value, mask) == (mask.spec_number() == value.spec_number()),
        StencilTest::NotEqual.test_spec(value, mask) == (mask.spec_number() != value.spec_number()),
{
    T::lemma_stencil_order(mask, value);
    T::lemma_stencil_order(value, mask);
}

/// A stateful configuration of the stencil stage.
pub trait StencilConfig: Sized + Default {
    /// The operation that the configuration selects.
    spec fn spec_op(&self) -> StencilOp;

    /// The test that the configuration selects.
    spec fn spec_test(&self) -> StencilTest;

    /// Returns the operation to be performed.
    fn get_op(&self) -> (op: StencilOp)
        ensures
            op == self.spec_op(),
    ;

    /// Returns the test to be performed.
    fn get_test(&self) -> (test: StencilTest)
        ensures
            test == self.spec_test(),
    ;
}

impl StencilConfig for () {
    open spec fn spec_op(&self) -> StencilOp {
        StencilOp::Keep
    }

    open spec fn spec_test(&self) -> StencilTest {
        StencilTest::Always
    }

    #[inline(always)]
    fn get_op(&self) -> StencilOp {
        StencilOp::Keep
    }

    #[inline(always)]
    fn get_test(&self) -> StencilTest {
        StencilTest::Always
    }
}

/// A stencil configuration that stores the operation and the test.
#[derive(Debug, Clone, Copy, PartialEq)]
pub struct GenericStencilConfig {
    /// The operation to perform.
    pub op: StencilOp,
    /// The test to perform.
    pub test: StencilTest,
}

impl StencilConfig for GenericStencilConfig {
    open spec fn spec_op(&self) -> StencilOp {
        self.op
    }

    open spec fn spec_test(&self) -> StencilTest {
        self.test
    }

    #[inline(always)]
    fn get_op(&self) -> StencilOp {
        self.op
    }

    #[inline(always)]
    fn get_test(&self) -> StencilTest {
        self.test
    }
}

impl Default for GenericStencilConfig {
    fn default() -> (config: GenericStencilConfig)
        ensures
            config.op == StencilOp::Keep,
            config.test == StencilTest::Always,
    {
        GenericStencilConfig { op: StencilOp::Keep, test: StencilTest::Always }
    }
}

} // verus!
