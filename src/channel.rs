use vstd::prelude::*;

verus! {

/// An integer storage type for a channel, with its representable range.
pub trait ChannelScalar: Copy + Sized {
    spec fn as_int(self) -> int;

    spec fn min_int() -> int;

    spec fn max_int() -> int;

    proof fn lemma_range(x: Self)
        ensures
            0 == Self::min_int() <= x.as_int() <= Self::max_int(),
            Self::min_int() < Self::max_int() <= u32::MAX,
    ;

    proof fn lemma_injective(x: Self, y: Self)
        requires
            x.as_int() == y.as_int(),
        ensures
            x == y,
    ;

    fn to_wide(self) -> (r: i64)
        ensures
            r == self.as_int(),
    ;

    fn min_value() -> (r: Self)
        ensures
            r.as_int() == Self::min_int(),
    ;

    fn max_value() -> (r: Self)
        ensures
            r.as_int() == Self::max_int(),
    ;

    fn from_wide(v: i64) -> (r: Self)
        requires
            Self::min_int() <= v <= Self::max_int(),
        ensures
            r.as_int() == v,
    ;
}

impl ChannelScalar for u8 {
    open spec fn as_int(self) -> int {
        self as int
    }

    open spec fn min_int() -> int {
        0
    }

    open spec fn max_int() -> int {
        u8::MAX as int
    }

    proof fn lemma_range(x: u8) {
    }

    proof fn lemma_injective(x: u8, y: u8) {
    }

    fn to_wide(self) -> (r: i64) {
        self as i64
    }

    fn min_value() -> (r: u8) {
        0
    }

    fn max_value() -> (r: u8) {
        u8::MAX
    }

    fn from_wide(v: i64) -> (r: u8) {
        v as u8
    }
}

impl ChannelScalar for u16 {
    open spec fn as_int(self) -> int {
        self as int
    }

    open spec fn min_int() -> int {
        0
    }

    open spec fn max_int() -> int {
        u16::MAX as int
    }

    proof fn lemma_range(x: u16) {
    }

    proof fn lemma_injective(x: u16, y: u16) {
    }

    fn to_wide(self) -> (r: i64) {
        self as i64
    }

    fn min_value() -> (r: u16) {
        0
    }

    fn max_value() -> (r: u16) {
        u16::MAX
    }

    fn from_wide(v: i64) -> (r: u16) {
        v as u16
    }
}

impl ChannelScalar for u32 {
    open spec fn as_int(self) -> int {
        self as int
    }

    open spec fn min_int() -> int {
        0
    }

    open spec fn max_int() -> int {
        u32::MAX as int
    }

    proof fn lemma_range(x: u32) {
    }

    proof fn lemma_injective(x: u32, y: u32) {
    }

    fn to_wide(self) -> (r: i64) {
        self as i64
    }

    fn min_value() -> (r: u32) {
        0
    }

    fn max_value() -> (r: u32) {
        u32::MAX
    }

    fn from_wide(v: i64) -> (r: u32) {
        v as u32
    }
}


/// `v` clamped into `[lo, hi]`; the lower bound is tested first.
pub open spec fn clamp_int(v: int, lo: int, hi: int) -> int {
    if v < lo {
        lo
    } else if v > hi {
        hi
    } else {
        v
    }
}

/// `v` reflected within the storage range of `T`: `max - (v - min)`.
pub open spec fn invert_int<T: ChannelScalar>(v: int) -> int {
    T::max_int() - (v - T::min_int())
}

/// `a + (b - a) * num / den`, rounded down.
pub open spec fn lerp_int(a: int, b: int, num: int, den: int) -> int {
    (a * (den - num) + b * num) / den
}

/// `x` saturated into the storage range of `T`.
pub open spec fn saturate<T: ChannelScalar>(x: int) -> int {
    clamp_int(x, T::min_int(), T::max_int())
}

/// Whether `v` lies in the canonical range of `T`.
pub open spec fn in_range<T: ChannelScalar>(v: int) -> bool {
    T::min_int() <= v <= T::max_int()
}

pub fn clamp_scalar<T: ChannelScalar>(v: T, min: T, max: T) -> (r: T)
    ensures
        r.as_int() == clamp_int(v.as_int(), min.as_int(), max.as_int()),
{
    let w = v.to_wide();
    if w < min.to_wide() {
        min
    } else if w > max.to_wide() {
        max
    } else {
        v
    }
}

pub fn invert_scalar<T: ChannelScalar>(v: T) -> (r: T)
    ensures
        r.as_int() == invert_int::<T>(v.as_int()),
{
    proof {
        T::lemma_range(v);
    }
    T::from_wide(T::max_value().to_wide() - (v.to_wide() - T::min_value().to_wide()))
}

pub fn lerp_scalar<T: ChannelScalar>(a: T, b: T, num: u32, den: u32) -> (r: T)
    requires
        0 < den,
        num <= den,
    ensures
        r.as_int() == lerp_int(a.as_int(), b.as_int(), num as int, den as int),
{
    proof {
        T::lemma_range(a);
        T::lemma_range(b);
    }
    let x = a.to_wide() as i128;
    let y = b.to_wide() as i128;
    let n = num as i128;
    let d = den as i128;
    assert(0 <= x * (d - n) <= 0xffff_ffff * 0xffff_ffff) by (nonlinear_arith)
        requires 0 <= x <= 0xffff_ffff, 0 <= n <= d <= 0xffff_ffff;
    assert(0 <= y * n <= 0xffff_ffff * 0xffff_ffff) by (nonlinear_arith)
        requires 0 <= y <= 0xffff_ffff, 0 <= n <= d <= 0xffff_ffff;
    let q = (x * (d - n) + y * n) / d;
    proof {
        lemma_lerp_between(x as int, y as int, n as int, d as int);
        lemma_between_in_range::<T>(a, b, q as int);
    }
    T::from_wide(q as i64)
}

/// A lerp lies between its two ends.
pub proof fn lemma_lerp_between(a: int, b: int, num: int, den: int)
    requires
        0 < den,
        0 <= num <= den,
    ensures
        a <= b ==> a <= lerp_int(a, b, num, den) <= b,
        b <= a ==> b <= lerp_int(a, b, num, den) <= a,
{
    let s = a * (den - num) + b * num;
    if a <= b {
        assert(den * a <= s <= den * b) by (nonlinear_arith)
            requires s == a * (den - num) + b * num, a <= b, 0 <= num <= den;
        vstd::arithmetic::div_mod::lemma_div_is_ordered(den * a, s, den);
        vstd::arithmetic::div_mod::lemma_div_is_ordered(s, den * b, den);
        vstd::arithmetic::div_mod::lemma_div_multiples_vanish(a, den);
        vstd::arithmetic::div_mod::lemma_div_multiples_vanish(b, den);
    } else {
        assert(den * b <= s <= den * a) by (nonlinear_arith)
            requires s == a * (den - num) + b * num, b <= a, 0 <= num <= den;
        vstd::arithmetic::div_mod::lemma_div_is_ordered(den * b, s, den);
        vstd::arithmetic::div_mod::lemma_div_is_ordered(s, den * a, den);
        vstd::arithmetic::div_mod::lemma_div_multiples_vanish(a, den);
        vstd::arithmetic::div_mod::lemma_div_multiples_vanish(b, den);
    }
}

proof fn lemma_between_in_range<T: ChannelScalar>(a: T, b: T, v: int)
    requires
        (a.as_int() <= v <= b.as_int()) || (b.as_int() <= v <= a.as_int()),
    ensures
        in_range::<T>(v),
{
    T::lemma_range(a);
    T::lemma_range(b);
}

/// A channel whose canonical range is the whole range of its storage type.
#[derive(Clone, Copy, Debug, PartialEq, Eq, PartialOrd, Ord, Hash)]
pub struct BoundedChannel<T>(pub T);

impl<T: ChannelScalar> BoundedChannel<T> {
    pub open spec fn val(self) -> int {
        self.0.as_int()
    }

    pub fn new(value: T) -> (r: Self)
        ensures
            r.0 == value,
    {
        BoundedChannel(value)
    }

    pub fn clamp(self, min: T, max: T) -> (r: Self)
        ensures
            r.val() == clamp_int(self.val(), min.as_int(), max.as_int()),
    {
        BoundedChannel(clamp_scalar(self.0, min, max))
    }

    pub fn invert(self) -> (r: Self)
        ensures
            r.val() == invert_int::<T>(self.val()),
    {
        BoundedChannel(invert_scalar(self.0))
    }

    pub fn normalize(self) -> (r: Self)
        ensures
            r.val() == saturate::<T>(self.val()),
            in_range::<T>(r.val()),
    {
        proof {
            T::lemma_range(self.0);
        }
        BoundedChannel(clamp_scalar(self.0, T::min_value(), T::max_value()))
    }

    pub fn is_normalized(&self) -> (r: bool)
        ensures
            r == in_range::<T>(self.val()),
    {
        let w = self.0.to_wide();
        T::min_value().to_wide() <= w && w <= T::max_value().to_wide()
    }

    pub fn lerp(&self, right: &Self, num: u32, den: u32) -> (r: Self)
        requires
            0 < den,
            num <= den,
        ensures
            r.val() == lerp_int(self.val(), right.val(), num as int, den as int),
    {
        BoundedChannel(lerp_scalar(self.0, right.0, num, den))
    }
}

/// A channel whose canonical range `[0, 1]` is mapped onto the whole range of its storage type.
#[derive(Clone, Copy, Debug, PartialEq, Eq, PartialOrd, Ord, Hash)]
pub struct PosNormalBoundedChannel<T>(pub T);

impl<T: ChannelScalar> PosNormalBoundedChannel<T> {
    pub open spec fn val(self) -> int {
        self.0.as_int()
    }

    pub fn new(value: T) -> (r: Self)
        ensures
            r.0 == value,
    {
        PosNormalBoundedChannel(value)
    }

    pub fn clamp(self, min: T, max: T) -> (r: Self)
        ensures
            r.val() == clamp_int(self.val(), min.as_int(), max.as_int()),
    {
        PosNormalBoundedChannel(clamp_scalar(self.0, min, max))
    }

    pub fn invert(self) -> (r: Self)
        ensures
            r.val() == invert_int::<T>(self.val()),
    {
        PosNormalBoundedChannel(invert_scalar(self.0))
    }

    pub fn normalize(self) -> (r: Self)
        ensures
            r.val() == saturate::<T>(self.val()),
            in_range::<T>(r.val()),
    {
        proof {
            T::lemma_range(self.0);
        }
        PosNormalBoundedChannel(clamp_scalar(self.0, T::min_value(), T::max_value()))
    }

    pub fn is_normalized(&self) -> (r: bool)
        ensures
            r == in_range::<T>(self.val()),
    {
        let w = self.0.to_wide();
        T::min_value().to_wide() <= w && w <= T::max_value().to_wide()
    }

    pub fn lerp(&self, right: &Self, num: u32, den: u32) -> (r: Self)
        requires
            0 < den,
            num <= den,
        ensures
            r.val() == lerp_int(self.val(), right.val(), num as int, den as int),
    {
        PosNormalBoundedChannel(lerp_scalar(self.0, right.0, num, den))
    }
}

/// A channel whose canonical range `[-1, 1]` is mapped onto the whole range of its storage type, its zero at mid-range.
#[derive(Clone, Copy, Debug, PartialEq, Eq, PartialOrd, Ord, Hash)]
pub struct NormalBoundedChannel<T>(pub T);

impl<T: ChannelScalar> NormalBoundedChannel<T> {
    pub open spec fn val(self) -> int {
        self.0.as_int()
    }

    pub fn new(value: T) -> (r: Self)
        ensures
            r.0 == value,
    {
        NormalBoundedChannel(value)
    }

    pub fn clamp(self, min: T, max: T) -> (r: Self)
        ensures
            r.val() == clamp_int(self.val(), min.as_int(), max.as_int()),
    {
        NormalBoundedChannel(clamp_scalar(self.0, min, max))
    }

    pub fn invert(self) -> (r: Self)
        ensures
            r.val() == invert_int::<T>(self.val()),
    {
        NormalBoundedChannel(invert_scalar(self.0))
    }

    pub fn normalize(self) -> (r: Self)
        ensures
            r.val() == saturate::<T>(self.val()),
            in_range::<T>(r.val()),
    {
        proof {
            T::lemma_range(self.0);
        }
        NormalBoundedChannel(clamp_scalar(self.0, T::min_value(), T::max_value()))
    }

    pub fn is_normalized(&self) -> (r: bool)
        ensures
            r == in_range::<T>(self.val()),
    {
        let w = self.0.to_wide();
        T::min_value().to_wide() <= w && w <= T::max_value().to_wide()
    }

    pub fn lerp(&self, right: &Self, num: u32, den: u32) -> (r: Self)
        requires
            0 < den,
            num <= den,
        ensures
            r.val() == lerp_int(self.val(), right.val(), num as int, den as int),
    {
        NormalBoundedChannel(lerp_scalar(self.0, right.0, num, den))
    }
}

/// Inverting a channel value twice gives the value back.
pub proof fn lemma_invert_involutive<T: ChannelScalar>(x: T, y: T, z: T)
    requires
        y.as_int() == invert_int::<T>(x.as_int()),
        z.as_int() == invert_int::<T>(y.as_int()),
    ensures
        z == x,
{
    T::lemma_injective(z, x);
}

/// A lerp at position 0 gives its left end and at position 1 its right end;
/// in between it is the exact interpolation rounded down, so less than one
/// step below it.
pub proof fn lemma_lerp_ends(a: int, b: int, num: int, den: int)
    requires
        0 < den,
        0 <= num <= den,
    ensures
        lerp_int(a, b, 0, den) == a,
        lerp_int(a, b, den, den) == b,
        den * lerp_int(a, b, num, den) <= den * a + (b - a) * num < den * lerp_int(a, b, num, den) + den,
{
    assert(a * (den - 0) + b * 0 == den * a) by (nonlinear_arith);
    assert(a * (den - den) + b * den == den * b) by (nonlinear_arith);
    vstd::arithmetic::div_mod::lemma_div_multiples_vanish(a, den);
    vstd::arithmetic::div_mod::lemma_div_multiples_vanish(b, den);
    let s = a * (den - num) + b * num;
    assert(s == den * a + (b - a) * num) by (nonlinear_arith)
        requires s == a * (den - num) + b * num;
    vstd::arithmetic::div_mod::lemma_fundamental_div_mod(s, den);
    vstd::arithmetic::div_mod::lemma_mod_bound(s, den);
}

} // verus!
