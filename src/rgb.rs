use vstd::prelude::*;
use crate::channel::{BoundedChannel, ChannelScalar, clamp_int, invert_int, lerp_int, in_range};
use crate::color::{Bounded, Color, Color3, HomogeneousColor, Invert, Lerp};

verus! {

/// The tag of the RGB color family.
pub struct RgbTag;

/// A color of three bounded channels: red, green and blue.
#[derive(Clone, Copy, Debug, PartialEq, Eq, PartialOrd, Ord, Hash)]
pub struct Rgb<T> {
    pub red: BoundedChannel<T>,
    pub green: BoundedChannel<T>,
    pub blue: BoundedChannel<T>,
}

impl<T: ChannelScalar> Rgb<T> {
    pub fn from_channels(red: T, green: T, blue: T) -> (r: Self)
        ensures
            r.red.0 == red,
            r.green.0 == green,
            r.blue.0 == blue,
    {
        Rgb { red: BoundedChannel(red), green: BoundedChannel(green), blue: BoundedChannel(blue) }
    }

    pub open spec fn is_normalized_spec(self) -> bool {
        &&& in_range::<T>(self.red.val())
        &&& in_range::<T>(self.green.val())
        &&& in_range::<T>(self.blue.val())
    }

    pub fn red_mut(&mut self) -> (r: &mut T)
        ensures
            *r == old(self).red.0,
    {
        &mut self.red.0
    }

    pub fn green_mut(&mut self) -> (r: &mut T)
        ensures
            *r == old(self).green.0,
    {
        &mut self.green.0
    }

    pub fn blue_mut(&mut self) -> (r: &mut T)
        ensures
            *r == old(self).blue.0,
    {
        &mut self.blue.0
    }

    pub fn red(&self) -> (r: T)
        ensures
            r == self.red.0,
    {
        self.red.0
    }

    pub fn green(&self) -> (r: T)
        ensures
            r == self.green.0,
    {
        self.green.0
    }

    pub fn blue(&self) -> (r: T)
        ensures
            r == self.blue.0,
    {
        self.blue.0
    }

    pub fn set_red(&mut self, val: T)
        ensures
            final(self).red.0 == val,
            final(self).green == old(self).green,
            final(self).blue == old(self).blue,
    {
        self.red.0 = val;
    }

    pub fn set_green(&mut self, val: T)
        ensures
            final(self).green.0 == val,
            final(self).red == old(self).red,
            final(self).blue == old(self).blue,
    {
        self.green.0 = val;
    }

    pub fn set_blue(&mut self, val: T)
        ensures
            final(self).blue.0 == val,
            final(self).red == old(self).red,
            final(self).green == old(self).green,
    {
        self.blue.0 = val;
    }
}

impl<T: ChannelScalar> Color for Rgb<T> {
    type Tag = RgbTag;
    type ChannelsTuple = (T, T, T);

    open spec fn arity() -> nat {
        3
    }

    fn num_channels() -> (r: u32)
        ensures
            r == 3,
    {
        3
    }

    fn from_tuple(values: (T, T, T)) -> (r: Self)
        ensures
            r.red.0 == values.0,
            r.green.0 == values.1,
            r.blue.0 == values.2,
    {
        Rgb { red: BoundedChannel(values.0), green: BoundedChannel(values.1), blue: BoundedChannel(values.2) }
    }

    fn to_tuple(self) -> (r: (T, T, T))
        ensures
            r == (self.red.0, self.green.0, self.blue.0),
    {
        (self.red.0, self.green.0, self.blue.0)
    }
}

impl<T: ChannelScalar> HomogeneousColor for Rgb<T> {
    type ChannelFormat = T;

    fn from_slice(values: &[T]) -> (r: Self)
        ensures
            r.red.0 == values@[0],
            r.green.0 == values@[1],
            r.blue.0 == values@[2],
    {
        Rgb { red: BoundedChannel(values[0]), green: BoundedChannel(values[1]), blue: BoundedChannel(values[2]) }
    }

    fn to_vec(&self) -> (r: Vec<T>)
        ensures
            r@ == seq![self.red.0, self.green.0, self.blue.0],
    {
        let mut v: Vec<T> = Vec::new();
        v.push(self.red.0);
        v.push(self.green.0);
        v.push(self.blue.0);
        v
    }

    fn broadcast(value: T) -> (r: Self)
        ensures
            r.red.0 == value,
            r.green.0 == value,
            r.blue.0 == value,
    {
        Rgb { red: BoundedChannel(value), green: BoundedChannel(value), blue: BoundedChannel(value) }
    }

    fn clamp(self, min: T, max: T) -> (r: Self)
        ensures
            r.red.val() == clamp_int(self.red.val(), min.as_int(), max.as_int()),
            r.green.val() == clamp_int(self.green.val(), min.as_int(), max.as_int()),
            r.blue.val() == clamp_int(self.blue.val(), min.as_int(), max.as_int()),
    {
        Rgb { red: self.red.clamp(min, max), green: self.green.clamp(min, max), blue: self.blue.clamp(min, max) }
    }
}

impl<T: ChannelScalar> Color3 for Rgb<T> {}

impl<T: ChannelScalar> Invert for Rgb<T> {
    fn invert(self) -> (r: Self)
        ensures
            r.red.val() == invert_int::<T>(self.red.val()),
            r.green.val() == invert_int::<T>(self.green.val()),
            r.blue.val() == invert_int::<T>(self.blue.val()),
    {
        Rgb { red: self.red.invert(), green: self.green.invert(), blue: self.blue.invert() }
    }
}

impl<T: ChannelScalar> Bounded for Rgb<T> {
    fn normalize(self) -> (r: Self)
        ensures
            r.is_normalized_spec(),
            self.is_normalized_spec() ==> r == self,
    {
        proof {
            T::lemma_range(self.red.0);
            T::lemma_range(self.green.0);
            T::lemma_range(self.blue.0);
        }
        let r = Rgb { red: self.red.normalize(), green: self.green.normalize(), blue: self.blue.normalize() };
        proof {
            T::lemma_injective(r.red.0, self.red.0);
            T::lemma_injective(r.green.0, self.green.0);
            T::lemma_injective(r.blue.0, self.blue.0);
        }
        r
    }

    fn is_normalized(&self) -> (r: bool)
        ensures
            r == self.is_normalized_spec(),
    {
        self.red.is_normalized() && self.green.is_normalized() && self.blue.is_normalized()
    }
}

impl<T: ChannelScalar> Lerp for Rgb<T> {
    fn lerp(&self, right: &Self, num: u32, den: u32) -> (r: Self)
        ensures
            r.red.val() == lerp_int(self.red.val(), right.red.val(), num as int, den as int),
            r.green.val() == lerp_int(self.green.val(), right.green.val(), num as int, den as int),
            r.blue.val() == lerp_int(self.blue.val(), right.blue.val(), num as int, den as int),
    {
        Rgb {
            red: self.red.lerp(&right.red, num, den),
            green: self.green.lerp(&right.green, num, den),
            blue: self.blue.lerp(&right.blue, num, den),
        }
    }
}

impl<T: ChannelScalar> Default for Rgb<T> {
    /// Black: every channel at the bottom of its range.
    fn default() -> (r: Self)
        ensures
            r.red.val() == T::min_int(),
            r.green.val() == T::min_int(),
            r.blue.val() == T::min_int(),
    {
        let z = T::min_value();
        Rgb { red: BoundedChannel(z), green: BoundedChannel(z), blue: BoundedChannel(z) }
    }
}

/// The largest of three values.
pub open spec fn max3(a: int, b: int, c: int) -> int {
    if a >= b && a >= c {
        a
    } else if b >= c {
        b
    } else {
        c
    }
}

/// The smallest of three values.
pub open spec fn min3(a: int, b: int, c: int) -> int {
    if a <= b && a <= c {
        a
    } else if b <= c {
        b
    } else {
        c
    }
}

/// The inverse of the guard term added to the hue's denominator.
pub const HUE_GUARD_INV: u64 = 10_000_000_000;

/// The channels `(r, g, b)` ordered for hue extraction, with the hue offset in
/// thirds of a turn: `(offset, c1, c2, c3, min_chan)`.
pub open spec fn hue_order(r: int, g: int, b: int) -> (int, int, int, int, int) {
    let (k, c2, c3) = if g < b { (-3int, b, g) } else { (0int, g, b) };
    if r < c2 {
        (-1 - k, c2, r, c3, if r <= c3 { r } else { c3 })
    } else {
        (k, r, c2, c3, c3)
    }
}

/// The signed hue in turns, `offset/3 + (c2 - c3) / (6 * (c1 - min_chan) + 1/G)`
/// with `G` the guard's inverse, written over the common denominator
/// `3 * (6 * (c1 - min_chan) * G + 1)`: this is the numerator.
pub open spec fn hue_signed_numer(r: int, g: int, b: int) -> int {
    let (k, c1, c2, c3, m) = hue_order(r, g, b);
    k * (6 * (c1 - m) * HUE_GUARD_INV + 1) + 3 * HUE_GUARD_INV * (c2 - c3)
}

/// The common denominator of the hue.
pub open spec fn hue_denom(r: int, g: int, b: int) -> int {
    let (k, c1, c2, c3, m) = hue_order(r, g, b);
    3 * (6 * (c1 - m) * HUE_GUARD_INV + 1)
}

pub open spec fn abs_int(x: int) -> int {
    if x < 0 {
        -x
    } else {
        x
    }
}

/// A hue as the exact fraction `numer / denom` of a full turn.
#[derive(Clone, Copy, Debug, PartialEq, Eq)]
pub struct Turns {
    pub numer: u128,
    pub denom: u128,
}

fn get_hue_factor_and_ordered_chans<T: ChannelScalar>(color: &Rgb<T>) -> (r: (i64, i64, i64, i64, i64))
    ensures
        r.0 == hue_order(color.red.val(), color.green.val(), color.blue.val()).0,
        r.1 == hue_order(color.red.val(), color.green.val(), color.blue.val()).1,
        r.2 == hue_order(color.red.val(), color.green.val(), color.blue.val()).2,
        r.3 == hue_order(color.red.val(), color.green.val(), color.blue.val()).3,
        r.4 == hue_order(color.red.val(), color.green.val(), color.blue.val()).4,
{
    let mut scaling_factor: i64 = 0;
    let mut c1 = color.red.0.to_wide();
    let mut c2 = color.green.0.to_wide();
    let mut c3 = color.blue.0.to_wide();
    if c2 < c3 {
        let t = c2;
        c2 = c3;
        c3 = t;
        scaling_factor = -3;
    }
    let mut min_chan = c3;
    if c1 < c2 {
        let t = c1;
        c1 = c2;
        c2 = t;
        scaling_factor = -1 - scaling_factor;
        min_chan = if c2 <= c3 { c2 } else { c3 };
    }
    (scaling_factor, c1, c2, c3, min_chan)
}

impl<T: ChannelScalar> Rgb<T> {
    /// The spread between the largest and the smallest channel.
    pub fn get_chroma(&self) -> (r: T)
        ensures
            r.as_int() == max3(self.red.val(), self.green.val(), self.blue.val())
                - min3(self.red.val(), self.green.val(), self.blue.val()),
    {
        proof {
            T::lemma_range(self.red.0);
            T::lemma_range(self.green.0);
            T::lemma_range(self.blue.0);
        }
        let mut c1 = self.red.0.to_wide();
        let mut c2 = self.green.0.to_wide();
        let mut c3 = self.blue.0.to_wide();
        if c2 < c3 {
            let t = c2;
            c2 = c3;
            c3 = t;
        }
        if c1 < c2 {
            let t = c1;
            c1 = c2;
            c2 = t;
        }
        if c2 < c3 {
            let t = c2;
            c2 = c3;
            c3 = t;
        }
        assert(c1 - c3 == max3(self.red.val(), self.green.val(), self.blue.val())
            - min3(self.red.val(), self.green.val(), self.blue.val()));
        T::from_wide(c1 - c3)
    }

    /// The hue as a fraction of a turn: 0 is red, 1/3 green, 2/3 blue.
    pub fn get_hue(&self) -> (r: Turns)
        ensures
            r.numer == abs_int(hue_signed_numer(self.red.val(), self.green.val(), self.blue.val())),
            r.denom == hue_denom(self.red.val(), self.green.val(), self.blue.val()),
    {
        proof {
            T::lemma_range(self.red.0);
            T::lemma_range(self.green.0);
            T::lemma_range(self.blue.0);
        }
        let (k, c1, c2, c3, min_chan) = get_hue_factor_and_ordered_chans(self);
        let g = HUE_GUARD_INV as i128;
        let spread = (c1 - min_chan) as i128;
        let diff = (c2 - c3) as i128;
        assert(0 <= spread * 6 * g <= 0xffff_ffff * 6 * 10_000_000_000) by (nonlinear_arith)
            requires 0 <= spread <= 0xffff_ffff, g == 10_000_000_000;
        let d = 6 * spread * g + 1;
        assert(-3 * d <= k * d <= 3 * d) by (nonlinear_arith)
            requires -3 <= k <= 2, 0 < d;
        assert(-0xffff_ffff * 3 * 10_000_000_000 <= 3 * g * diff <= 0xffff_ffff * 3 * 10_000_000_000) by (nonlinear_arith)
            requires -0xffff_ffff <= diff <= 0xffff_ffff, g == 10_000_000_000;
        let n = k as i128 * d + 3 * g * diff;
        let numer = if n < 0 { (-n) as u128 } else { n as u128 };
        Turns { numer, denom: (3 * d) as u128 }
    }
}

/// A color whose channels are all equal has chroma zero.
pub proof fn lemma_gray_has_no_chroma(v: int)
    ensures
        max3(v, v, v) - min3(v, v, v) == 0,
{
}

/// Red is at 0 turns, green at 1/3, blue at 2/3; yellow is within a
/// relative 1e-6 of 1/6 and magenta within a relative 1e-6 of 5/6.
pub proof fn lemma_primary_hues(m: int)
    requires
        m > 0,
    ensures
        abs_int(hue_signed_numer(m, 0, 0)) == 0,
        3 * abs_int(hue_signed_numer(0, m, 0)) == hue_denom(0, m, 0),
        3 * abs_int(hue_signed_numer(0, 0, m)) == 2 * hue_denom(0, 0, m),
        abs_int(6 * abs_int(hue_signed_numer(m, m, 0)) - hue_denom(m, m, 0)) * 1_000_000
            <= hue_denom(m, m, 0),
        abs_int(6 * abs_int(hue_signed_numer(m, 0, m)) - 5 * hue_denom(m, 0, m)) * 1_000_000
            <= 5 * hue_denom(m, 0, m),
{
    let g = HUE_GUARD_INV as int;
    let d = 6 * m * g + 1;
    assert(0 < m * g) by (nonlinear_arith)
        requires m > 0, g == 10_000_000_000;
    assert(hue_order(m, 0, 0) == (0int, m, 0int, 0int, 0int));
    assert(hue_order(0, m, 0) == (-1int, m, 0int, 0int, 0int));
    assert(hue_order(0, 0, m) == (2int, m, 0int, 0int, 0int));
    assert(hue_order(m, m, 0) == (0int, m, m, 0int, 0int));
    assert(hue_order(m, 0, m) == (-3int, m, m, 0int, 0int));
    assert(hue_signed_numer(m, 0, 0) == 0) by (nonlinear_arith)
        requires hue_signed_numer(m, 0, 0) == 0 * (6 * (m - 0) * g + 1) + 3 * g * (0 - 0);
    assert(hue_signed_numer(0, m, 0) == -d) by (nonlinear_arith)
        requires hue_signed_numer(0, m, 0) == -1 * (6 * (m - 0) * g + 1) + 3 * g * (0 - 0), d == 6 * m * g + 1;
    assert(hue_signed_numer(0, 0, m) == 2 * d) by (nonlinear_arith)
        requires hue_signed_numer(0, 0, m) == 2 * (6 * (m - 0) * g + 1) + 3 * g * (0 - 0), d == 6 * m * g + 1;
    assert(hue_signed_numer(m, m, 0) == 3 * g * m) by (nonlinear_arith)
        requires hue_signed_numer(m, m, 0) == 0 * (6 * (m - 0) * g + 1) + 3 * g * (m - 0);
    assert(hue_signed_numer(m, 0, m) == -3 * d + 3 * g * m) by (nonlinear_arith)
        requires hue_signed_numer(m, 0, m) == -3 * (6 * (m - 0) * g + 1) + 3 * g * (m - 0), d == 6 * m * g + 1;
    assert(hue_denom(0, m, 0) == 3 * d);
    assert(hue_denom(0, 0, m) == 3 * d);
    assert(hue_denom(m, m, 0) == 3 * d);
    assert(hue_denom(m, 0, m) == 3 * d);
    assert(-3 * d + 3 * g * m == -15 * m * g - 3) by (nonlinear_arith)
        requires d == 6 * m * g + 1;
    assert(6 * (3 * g * m) - 3 * d == -3) by (nonlinear_arith)
        requires d == 6 * m * g + 1;
    assert(6 * (15 * m * g + 3) - 5 * (3 * d) == 3) by (nonlinear_arith)
        requires d == 6 * m * g + 1;
}

/// Inverting a color twice gives the color back: `inv` is what `invert`
/// returns for `c`, and `back` what it returns for `inv`.
pub proof fn lemma_rgb_invert_involutive<T: ChannelScalar>(c: Rgb<T>, inv: Rgb<T>, back: Rgb<T>)
    requires
        inv.red.val() == invert_int::<T>(c.red.val()),
        inv.green.val() == invert_int::<T>(c.green.val()),
        inv.blue.val() == invert_int::<T>(c.blue.val()),
        back.red.val() == invert_int::<T>(inv.red.val()),
        back.green.val() == invert_int::<T>(inv.green.val()),
        back.blue.val() == invert_int::<T>(inv.blue.val()),
    ensures
        back == c,
{
    crate::channel::lemma_invert_involutive::<T>(c.red.0, inv.red.0, back.red.0);
    crate::channel::lemma_invert_involutive::<T>(c.green.0, inv.green.0, back.green.0);
    crate::channel::lemma_invert_involutive::<T>(c.blue.0, inv.blue.0, back.blue.0);
}

/// A lerp at position 0 gives the left color and at position 1 the right
/// one: `at_start` and `at_end` are what `lerp` returns at `0 / den` and
/// `den / den`.
pub proof fn lemma_rgb_lerp_ends<T: ChannelScalar>(a: Rgb<T>, b: Rgb<T>, den: int, at_start: Rgb<T>, at_end: Rgb<T>)
    requires
        0 < den,
        at_start.red.val() == lerp_int(a.red.val(), b.red.val(), 0, den),
        at_start.green.val() == lerp_int(a.green.val(), b.green.val(), 0, den),
        at_start.blue.val() == lerp_int(a.blue.val(), b.blue.val(), 0, den),
        at_end.red.val() == lerp_int(a.red.val(), b.red.val(), den, den),
        at_end.green.val() == lerp_int(a.green.val(), b.green.val(), den, den),
        at_end.blue.val() == lerp_int(a.blue.val(), b.blue.val(), den, den),
    ensures
        at_start == a,
        at_end == b,
{
    crate::channel::lemma_lerp_ends(a.red.val(), b.red.val(), 0, den);
    T::lemma_injective(at_start.red.0, a.red.0);
    T::lemma_injective(at_end.red.0, b.red.0);
    crate::channel::lemma_lerp_ends(a.green.val(), b.green.val(), 0, den);
    T::lemma_injective(at_start.green.0, a.green.0);
    T::lemma_injective(at_end.green.0, b.green.0);
    crate::channel::lemma_lerp_ends(a.blue.val(), b.blue.val(), 0, den);
    T::lemma_injective(at_start.blue.0, a.blue.0);
    T::lemma_injective(at_end.blue.0, b.blue.0);
}

} // verus!
