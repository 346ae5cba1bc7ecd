use vstd::prelude::*;
use crate::channel::{
    ChannelScalar, NormalBoundedChannel, PosNormalBoundedChannel, in_range, invert_int, lerp_int,
    saturate,
};
use crate::color::{Bounded, Color, Color3, Invert, Lerp};
use crate::rgb::Rgb;

verus! {

/// The scale of a fixed-point matrix entry: an entry `e` stands for `e / FIXED_ONE`.
pub const FIXED_ONE: i64 = 65536;

/// The largest magnitude of a matrix entry.
pub const MAX_COEFF: i64 = 1_048_576;

/// The largest magnitude of a vector component handed to a transform.
pub const MAX_COMPONENT: i64 = 17_179_869_184;

/// A bound on the magnitude of each component that a transform returns.
pub const MAX_OUTPUT: i64 = 2_199_023_255_552;

/// The largest magnitude of a shift component.
pub const MAX_SHIFT: i64 = 4_294_967_296;

/// `x / FIXED_ONE`, rounded to nearest with halves rounded up.
pub open spec fn round_fixed(x: int) -> int {
    (x + FIXED_ONE / 2) / (FIXED_ONE as int)
}

pub open spec fn coeff_ok(e: i64) -> bool {
    -MAX_COEFF <= e <= MAX_COEFF
}

pub open spec fn component_ok(x: int) -> bool {
    -MAX_COMPONENT <= x <= MAX_COMPONENT
}

pub open spec fn row_dot(row: (i64, i64, i64), v: (int, int, int)) -> int {
    row.0 * v.0 + row.1 * v.1 + row.2 * v.2
}

/// A 3x3 matrix of fixed-point entries, row by row.
#[derive(Clone, Copy, Debug, PartialEq, Eq)]
pub struct Matrix3 {
    pub r0: (i64, i64, i64),
    pub r1: (i64, i64, i64),
    pub r2: (i64, i64, i64),
}

impl Matrix3 {
    pub open spec fn wf(self) -> bool {
        &&& coeff_ok(self.r0.0) && coeff_ok(self.r0.1) && coeff_ok(self.r0.2)
        &&& coeff_ok(self.r1.0) && coeff_ok(self.r1.1) && coeff_ok(self.r1.2)
        &&& coeff_ok(self.r2.0) && coeff_ok(self.r2.1) && coeff_ok(self.r2.2)
    }

    /// The product with a column vector, each component rounded.
    pub open spec fn apply(self, v: (int, int, int)) -> (int, int, int) {
        (
            round_fixed(row_dot(self.r0, v)),
            round_fixed(row_dot(self.r1, v)),
            round_fixed(row_dot(self.r2, v)),
        )
    }

    pub fn transform_vector(&self, v: (i64, i64, i64)) -> (r: (i64, i64, i64))
        requires
            self.wf(),
            component_ok(v.0 as int),
            component_ok(v.1 as int),
            component_ok(v.2 as int),
        ensures
            r.0 == self.apply((v.0 as int, v.1 as int, v.2 as int)).0,
            r.1 == self.apply((v.0 as int, v.1 as int, v.2 as int)).1,
            r.2 == self.apply((v.0 as int, v.1 as int, v.2 as int)).2,
            -MAX_OUTPUT <= r.0 <= MAX_OUTPUT,
            -MAX_OUTPUT <= r.1 <= MAX_OUTPUT,
            -MAX_OUTPUT <= r.2 <= MAX_OUTPUT,
    {
        (row_times(self.r0, v), row_times(self.r1, v), row_times(self.r2, v))
    }
}

fn row_times(row: (i64, i64, i64), v: (i64, i64, i64)) -> (r: i64)
    requires
        coeff_ok(row.0) && coeff_ok(row.1) && coeff_ok(row.2),
        component_ok(v.0 as int),
        component_ok(v.1 as int),
        component_ok(v.2 as int),
    ensures
        r == round_fixed(row_dot(row, (v.0 as int, v.1 as int, v.2 as int))),
        -MAX_OUTPUT <= r <= MAX_OUTPUT,
{
    proof {
        lemma_product_bound(row.0 as int, v.0 as int);
        lemma_product_bound(row.1 as int, v.1 as int);
        lemma_product_bound(row.2 as int, v.2 as int);
    }
    let s = row.0 * v.0 + row.1 * v.1 + row.2 * v.2;
    let h = (s + FIXED_ONE / 2) as i128;
    let q = if h >= 0 {
        h / (FIXED_ONE as i128)
    } else {
        -((-h + FIXED_ONE as i128 - 1) / (FIXED_ONE as i128))
    };
    proof {
        let x = s + FIXED_ONE / 2;
        assert(-0x200_0000_0000_0000 <= x <= 0x200_0000_0000_0000);
        let lo = (FIXED_ONE as int) * -MAX_OUTPUT;
        let hi = (FIXED_ONE as int) * MAX_OUTPUT;
        vstd::arithmetic::div_mod::lemma_div_is_ordered(lo, x, FIXED_ONE as int);
        vstd::arithmetic::div_mod::lemma_div_is_ordered(x, hi, FIXED_ONE as int);
        vstd::arithmetic::div_mod::lemma_div_multiples_vanish(-MAX_OUTPUT, FIXED_ONE as int);
        vstd::arithmetic::div_mod::lemma_div_multiples_vanish(MAX_OUTPUT as int, FIXED_ONE as int);
    }
    q as i64
}

proof fn lemma_product_bound(e: int, x: int)
    requires
        -MAX_COEFF <= e <= MAX_COEFF,
        component_ok(x),
    ensures
        -MAX_COEFF * MAX_COMPONENT <= e * x <= MAX_COEFF * MAX_COMPONENT,
{
    assert(-MAX_COEFF * MAX_COMPONENT <= e * x <= MAX_COEFF * MAX_COMPONENT) by (nonlinear_arith)
        requires -MAX_COEFF <= e <= MAX_COEFF, -MAX_COMPONENT <= x <= MAX_COMPONENT,
            MAX_COEFF == 1_048_576, MAX_COMPONENT == 17_179_869_184;
}

/// The parameters of an RGB/YCbCr transform: the forward matrix, its inverse,
/// and the offset added after the forward transform.
#[derive(Clone, Copy, Debug, PartialEq, Eq)]
pub struct YCbCrModel {
    pub forward: Matrix3,
    pub inverse: Matrix3,
    pub shift: (i64, i64, i64),
}

impl YCbCrModel {
    pub open spec fn wf(self) -> bool {
        &&& self.forward.wf()
        &&& self.inverse.wf()
        &&& -MAX_SHIFT <= self.shift.0 <= MAX_SHIFT
        &&& -MAX_SHIFT <= self.shift.1 <= MAX_SHIFT
        &&& -MAX_SHIFT <= self.shift.2 <= MAX_SHIFT
    }

    pub fn new(forward: Matrix3, inverse: Matrix3, shift: (i64, i64, i64)) -> (r: Self)
        ensures
            r == (YCbCrModel { forward, inverse, shift }),
    {
        YCbCrModel { forward, inverse, shift }
    }

    pub fn forward_transform(&self) -> (r: Matrix3)
        ensures
            r == self.forward,
    {
        self.forward
    }

    pub fn inverse_transform(&self) -> (r: Matrix3)
        ensures
            r == self.inverse,
    {
        self.inverse
    }

    pub fn shift(&self) -> (r: (i64, i64, i64))
        ensures
            r == self.shift,
    {
        self.shift
    }
}

/// What `to_rgb` does with a result outside the canonical range.
#[derive(Clone, Copy, Debug, PartialEq, Eq)]
pub enum OutOfGamutMode {
    Preserve,
    Clip,
}

/// The tag of the YCbCr color family.
pub struct YCbCrTag;

/// A YCbCr color without its model: luma in `[0, 1]`, cb and cr in `[-1, 1]`.
#[derive(Clone, Copy, Debug, PartialEq, Eq, PartialOrd, Ord, Hash)]
pub struct BareYCbCr<T> {
    pub luma: PosNormalBoundedChannel<T>,
    pub cb: NormalBoundedChannel<T>,
    pub cr: NormalBoundedChannel<T>,
}

/// A YCbCr color together with the model that relates it to RGB.
#[derive(Clone, Copy, Debug, PartialEq, Eq)]
pub struct YCbCr<T> {
    pub color: BareYCbCr<T>,
    pub model: YCbCrModel,
}

impl<T: ChannelScalar> YCbCr<T> {
    pub fn from_color_and_model(color: BareYCbCr<T>, model: YCbCrModel) -> (r: Self)
        ensures
            r.color == color,
            r.model == model,
    {
        YCbCr { color, model }
    }
}

/// The components `(r, g, b)` would take in YCbCr under `model`, before saturation.
pub open spec fn forward_spec(model: YCbCrModel, r: int, g: int, b: int) -> (int, int, int) {
    let t = model.forward.apply((r, g, b));
    (t.0 + model.shift.0, t.1 + model.shift.1, t.2 + model.shift.2)
}

/// The components `(y, cb, cr)` would take in RGB under `model`, before saturation.
pub open spec fn inverse_spec(model: YCbCrModel, y: int, cb: int, cr: int) -> (int, int, int) {
    model.inverse.apply((y - model.shift.0, cb - model.shift.1, cr - model.shift.2))
}

impl<T: ChannelScalar> BareYCbCr<T> {
    pub open spec fn is_normalized_spec(self) -> bool {
        &&& in_range::<T>(self.luma.val())
        &&& in_range::<T>(self.cb.val())
        &&& in_range::<T>(self.cr.val())
    }

    pub fn from_channels(luma: T, cb: T, cr: T) -> (r: Self)
        ensures
            r.luma.0 == luma,
            r.cb.0 == cb,
            r.cr.0 == cr,
    {
        BareYCbCr {
            luma: PosNormalBoundedChannel::new(luma),
            cb: NormalBoundedChannel::new(cb),
            cr: NormalBoundedChannel::new(cr),
        }
    }

    /// Builds a color from `[luma, cb, cr]`.
    pub fn from_slice(values: &[T]) -> (r: Self)
        requires
            values@.len() == 3,
        ensures
            r.luma.0 == values@[0],
            r.cb.0 == values@[1],
            r.cr.0 == values@[2],
    {
        BareYCbCr::from_channels(values[0], values[1], values[2])
    }

    /// The channel values as `[luma, cb, cr]`.
    pub fn to_vec(&self) -> (r: Vec<T>)
        ensures
            r@ == seq![self.luma.0, self.cb.0, self.cr.0],
    {
        let mut v: Vec<T> = Vec::new();
        v.push(self.luma.0);
        v.push(self.cb.0);
        v.push(self.cr.0);
        v
    }

    pub fn luma(&self) -> (r: T)
        ensures
            r == self.luma.0,
    {
        self.luma.0
    }

    pub fn luma_mut(&mut self) -> (r: &mut T)
        ensures
            *r == old(self).luma.0,
    {
        &mut self.luma.0
    }

    pub fn set_luma(&mut self, val: T)
        ensures
            final(self).luma.0 == val,
            final(self).cb == old(self).cb,
            final(self).cr == old(self).cr,
    {
        self.luma.0 = val;
    }

    pub fn cb(&self) -> (r: T)
        ensures
            r == self.cb.0,
    {
        self.cb.0
    }

    pub fn cb_mut(&mut self) -> (r: &mut T)
        ensures
            *r == old(self).cb.0,
    {
        &mut self.cb.0
    }

    pub fn set_cb(&mut self, val: T)
        ensures
            final(self).cb.0 == val,
            final(self).luma == old(self).luma,
            final(self).cr == old(self).cr,
    {
        self.cb.0 = val;
    }

    pub fn cr(&self) -> (r: T)
        ensures
            r == self.cr.0,
    {
        self.cr.0
    }

    pub fn cr_mut(&mut self) -> (r: &mut T)
        ensures
            *r == old(self).cr.0,
    {
        &mut self.cr.0
    }

    pub fn set_cr(&mut self, val: T)
        ensures
            final(self).cr.0 == val,
            final(self).luma == old(self).luma,
            final(self).cb == old(self).cb,
    {
        self.cr.0 = val;
    }

    pub fn with_model(self, model: YCbCrModel) -> (r: YCbCr<T>)
        ensures
            r.color == self,
            r.model == model,
    {
        YCbCr::from_color_and_model(self, model)
    }

    /// Converts an RGB color: the forward transform, then the shift, each
    /// component saturated into the storage range.
    pub fn from_rgb_and_model(from: &Rgb<T>, model: &YCbCrModel) -> (r: Self)
        requires
            model.wf(),
        ensures
            r.luma.val() == saturate::<T>(forward_spec(*model, from.red.val(), from.green.val(), from.blue.val()).0),
            r.cb.val() == saturate::<T>(forward_spec(*model, from.red.val(), from.green.val(), from.blue.val()).1),
            r.cr.val() == saturate::<T>(forward_spec(*model, from.red.val(), from.green.val(), from.blue.val()).2),
    {
        proof {
            T::lemma_range(from.red.0);
            T::lemma_range(from.green.0);
            T::lemma_range(from.blue.0);
        }
        let transform = model.forward_transform();
        let shift = model.shift();
        let (r, g, b) = from.to_tuple();
        let (y, cb, cr) = transform.transform_vector((r.to_wide(), g.to_wide(), b.to_wide()));
        BareYCbCr::from_channels(
            saturate_wide::<T>(y + shift.0),
            saturate_wide::<T>(cb + shift.1),
            saturate_wide::<T>(cr + shift.2),
        )
    }

    /// Converts to RGB: the shift taken off, then the inverse transform, each
    /// component saturated into the storage range; `Clip` then normalizes.
    pub fn to_rgb(&self, model: &YCbCrModel, out_of_gamut_mode: OutOfGamutMode) -> (r: Rgb<T>)
        requires
            model.wf(),
        ensures
            r.red.val() == saturate::<T>(inverse_spec(*model, self.luma.val(), self.cb.val(), self.cr.val()).0),
            r.green.val() == saturate::<T>(inverse_spec(*model, self.luma.val(), self.cb.val(), self.cr.val()).1),
            r.blue.val() == saturate::<T>(inverse_spec(*model, self.luma.val(), self.cb.val(), self.cr.val()).2),
            out_of_gamut_mode == OutOfGamutMode::Clip ==> r.is_normalized_spec(),
    {
        proof {
            T::lemma_range(self.luma.0);
            T::lemma_range(self.cb.0);
            T::lemma_range(self.cr.0);
        }
        let transform = model.inverse_transform();
        let shift = model.shift();
        let (i1, i2, i3) = self.to_tuple();
        let shifted = (i1.to_wide() - shift.0, i2.to_wide() - shift.1, i3.to_wide() - shift.2);
        let (r, g, b) = transform.transform_vector(shifted);
        let out = Rgb::from_channels(saturate_wide::<T>(r), saturate_wide::<T>(g), saturate_wide::<T>(b));
        match out_of_gamut_mode {
            OutOfGamutMode::Preserve => out,
            OutOfGamutMode::Clip => out.normalize(),
        }
    }
}

/// `x` saturated into the storage range of `T`.
fn saturate_wide<T: ChannelScalar>(x: i64) -> (r: T)
    ensures
        r.as_int() == saturate::<T>(x as int),
{
    let lo = T::min_value();
    let hi = T::max_value();
    proof {
        T::lemma_range(lo);
    }
    if x < lo.to_wide() {
        lo
    } else if x > hi.to_wide() {
        hi
    } else {
        T::from_wide(x)
    }
}

impl<T: ChannelScalar> Color for BareYCbCr<T> {
    type Tag = YCbCrTag;
    type ChannelsTuple = (T, T, T);

    open spec fn arity() -> nat {
        3
    }

    fn num_channels() -> (r: u32)
        ensures
            r == 3,
    {
        3
    }

    fn from_tuple(values: (T, T, T)) -> (r: Self)
        ensures
            r.luma.0 == values.0,
            r.cb.0 == values.1,
            r.cr.0 == values.2,
    {
        BareYCbCr::from_channels(values.0, values.1, values.2)
    }

    fn to_tuple(self) -> (r: (T, T, T))
        ensures
            r == (self.luma.0, self.cb.0, self.cr.0),
    {
        (self.luma.0, self.cb.0, self.cr.0)
    }
}

impl<T: ChannelScalar> Color3 for BareYCbCr<T> {}

impl<T: ChannelScalar> Invert for BareYCbCr<T> {
    fn invert(self) -> (r: Self)
        ensures
            r.luma.val() == invert_int::<T>(self.luma.val()),
            r.cb.val() == invert_int::<T>(self.cb.val()),
            r.cr.val() == invert_int::<T>(self.cr.val()),
    {
        BareYCbCr { luma: self.luma.invert(), cb: self.cb.invert(), cr: self.cr.invert() }
    }
}

impl<T: ChannelScalar> Bounded for BareYCbCr<T> {
    fn normalize(self) -> (r: Self)
        ensures
            r.is_normalized_spec(),
            self.is_normalized_spec() ==> r == self,
    {
        let r = BareYCbCr { luma: self.luma.normalize(), cb: self.cb.normalize(), cr: self.cr.normalize() };
        proof {
            T::lemma_range(self.luma.0);
            T::lemma_range(self.cb.0);
            T::lemma_range(self.cr.0);
            T::lemma_injective(r.luma.0, self.luma.0);
            T::lemma_injective(r.cb.0, self.cb.0);
            T::lemma_injective(r.cr.0, self.cr.0);
        }
        r
    }

    fn is_normalized(&self) -> (r: bool)
        ensures
            r == self.is_normalized_spec(),
    {
        self.luma.is_normalized() && self.cb.is_normalized() && self.cr.is_normalized()
    }
}

impl<T: ChannelScalar> Lerp for BareYCbCr<T> {
    fn lerp(&self, right: &Self, num: u32, den: u32) -> (r: Self)
        ensures
            r.luma.val() == lerp_int(self.luma.val(), right.luma.val(), num as int, den as int),
            r.cb.val() == lerp_int(self.cb.val(), right.cb.val(), num as int, den as int),
            r.cr.val() == lerp_int(self.cr.val(), right.cr.val(), num as int, den as int),
    {
        BareYCbCr {
            luma: self.luma.lerp(&right.luma, num, den),
            cb: self.cb.lerp(&right.cb, num, den),
            cr: self.cr.lerp(&right.cr, num, den),
        }
    }
}

impl<T: ChannelScalar> Default for BareYCbCr<T> {
    /// Every channel at the bottom of its storage range.
    fn default() -> (r: Self)
        ensures
            r.luma.val() == T::min_int(),
            r.cb.val() == T::min_int(),
            r.cr.val() == T::min_int(),
    {
        let z = T::min_value();
        BareYCbCr::from_channels(z, z, z)
    }
}

/// Inverting a color twice gives the color back: `inv` is what `invert`
/// returns for `c`, and `back` what it returns for `inv`.
pub proof fn lemma_bareycbcr_invert_involutive<T: ChannelScalar>(c: BareYCbCr<T>, inv: BareYCbCr<T>, back: BareYCbCr<T>)
    requires
        inv.luma.val() == invert_int::<T>(c.luma.val()),
        inv.cb.val() == invert_int::<T>(c.cb.val()),
        inv.cr.val() == invert_int::<T>(c.cr.val()),
        back.luma.val() == invert_int::<T>(inv.luma.val()),
        back.cb.val() == invert_int::<T>(inv.cb.val()),
        back.cr.val() == invert_int::<T>(inv.cr.val()),
    ensures
        back == c,
{
    crate::channel::lemma_invert_involutive::<T>(c.luma.0, inv.luma.0, back.luma.0);
    crate::channel::lemma_invert_involutive::<T>(c.cb.0, inv.cb.0, back.cb.0);
    crate::channel::lemma_invert_involutive::<T>(c.cr.0, inv.cr.0, back.cr.0);
}

/// A lerp at position 0 gives the left color and at position 1 the right
/// one: `at_start` and `at_end` are what `lerp` returns at `0 / den` and
/// `den / den`.
pub proof fn lemma_bareycbcr_lerp_ends<T: ChannelScalar>(a: BareYCbCr<T>, b: BareYCbCr<T>, den: int, at_start: BareYCbCr<T>, at_end: BareYCbCr<T>)
    requires
        0 < den,
        at_start.luma.val() == lerp_int(a.luma.val(), b.luma.val(), 0, den),
        at_start.cb.val() == lerp_int(a.cb.val(), b.cb.val(), 0, den),
        at_start.cr.val() == lerp_int(a.cr.val(), b.cr.val(), 0, den),
        at_end.luma.val() == lerp_int(a.luma.val(), b.luma.val(), den, den),
        at_end.cb.val() == lerp_int(a.cb.val(), b.cb.val(), den, den),
        at_end.cr.val() == lerp_int(a.cr.val(), b.cr.val(), den, den),
    ensures
        at_start == a,
        at_end == b,
{
    crate::channel::lemma_lerp_ends(a.luma.val(), b.luma.val(), 0, den);
    T::lemma_injective(at_start.luma.0, a.luma.0);
    T::lemma_injective(at_end.luma.0, b.luma.0);
    crate::channel::lemma_lerp_ends(a.cb.val(), b.cb.val(), 0, den);
    T::lemma_injective(at_start.cb.0, a.cb.0);
    T::lemma_injective(at_end.cb.0, b.cb.0);
    crate::channel::lemma_lerp_ends(a.cr.val(), b.cr.val(), 0, den);
    T::lemma_injective(at_start.cr.0, a.cr.0);
    T::lemma_injective(at_end.cr.0, b.cr.0);
}

} // verus!
