use vstd::prelude::*;

verus! {

/// A fixed-arity tuple of channels, tagged by its color family.
pub trait Color: Sized {
    type Tag;
    type ChannelsTuple;

    /// How many channels a color of this type has.
    spec fn arity() -> nat;

    fn num_channels() -> (r: u32)
        ensures
            r == Self::arity(),
    ;

    fn from_tuple(values: Self::ChannelsTuple) -> Self;

    fn to_tuple(self) -> Self::ChannelsTuple;
}

/// A color with angular and cartesian components.
pub trait PolarColor: Color {
    type Angular;
    type Cartesian;
}

/// A color whose channels all share one storage type.
pub trait HomogeneousColor: Color {
    type ChannelFormat;

    /// Builds a color from its channel values in order; the slice holds
    /// exactly one value per channel.
    fn from_slice(values: &[Self::ChannelFormat]) -> Self
        requires
            values@.len() == Self::arity(),
    ;

    /// The channel values in order.
    fn to_vec(&self) -> (r: Vec<Self::ChannelFormat>)
        ensures
            r@.len() == Self::arity(),
    ;

    fn broadcast(value: Self::ChannelFormat) -> Self;

    fn clamp(self, min: Self::ChannelFormat, max: Self::ChannelFormat) -> Self;
}

pub trait Color3: Color {}

pub trait Color4: Color {}

/// Linear interpolation at the position `num / den`, which lies in `[0, 1]`.
pub trait Lerp: Sized {
    fn lerp(&self, right: &Self, num: u32, den: u32) -> Self
        requires
            0 < den,
            num <= den,
    ;
}

pub trait Invert {
    fn invert(self) -> Self;
}

pub trait Bounded {
    fn normalize(self) -> Self;

    fn is_normalized(&self) -> bool;
}

} // verus!
