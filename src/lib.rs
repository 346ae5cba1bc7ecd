//! Colors as tuples of bounded integer channels, with RGB and YCbCr models,
//! chroma and hue extraction, and fixed-point RGB/YCbCr conversion.
pub mod channel;
pub mod color;
pub mod rgb;
pub mod ycbcr;
