//! The tunable parameters of the effect.
//!
//! Every numeric parameter is a 32-bit IEEE-754 number. The library never
//! computes with these numbers: it forwards them to the shader unchanged and
//! compares two of them with zero. Both can be done on the bit pattern, so
//! that is what the types hold. A caller obtains the pattern of an `f32`
//! with `f32::to_bits`.

use vstd::prelude::*;
use vstd::std_specs::convert::FromSpecImpl;
use crate::encoding::{image_of_words, is_image_of_words};

verus! {

/// The bit pattern of positive infinity; every larger magnitude is a NaN.
pub const INFINITY_BITS: u32 = 0x7f80_0000;

/// The bit that holds the sign.
pub const SIGN_BIT: u32 = 0x8000_0000;

/// The bit pattern of negative infinity.
pub const NEGATIVE_INFINITY_BITS: u32 = 0xff80_0000;

/// Whether `bits` encodes a NaN: an all-ones exponent with a non-zero
/// fraction, under either sign.
pub open spec fn spec_is_nan(bits: u32) -> bool {
    INFINITY_BITS < bits < SIGN_BIT || NEGATIVE_INFINITY_BITS < bits
}

/// Whether the number that `bits` encodes is less than or equal to zero.
///
/// This holds of both zeros and of every negative number down to negative
/// infinity. It holds of no NaN, since a NaN compares false with everything.
pub open spec fn spec_at_most_zero(bits: u32) -> bool {
    bits == 0 || SIGN_BIT <= bits <= NEGATIVE_INFINITY_BITS
}

/// Whether the number that `bits` encodes is greater than zero.
pub open spec fn spec_is_positive(bits: u32) -> bool {
    0 < bits <= INFINITY_BITS
}

/// Decides `x <= 0.0` for the number `x` whose bit pattern is `bits`.
pub fn at_most_zero(bits: u32) -> (r: bool)
    ensures
        r == spec_at_most_zero(bits),
{
    bits == 0 || (SIGN_BIT <= bits && bits <= NEGATIVE_INFINITY_BITS)
}

/// The user's settings for the effect.
///
/// `radius`, `threshold`, `strength` and `color_boost` are bit patterns of
/// 32-bit floating-point numbers.
#[derive(Clone, Copy, Debug)]
pub struct ExperimentalGlow {
    pub enabled: bool,
    pub radius: u32,
    pub threshold: u32,
    pub strength: u32,
    pub color_boost: u32,
}

impl ExperimentalGlow {
    /// The effect draws only when it is switched on and neither its strength
    /// nor its radius is at most zero.
    pub open spec fn spec_is_active(&self) -> bool {
        self.enabled && !spec_at_most_zero(self.strength) && !spec_at_most_zero(self.radius)
    }

    /// The parameters that the shader is given: the four numeric settings,
    /// each bit for bit.
    pub open spec fn spec_uniform(&self) -> GlowUniform {
        GlowUniform {
            radius: self.radius,
            threshold: self.threshold,
            strength: self.strength,
            color_boost: self.color_boost,
        }
    }

    /// Whether a frame drawn with these settings runs the effect.
    pub fn is_active(&self) -> (r: bool)
        ensures
            r == self.spec_is_active(),
    {
        self.enabled && !at_most_zero(self.strength) && !at_most_zero(self.radius)
    }
}

/// The parameters as the shader reads them: four 32-bit numbers in this
/// order, with nothing between them.
#[derive(Clone, Copy, Debug)]
pub struct GlowUniform {
    pub radius: u32,
    pub threshold: u32,
    pub strength: u32,
    pub color_boost: u32,
}

/// The number of 32-bit words in a [`GlowUniform`].
pub const UNIFORM_WORDS: usize = 4;

impl GlowUniform {
    /// The four parameters in the order of the shader's uniform block.
    pub open spec fn spec_words(&self) -> Seq<u32> {
        seq![self.radius, self.threshold, self.strength, self.color_boost]
    }

    /// The words of the uniform block, in the order the shader expects.
    pub fn words(&self) -> (w: Vec<u32>)
        ensures
            w@ == self.spec_words(),
            w@.len() == UNIFORM_WORDS,
    {
        let mut w: Vec<u32> = Vec::with_capacity(UNIFORM_WORDS);
        w.push(self.radius);
        w.push(self.threshold);
        w.push(self.strength);
        w.push(self.color_boost);
        w
    }
}

impl GlowUniform {
    /// The bytes of the uniform block as they are uploaded: the four words
    /// in order, each as it lies in memory, sixteen bytes in all.
    pub fn bytes(&self) -> (bytes: Vec<u8>)
        ensures
            is_image_of_words(bytes@, self.spec_words()),
            bytes@.len() == 4 * UNIFORM_WORDS,
    {
        let words = self.words();
        image_of_words(&words)
    }
}

impl Default for GlowUniform {
    /// All four parameters are positive zero.
    fn default() -> (uniform: Self)
        ensures
            uniform == (GlowUniform { radius: 0, threshold: 0, strength: 0, color_boost: 0 }),
    {
        GlowUniform { radius: 0, threshold: 0, strength: 0, color_boost: 0 }
    }
}

impl<'a> From<&'a ExperimentalGlow> for GlowUniform {
    /// Copies the four numeric settings, bit for bit.
    fn from(config: &'a ExperimentalGlow) -> (uniform: Self) {
        GlowUniform {
            radius: config.radius,
            threshold: config.threshold,
            strength: config.strength,
            color_boost: config.color_boost,
        }
    }
}

impl<'a> FromSpecImpl<&'a ExperimentalGlow> for GlowUniform {
    open spec fn obeys_from_spec() -> bool {
        true
    }

    open spec fn from_spec(config: &'a ExperimentalGlow) -> Self {
        config.spec_uniform()
    }
}

/// The size of the output surface as the window system reports it.
#[derive(Clone, Copy, Debug)]
pub struct Dimensions {
    pub pixel_width: usize,
    pub pixel_height: usize,
    pub dpi: usize,
}

/// The low 32 bits of a pixel count: the extent that a texture is given.
pub open spec fn spec_extent(pixels: usize) -> u32 {
    (pixels as int % 0x1_0000_0000) as u32
}

impl Dimensions {
    pub open spec fn spec_width(&self) -> u32 {
        spec_extent(self.pixel_width)
    }

    pub open spec fn spec_height(&self) -> u32 {
        spec_extent(self.pixel_height)
    }

    /// The width of the textures for a surface this wide.
    pub fn width(&self) -> (w: u32)
        ensures
            w == self.spec_width(),
    {
        extent(self.pixel_width)
    }

    /// The height of the textures for a surface this high.
    pub fn height(&self) -> (h: u32)
        ensures
            h == self.spec_height(),
    {
        extent(self.pixel_height)
    }
}

/// Keeps the low 32 bits of a pixel count.
pub fn extent(pixels: usize) -> (e: u32)
    ensures
        e == spec_extent(pixels),
        pixels <= u32::MAX ==> e == pixels,
{
    let wide: u64 = pixels as u64;
    let low: u64 = wide % 0x1_0000_0000;
    low as u32
}

} // verus!
