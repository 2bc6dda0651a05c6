//! A four-pass glow effect for `wgpu` renderers.
//!
//! The effect extracts the bright parts of an already rendered image into
//! an offscreen surface, blurs them horizontally and then vertically, and
//! adds the result back onto the image. Everything that decides what is
//! drawn where is verified; the calls into `wgpu` are short wrappers whose
//! contracts describe each handle by the description it was created from.

use vstd::prelude::*;

pub mod capture;
pub mod convert;
pub mod descriptors;
pub mod encoding;
pub mod error;
pub mod geometry;
pub mod gpu;
pub mod params;
pub mod passes;
pub mod renderer;
pub mod resources;
