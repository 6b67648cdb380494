//! A verified Mandelbrot-set renderer.
//!
//! The pipeline turns a small configuration (viewport, iteration bounds,
//! palette, random seed) into a PNG byte stream: a deterministic pseudo-random
//! viewport is chosen, every pixel is classified by a distance-estimator
//! escape-time kernel, colors come from a gradient palette, and the finished
//! color buffer is encoded. Floating-point values are carried as raw bit
//! patterns ([`fp::Double`]); the arithmetic itself is delegated to trusted
//! wrappers, so that every piece of control flow, indexing, and buffer
//! assembly is verified, and the whole run is provably a function of the
//! configuration and the resolved seed.

pub mod colormaps;
pub mod complex;
pub mod fp;
pub mod kernel;
pub mod options;
pub mod pipeline;
pub mod raster;
pub mod rng;
pub mod sampler;

pub use complex::Complex;
pub use fp::lerp;
pub use fp::Double;
pub use kernel::{mandelbrot, MandelbrotConfig, BAILOUT_NUM, MAX_STEPS, MIN_STEPS};
pub use options::{Colormap, GenerationError, Options};
pub use pipeline::{encode_image, gen_image};
pub use rng::rand_range;
pub use sampler::choose_center;
