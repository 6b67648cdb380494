use vstd::prelude::*;

use crate::complex::Complex;
use crate::fp::Double;
use crate::kernel::{BAILOUT_NUM, MAX_STEPS, MIN_STEPS};

verus! {

/// The named gradient palettes a caller can pick from.
#[derive(Copy, Clone, PartialEq, Eq, Structural, Debug)]
pub enum Colormap {
    Acton,
    Bamako,
    Batlow,
    Berlin,
    Bilbao,
    Broc,
    Broco,
    Buda,
    Cork,
    Corko,
    Davos,
    Devon,
    Grayc,
    Hawaii,
    Imola,
    Lajolla,
    Lapaz,
    Lisbon,
    Nuuk,
    Oleron,
    Oslo,
    Roma,
    Romao,
    Tofino,
    Tokyo,
    Turku,
    Vik,
    Viko,
}

/// How many named gradients exist.
pub const COLORMAP_COUNT: usize = 28;

/// The gradient at a position in the fixed enumeration order.
pub open spec fn spec_colormap_at(i: int) -> Colormap {
    if i == 0 {
        Colormap::Acton
    } else if i == 1 {
        Colormap::Bamako
    } else if i == 2 {
        Colormap::Batlow
    } else if i == 3 {
        Colormap::Berlin
    } else if i == 4 {
        Colormap::Bilbao
    } else if i == 5 {
        Colormap::Broc
    } else if i == 6 {
        Colormap::Broco
    } else if i == 7 {
        Colormap::Buda
    } else if i == 8 {
        Colormap::Cork
    } else if i == 9 {
        Colormap::Corko
    } else if i == 10 {
        Colormap::Davos
    } else if i == 11 {
        Colormap::Devon
    } else if i == 12 {
        Colormap::Grayc
    } else if i == 13 {
        Colormap::Hawaii
    } else if i == 14 {
        Colormap::Imola
    } else if i == 15 {
        Colormap::Lajolla
    } else if i == 16 {
        Colormap::Lapaz
    } else if i == 17 {
        Colormap::Lisbon
    } else if i == 18 {
        Colormap::Nuuk
    } else if i == 19 {
        Colormap::Oleron
    } else if i == 20 {
        Colormap::Oslo
    } else if i == 21 {
        Colormap::Roma
    } else if i == 22 {
        Colormap::Romao
    } else if i == 23 {
        Colormap::Tofino
    } else if i == 24 {
        Colormap::Tokyo
    } else if i == 25 {
        Colormap::Turku
    } else if i == 26 {
        Colormap::Vik
    } else {
        Colormap::Viko
    }
}

/// The gradient at a position in the fixed enumeration order.
pub fn colormap_from_index(i: usize) -> (r: Colormap)
    requires
        i < COLORMAP_COUNT,
    ensures
        r == spec_colormap_at(i as int),
{
    if i == 0 {
        Colormap::Acton
    } else if i == 1 {
        Colormap::Bamako
    } else if i == 2 {
        Colormap::Batlow
    } else if i == 3 {
        Colormap::Berlin
    } else if i == 4 {
        Colormap::Bilbao
    } else if i == 5 {
        Colormap::Broc
    } else if i == 6 {
        Colormap::Broco
    } else if i == 7 {
        Colormap::Buda
    } else if i == 8 {
        Colormap::Cork
    } else if i == 9 {
        Colormap::Corko
    } else if i == 10 {
        Colormap::Davos
    } else if i == 11 {
        Colormap::Devon
    } else if i == 12 {
        Colormap::Grayc
    } else if i == 13 {
        Colormap::Hawaii
    } else if i == 14 {
        Colormap::Imola
    } else if i == 15 {
        Colormap::Lajolla
    } else if i == 16 {
        Colormap::Lapaz
    } else if i == 17 {
        Colormap::Lisbon
    } else if i == 18 {
        Colormap::Nuuk
    } else if i == 19 {
        Colormap::Oleron
    } else if i == 20 {
        Colormap::Oslo
    } else if i == 21 {
        Colormap::Roma
    } else if i == 22 {
        Colormap::Romao
    } else if i == 23 {
        Colormap::Tofino
    } else if i == 24 {
        Colormap::Tokyo
    } else if i == 25 {
        Colormap::Turku
    } else if i == 26 {
        Colormap::Vik
    } else {
        Colormap::Viko
    }
}

/// The configuration of one generation request.
///
/// Dimensions and iteration bounds are plain integers; plane coordinates and
/// the escape exponent are doubles carried as bit patterns. `bailout_num` is
/// the exponent `e` of the escape threshold `10^e`.
pub struct Options {
    pub dimensions: (u32, u32),
    pub image_center: Option<Complex>,
    pub view_size: Option<(Double, Double)>,
    pub step_limits: (u32, u32),
    pub colormap: Option<Colormap>,
    pub rng_seed: Option<u64>,
    pub bailout_num: Double,
    pub chunk_size: usize,
}

impl Default for Options {
    fn default() -> (o: Self)
        ensures
            o.dimensions == (960u32, 540u32),
            o.image_center is None,
            o.view_size is None,
            o.step_limits == (MIN_STEPS, MAX_STEPS),
            o.colormap is None,
            o.rng_seed is None,
            o.bailout_num.bits == BAILOUT_NUM,
            o.chunk_size == 15usize,
    {
        Options {
            dimensions: (960, 540),
            image_center: None,
            view_size: None,
            step_limits: (MIN_STEPS, MAX_STEPS),
            colormap: None,
            rng_seed: None,
            bailout_num: Double { bits: BAILOUT_NUM },
            chunk_size: 15,
        }
    }
}

/// What can go wrong in a generation run.
#[derive(Copy, Clone, PartialEq, Eq, Structural, Debug)]
pub enum GenerationError {
    /// A pixel dimension below 2: the pixel-to-plane interpolation would
    /// divide by zero.
    InvalidDimensions,
    /// Iteration bounds that do not satisfy `max > min >= 1`: center
    /// rejection-sampling could never terminate.
    InvalidIterationBounds,
    /// The raster could not be encoded into a byte stream.
    EncodingFailed,
}

/// A configuration is valid when both dimensions are at least 2 and the
/// iteration bounds satisfy `max > min >= 1`.
pub open spec fn config_valid(o: Options) -> bool {
    &&& o.dimensions.0 >= 2
    &&& o.dimensions.1 >= 2
    &&& 1 <= o.step_limits.0 < o.step_limits.1
}

/// The error reported for an invalid configuration: bad dimensions take
/// precedence over bad iteration bounds.
pub open spec fn spec_config_error(o: Options) -> GenerationError {
    if o.dimensions.0 < 2 || o.dimensions.1 < 2 {
        GenerationError::InvalidDimensions
    } else {
        GenerationError::InvalidIterationBounds
    }
}

/// A valid configuration's interpolation denominators are positive: both
/// dimensions exceed 1, so `width - 1` and `height - 1` are at least 1 and
/// the pixel-to-plane mapping never divides by zero.
pub proof fn lemma_interpolation_denominators_positive(o: Options)
    requires
        config_valid(o),
    ensures
        o.dimensions.0 - 1 >= 1,
        o.dimensions.1 - 1 >= 1,
{
}

/// Checks a configuration before any work is scheduled: succeeds exactly on
/// valid configurations and names the offending condition otherwise.
pub fn validate(o: &Options) -> (r: Result<(), GenerationError>)
    ensures
        r is Ok <==> config_valid(*o),
        r is Err ==> r->Err_0 == spec_config_error(*o),
{
    if o.dimensions.0 < 2 || o.dimensions.1 < 2 {
        Err(GenerationError::InvalidDimensions)
    } else if o.step_limits.0 < 1 || o.step_limits.0 >= o.step_limits.1 {
        Err(GenerationError::InvalidIterationBounds)
    } else {
        Ok(())
    }
}

} // verus!
