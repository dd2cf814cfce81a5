//! The render configuration: everything a render needs, fixed before
//! the first pixel and immutable while the grid is computed.

use vstd::prelude::*;

use crate::complex::Complex;
use crate::error::RenderError;
use crate::formula::{lookup, lookup_spec, FormulaKind};

verus! {

/// One render's settings.  `fixed_c` present selects Julia mode (the
/// same `c` for every pixel); absent selects Mandelbrot mode (`c`
/// equals each pixel's own initial `z`).
#[derive(Clone, Debug)]
pub struct RenderConfig {
    /// Image width in pixels.
    pub width: u32,
    /// Image height in pixels.
    pub height: u32,
    /// The escape-time iteration cap.
    pub max_iterations: u64,
    /// The fixed `c` of Julia mode, or `None` for Mandelbrot mode.
    pub fixed_c: Option<Complex>,
    /// The name of the iteration formula to use.
    pub formula_name: String,
    /// Index used to name the produced image file.
    pub output_index: u64,
}

impl RenderConfig {
    /// Julia mode: a fixed `c` is configured.
    pub open spec fn is_julia_spec(self) -> bool {
        self.fixed_c is Some
    }

    /// Whether this render runs in Julia mode.
    pub fn is_julia(&self) -> (julia: bool)
        ensures
            julia == self.is_julia_spec(),
    {
        matches!(self.fixed_c, Some(_))
    }

    /// Both axes are long enough for the coordinate mapper, which
    /// divides by `axis_length - 1`.
    pub open spec fn dimensions_valid(self) -> bool {
        self.width >= 2 && self.height >= 2
    }

    /// The constant `c` for one pixel: the configured fixed `c` in
    /// Julia mode, the pixel's own initial `z` in Mandelbrot mode.
    pub fn initial_c(&self, z0: Complex) -> (c: Complex)
        ensures
            self.fixed_c is Some ==> c == self.fixed_c.unwrap(),
            self.fixed_c is None ==> c == z0,
    {
        match &self.fixed_c {
            Some(value) => *value,
            None => z0,
        }
    }
}

/// Validates a configuration and resolves its formula.  Dimensions are
/// checked first: an image narrower or shorter than 2 pixels is
/// refused as `InvalidDimensions` whatever the formula name says, and
/// an unknown formula name on a well-dimensioned render is refused as
/// `FormulaNotFound`.  Rendering may proceed only on `Ok`.
pub fn check_config(config: &RenderConfig) -> (checked: Result<FormulaKind, RenderError>)
    ensures
        !config.dimensions_valid() ==> checked == Err::<FormulaKind, RenderError>(
            RenderError::InvalidDimensions,
        ),
        config.dimensions_valid() ==> checked == lookup_spec(config.formula_name@),
{
    if config.width < 2 || config.height < 2 {
        Err(RenderError::InvalidDimensions)
    } else {
        lookup(config.formula_name.as_str())
    }
}

/// The configuration that interactive use starts from: every setting
/// at its neutral value, to be filled in before rendering.  It does
/// not pass `check_config` as it stands.
pub fn interactive_config() -> (config: RenderConfig)
    ensures
        config.width == 0,
        config.height == 0,
        config.max_iterations == 0,
        config.fixed_c is None,
        config.formula_name@ == Seq::<char>::empty(),
        config.output_index == 0,
{
    RenderConfig {
        width: 0,
        height: 0,
        max_iterations: 0,
        fixed_c: None,
        formula_name: String::new(),
        output_index: 0,
    }
}

} // verus!
