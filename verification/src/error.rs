//! The two ways a render can be refused before it begins.  Both are
//! fatal: there is no fallback formula and no dimension clamping.

use vstd::prelude::*;

verus! {

/// Why a requested render cannot proceed.
#[derive(Clone, Copy, Debug, PartialEq, Eq, Structural)]
pub enum RenderError {
    /// The requested formula name is not one of the registered names.
    FormulaNotFound,
    /// Width or height is below 2, which would make the coordinate
    /// mapper divide by zero.
    InvalidDimensions,
}

impl RenderError {
    /// The message shown to the user for this error.
    pub fn message(&self) -> (text: String)
        ensures
            self is FormulaNotFound ==> text@ == "Function generation method not found!"@,
            self is InvalidDimensions ==> text@ == "Image width and height must both be at least 2!"@,
    {
        match self {
            RenderError::FormulaNotFound => "Function generation method not found!".to_owned(),
            RenderError::InvalidDimensions => "Image width and height must both be at least 2!".to_owned(),
        }
    }
}

} // verus!
