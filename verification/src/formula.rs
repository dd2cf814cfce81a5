//! Formula registry: the closed set of iteration formulas and lookup
//! by name.
//!
//! The renderer knows exactly four formulas, each a pure map
//! `(c, z) -> z'` over complex numbers, selected by an exact short
//! name.  The registry is a closed enumeration rather than a runtime
//! table, so a successful lookup always yields a formula that exists,
//! and a failed lookup is the `FormulaNotFound` error and nothing else.
//! The formulas themselves are floating-point maps and are applied by
//! the embedding program; the verified layer identifies which one runs.

use vstd::prelude::*;

use crate::error::RenderError;

verus! {

/// The four built-in iteration formulas, by their registered names.
#[derive(Clone, Copy, Debug, PartialEq, Eq, Structural)]
pub enum FormulaKind {
    /// `SD`: the standard quadratic map.
    SD,
    /// `R`: the reciprocal variant.
    R,
    /// `BS`: the burning-ship variant, squaring component magnitudes.
    BS,
    /// `SYM`: the symmetric (conjugate) variant.
    SYM,
}

/// Which formula, if any, a name selects.  Exactly the four registered
/// names succeed; everything else, including case variants, fails.
pub open spec fn lookup_spec(name: Seq<char>) -> Result<FormulaKind, RenderError> {
    if name == "SD"@ {
        Ok(FormulaKind::SD)
    } else if name == "R"@ {
        Ok(FormulaKind::R)
    } else if name == "BS"@ {
        Ok(FormulaKind::BS)
    } else if name == "SYM"@ {
        Ok(FormulaKind::SYM)
    } else {
        Err(RenderError::FormulaNotFound)
    }
}

/// Looks a formula up by its exact name.
pub fn lookup(name: &str) -> (found: Result<FormulaKind, RenderError>)
    ensures
        found == lookup_spec(name@),
{
    let owned: String = name.to_owned();
    if owned == "SD".to_owned() {
        Ok(FormulaKind::SD)
    } else if owned == "R".to_owned() {
        Ok(FormulaKind::R)
    } else if owned == "BS".to_owned() {
        Ok(FormulaKind::BS)
    } else if owned == "SYM".to_owned() {
        Ok(FormulaKind::SYM)
    } else {
        Err(RenderError::FormulaNotFound)
    }
}

impl FormulaKind {
    /// The registered name of this formula: `lookup` on it finds the
    /// formula again.
    pub fn name(&self) -> (text: &'static str)
        ensures
            lookup_spec(text@) == Ok::<FormulaKind, RenderError>(*self),
    {
        proof {
            reveal_strlit("SD");
            reveal_strlit("R");
            reveal_strlit("BS");
            reveal_strlit("SYM");
            assert("SD"@.len() == 2 && "R"@.len() == 1 && "BS"@.len() == 2 && "SYM"@.len() == 3);
            assert("SD"@[0] == 'S' && "BS"@[0] == 'B');
        }
        match self {
            FormulaKind::SD => "SD",
            FormulaKind::R => "R",
            FormulaKind::BS => "BS",
            FormulaKind::SYM => "SYM",
        }
    }
}

} // verus!
