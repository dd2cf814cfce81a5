//! Escape-time fractal rendering core.
//!
//! The crate verifies the logic of a Mandelbrot/Julia-family renderer:
//! the formula registry, the coordinate mapper's exact value, the
//! escape-time iteration state machine, the iteration-count-to-color
//! mapping, and the assembly of the final RGB pixel buffer.
//! Floating-point arithmetic itself lies outside what the verifier can
//! model, so the embedding program performs the per-step complex
//! arithmetic and feeds its observations (the escape tests) back into
//! the verified state machine.

pub mod assembler;
pub mod color;
pub mod complex;
pub mod coordinate;
pub mod config;
pub mod error;
pub mod evaluator;
pub mod formula;

pub use assembler::assemble;
pub use color::colorize;
pub use color::Rgb;
pub use coordinate::map_pixel;
pub use coordinate::Coordinate;
pub use complex::Complex;
pub use config::check_config;
pub use config::interactive_config;
pub use config::RenderConfig;
pub use error::RenderError;
pub use evaluator::EvalStatus;
pub use evaluator::Evaluator;
pub use formula::FormulaKind;
