//! Validation of a CPU's hardware random-number instruction.
//!
//! The library decides whether the processor exposes the instruction at
//! all, and whether repeated draws look consistent with a working entropy
//! source: no stuck (consecutively repeating) output, and duplicate draws
//! accounted for over a finite sample. The hardware draws themselves are
//! performed by the caller, which hands each drawn value to the engine —
//! the algorithms here are verified over the full draw history.

use vstd::prelude::*;

mod error;
mod generator;
mod outcome;
mod render;
mod smoke;
mod survey;
mod tester;
mod width;

pub use crate::error::Error;
pub use crate::generator::Generator;
pub use crate::generator::GeneratorOptions;
pub use crate::outcome::ValidationOutcome;
pub use crate::render::render_decimal;
pub use crate::render::render_hex;
pub use crate::smoke::SmokeTest;
pub use crate::survey::Survey;
pub use crate::tester::rdrand_supported;
pub use crate::tester::Tester;
pub use crate::tester::TesterOptions;
pub use crate::width::WordWidth;

verus! {

} // verus!
