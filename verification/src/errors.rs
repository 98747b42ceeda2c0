//! Failure cases the builder layer reports to its callers.

use vstd::prelude::*;

verus! {

/// Failure of the narrow convenience constructor of [`crate::inputs::Inputs`].
#[derive(Debug, Clone, Copy, PartialEq, Eq)]
pub enum InputConstructionError {
    /// No variant can be inferred from zero elements.
    Empty,
    /// The convenience path accepts at most two elements; larger flat
    /// inputs must use the vector or matrix constructors directly.
    TooManyElements,
}

/// Failure of [`crate::builder::CircomBuilder::build`].
#[derive(Debug, Clone, PartialEq, Eq)]
pub enum BuildError {
    /// The witness evaluator could not produce a usable assignment; its
    /// diagnostic is passed on verbatim.
    WitnessComputation(String),
    /// The optional self-check found the computed assignment violating a
    /// constraint; the payload is the index of the first one unsatisfied.
    /// This marks an internal-consistency fault, not bad user input.
    SanityCheckFailure(usize),
}

} // verus!
