//! A verified builder layer for circom-style arithmetic circuits.
//!
//! The crate takes a parsed constraint-system description and a set of
//! named, possibly multi-dimensional, field-element inputs, flattens and
//! orders those inputs deterministically, drives an external witness
//! evaluator over them, assembles the resulting circuit instance, and can
//! independently re-check that the computed assignment satisfies every
//! constraint.

pub mod bigint;
pub mod errors;
pub mod inputs;
pub mod r1cs;
pub mod builder;
