//! A constraint compiler for Bulletproofs-style rank-1 constraint systems:
//! Pedersen commitments, linear-combination expressions, and boolean
//! constraint trees that are lowered to multiplication gates and linear
//! constraints.

pub mod bit_range;
pub mod circuit;
pub mod commitment;
pub mod constraint;
pub mod expression;
pub mod laws;
pub mod linear;
pub mod scalar;
