//! Operation contracts for homomorphic engines on LWE / GLWE / GGSW entities,
//! the prototype layer that a statistical fixture drives them through, and the
//! integer parts of that fixture's oracle.

pub mod markers;
pub mod entities;
pub mod engines;
pub mod negation;
pub mod keyswitch;
pub mod reference;
pub mod prototypes;
pub mod prototyping;
pub mod synthesizing;
pub mod tensor_product;
pub mod fixture;
