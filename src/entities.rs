//! Structural parameters and the capability interfaces of entities.
use crate::markers::KeyDistributionMarker;
use vstd::prelude::*;

verus! {

/// The number of mask coefficients of an LWE ciphertext or key.
#[derive(Clone, Copy, Debug, PartialEq, Eq, Structural)]
pub struct LweDimension(pub usize);

/// The number of mask polynomials of a GLWE ciphertext or key.
#[derive(Clone, Copy, Debug, PartialEq, Eq, Structural)]
pub struct GlweDimension(pub usize);

/// The number of coefficients of the polynomials of a GLWE or GGSW entity.
#[derive(Clone, Copy, Debug, PartialEq, Eq, Structural)]
pub struct PolynomialSize(pub usize);

/// The number of levels of a gadget decomposition.
#[derive(Clone, Copy, Debug, PartialEq, Eq, Structural)]
pub struct DecompositionLevelCount(pub usize);

/// The logarithm of the base of a gadget decomposition.
#[derive(Clone, Copy, Debug, PartialEq, Eq, Structural)]
pub struct DecompositionBaseLog(pub usize);

/// An LWE ciphertext: it exposes its dimension and, as a type, its key distribution.
pub trait LweCiphertextEntity {
    type KeyDistribution: KeyDistributionMarker;

    spec fn spec_lwe_dimension(&self) -> LweDimension;

    fn lwe_dimension(&self) -> (r: LweDimension)
        ensures
            r == self.spec_lwe_dimension(),
    ;
}

/// An LWE keyswitch key, from ciphertexts under one key to ciphertexts under another.
pub trait LweKeyswitchKeyEntity {
    type InputKeyDistribution: KeyDistributionMarker;

    type OutputKeyDistribution: KeyDistributionMarker;

    spec fn spec_input_lwe_dimension(&self) -> LweDimension;

    spec fn spec_output_lwe_dimension(&self) -> LweDimension;

    fn input_lwe_dimension(&self) -> (r: LweDimension)
        ensures
            r == self.spec_input_lwe_dimension(),
    ;

    fn output_lwe_dimension(&self) -> (r: LweDimension)
        ensures
            r == self.spec_output_lwe_dimension(),
    ;
}

/// A GLWE ciphertext: a vector of polynomials.
pub trait GlweCiphertextEntity {
    type KeyDistribution: KeyDistributionMarker;

    spec fn spec_glwe_dimension(&self) -> GlweDimension;

    spec fn spec_polynomial_size(&self) -> PolynomialSize;

    fn glwe_dimension(&self) -> (r: GlweDimension)
        ensures
            r == self.spec_glwe_dimension(),
    ;

    fn polynomial_size(&self) -> (r: PolynomialSize)
        ensures
            r == self.spec_polynomial_size(),
    ;
}

/// A GGSW ciphertext: a matrix of polynomials, one block per decomposition level.
pub trait GgswCiphertextEntity {
    type KeyDistribution: KeyDistributionMarker;

    spec fn spec_glwe_dimension(&self) -> GlweDimension;

    spec fn spec_polynomial_size(&self) -> PolynomialSize;

    spec fn spec_decomposition_level_count(&self) -> DecompositionLevelCount;

    spec fn spec_decomposition_base_log(&self) -> DecompositionBaseLog;

    fn glwe_dimension(&self) -> (r: GlweDimension)
        ensures
            r == self.spec_glwe_dimension(),
    ;

    fn polynomial_size(&self) -> (r: PolynomialSize)
        ensures
            r == self.spec_polynomial_size(),
    ;

    fn decomposition_level_count(&self) -> (r: DecompositionLevelCount)
        ensures
            r == self.spec_decomposition_level_count(),
    ;

    fn decomposition_base_log(&self) -> (r: DecompositionBaseLog)
        ensures
            r == self.spec_decomposition_base_log(),
    ;
}

/// A cleartext: a scalar that multiplies ciphertexts.
pub trait CleartextEntity {
}

} // verus!
