//! Tensor product of GLWE ciphertexts.
use crate::engines::AbstractEngine;
use crate::entities::{CleartextEntity, GlweCiphertextEntity};
use vstd::prelude::*;

verus! {

/// What can go wrong in a GLWE tensor product.
#[derive(Debug)]
pub enum GlweCiphertextTensorProductError<EngineError> {
    /// The two input ciphertexts have different polynomial sizes.
    PolynomialSizeMismatch,
    /// The two input ciphertexts have different GLWE dimensions.
    GlweDimensionMismatch,
    /// The backend failed; its error is handed on as it came.
    Engine(EngineError),
}

/// Whether two GLWE ciphertexts share their structural parameters.
pub open spec fn glwe_shapes_match<C1: GlweCiphertextEntity, C2: GlweCiphertextEntity>(
    input1: C1,
    input2: C2,
) -> bool {
    &&& input1.spec_polynomial_size() == input2.spec_polynomial_size()
    &&& input1.spec_glwe_dimension() == input2.spec_glwe_dimension()
}

impl<EngineError> GlweCiphertextTensorProductError<EngineError> {
    /// The fixed message of a named kind; `None` for a backend error.
    pub fn message(&self) -> (r: Option<&'static str>)
        ensures
            (self is Engine) == (r is None),
            self is PolynomialSizeMismatch ==> r->0@
                == "The input ciphertexts polynomial sizes must be the same."@,
            self is GlweDimensionMismatch ==> r->0@
                == "The input ciphertexts GLWE dimensions must be the same."@,
    {
        match self {
            GlweCiphertextTensorProductError::PolynomialSizeMismatch => {
                let m = "The input ciphertexts polynomial sizes must be the same.";
                proof {
                    reveal_strlit("The input ciphertexts polynomial sizes must be the same.");
                }
                Some(m)
            },
            GlweCiphertextTensorProductError::GlweDimensionMismatch => {
                let m = "The input ciphertexts GLWE dimensions must be the same.";
                proof {
                    reveal_strlit("The input ciphertexts GLWE dimensions must be the same.");
                }
                Some(m)
            },
            GlweCiphertextTensorProductError::Engine(_) => None,
        }
    }

    /// Validates the inputs of a tensor product of `input1` and `input2`.
    pub fn perform_generic_checks<CiphertextIn1, CiphertextIn2>(
        input1: &CiphertextIn1,
        input2: &CiphertextIn2,
    ) -> (r: Result<(), Self>) where
        CiphertextIn1: GlweCiphertextEntity,
        CiphertextIn2: GlweCiphertextEntity<KeyDistribution = CiphertextIn1::KeyDistribution>,

        ensures
            r is Ok <==> glwe_shapes_match(*input1, *input2),
            input1.spec_polynomial_size() != input2.spec_polynomial_size() ==> r is Err
                && r->Err_0 is PolynomialSizeMismatch,
            input1.spec_polynomial_size() == input2.spec_polynomial_size()
                && input1.spec_glwe_dimension() != input2.spec_glwe_dimension() ==> r is Err
                && r->Err_0 is GlweDimensionMismatch,
    {
        if input1.polynomial_size() != input2.polynomial_size() {
            return Err(GlweCiphertextTensorProductError::PolynomialSizeMismatch);
        }
        if input1.glwe_dimension() != input2.glwe_dimension() {
            return Err(GlweCiphertextTensorProductError::GlweDimensionMismatch);
        }
        Ok(())
    }
}

/// An engine that computes the tensor product of two GLWE ciphertexts into a fresh
/// one, whose message is the product of the two input messages, scaled.
pub trait GlweCiphertextTensorProductEngine<CiphertextIn1, CiphertextIn2, CiphertextOut, Cleartext>: AbstractEngine where
    CiphertextIn1: GlweCiphertextEntity,
    CiphertextIn2: GlweCiphertextEntity<KeyDistribution = CiphertextIn1::KeyDistribution>,
    CiphertextOut: GlweCiphertextEntity<KeyDistribution = CiphertextIn1::KeyDistribution>,
    Cleartext: CleartextEntity,
 {
    /// Whether `output` holds the tensor product of `input1` and `input2` under `scale`.
    spec fn tensor_product_of(
        &self,
        input1: CiphertextIn1,
        input2: CiphertextIn2,
        scale: Cleartext,
        output: CiphertextOut,
    ) -> bool;

    /// The tensor product of `input1` and `input2`, after checking their shapes.
    ///
    /// On matching shapes this never fails; otherwise it returns the first
    /// mismatch, polynomial size first.
    fn tensor_product_glwe_ciphertext(
        &mut self,
        input1: &CiphertextIn1,
        input2: &CiphertextIn2,
        scale: &Cleartext,
    ) -> (r: Result<CiphertextOut, GlweCiphertextTensorProductError<Self::EngineError>>)
        ensures
            glwe_shapes_match(*input1, *input2) ==> {
                &&& r is Ok
                &&& old(self).tensor_product_of(*input1, *input2, *scale, r->Ok_0)
            },
            input1.spec_polynomial_size() != input2.spec_polynomial_size() ==> r is Err
                && r->Err_0 is PolynomialSizeMismatch,
            input1.spec_polynomial_size() == input2.spec_polynomial_size()
                && input1.spec_glwe_dimension() != input2.spec_glwe_dimension() ==> r is Err
                && r->Err_0 is GlweDimensionMismatch,
    {
        match GlweCiphertextTensorProductError::perform_generic_checks(input1, input2) {
            Err(e) => Err(e),
            Ok(()) => Ok(self.tensor_product_glwe_ciphertext_unchecked(input1, input2, scale)),
        }
    }

    /// The tensor product of `input1` and `input2`, without checking anything: the
    /// caller guarantees that their shapes match.
    fn tensor_product_glwe_ciphertext_unchecked(
        &mut self,
        input1: &CiphertextIn1,
        input2: &CiphertextIn2,
        scale: &Cleartext,
    ) -> (r: CiphertextOut)
        requires
            glwe_shapes_match(*input1, *input2),
        ensures
            old(self).tensor_product_of(*input1, *input2, *scale, r),
    ;
}

} // verus!
