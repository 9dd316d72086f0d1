//! Discarding negation of LWE ciphertexts.
use crate::engines::AbstractEngine;
use crate::entities::LweCiphertextEntity;
use vstd::prelude::*;

verus! {

/// What can go wrong in a discarding LWE negation.
#[derive(Debug)]
pub enum LweCiphertextDiscardingNegationError<EngineError> {
    /// The input and output LWE dimensions differ.
    LweDimensionMismatch,
    /// The backend failed; its error is handed on as it came.
    Engine(EngineError),
}

impl<EngineError> LweCiphertextDiscardingNegationError<EngineError> {
    /// The fixed message of a named kind; `None` for a backend error.
    pub fn message(&self) -> (r: Option<&'static str>)
        ensures
            (self is LweDimensionMismatch) == (r is Some),
            r is Some ==> r->0@ == "The input and output LWE dimension must be the same."@,
    {
        match self {
            LweCiphertextDiscardingNegationError::LweDimensionMismatch => {
                let m = "The input and output LWE dimension must be the same.";
                proof {
                    reveal_strlit("The input and output LWE dimension must be the same.");
                }
                Some(m)
            },
            LweCiphertextDiscardingNegationError::Engine(_) => None,
        }
    }

    /// Validates the inputs of a negation of `input` into `output`.
    pub fn perform_generic_checks<InputCiphertext, OutputCiphertext>(
        output: &OutputCiphertext,
        input: &InputCiphertext,
    ) -> (r: Result<(), Self>) where
        InputCiphertext: LweCiphertextEntity,
        OutputCiphertext: LweCiphertextEntity<KeyDistribution = InputCiphertext::KeyDistribution>,

        ensures
            r is Ok <==> input.spec_lwe_dimension() == output.spec_lwe_dimension(),
            r is Err ==> r->Err_0 is LweDimensionMismatch,
    {
        if input.lwe_dimension() != output.lwe_dimension() {
            return Err(LweCiphertextDiscardingNegationError::LweDimensionMismatch);
        }
        Ok(())
    }
}

/// An engine that negates an LWE ciphertext into an existing output ciphertext.
///
/// The output is `-input`: every mask coefficient and the body are negated in the
/// ciphertext's ring. `negates` is the backend's statement of that relation.
pub trait LweCiphertextDiscardingNegationEngine<InputCiphertext, OutputCiphertext>: AbstractEngine where
    InputCiphertext: LweCiphertextEntity,
    OutputCiphertext: LweCiphertextEntity<KeyDistribution = InputCiphertext::KeyDistribution>,
 {
    /// Whether `output` holds the negation of `input`.
    spec fn negates(&self, input: InputCiphertext, output: OutputCiphertext) -> bool;

    /// Negates `input` into `output`, after checking that their dimensions agree.
    ///
    /// On matching dimensions this never fails and writes what the unchecked entry
    /// point writes; otherwise it returns `LweDimensionMismatch` and leaves `output`
    /// as it was.
    fn discard_neg_lwe_ciphertext(
        &mut self,
        output: &mut OutputCiphertext,
        input: &InputCiphertext,
    ) -> (r: Result<(), LweCiphertextDiscardingNegationError<Self::EngineError>>)
        ensures
            input.spec_lwe_dimension() == old(output).spec_lwe_dimension() ==> {
                &&& r is Ok
                &&& old(self).negates(*input, *final(output))
                &&& final(output).spec_lwe_dimension() == old(output).spec_lwe_dimension()
            },
            input.spec_lwe_dimension() != old(output).spec_lwe_dimension() ==> {
                &&& r is Err
                &&& r->Err_0 is LweDimensionMismatch
                &&& *final(output) == *old(output)
            },
    {
        match LweCiphertextDiscardingNegationError::perform_generic_checks(output, input) {
            Err(e) => Err(e),
            Ok(()) => {
                self.discard_neg_lwe_ciphertext_unchecked(output, input);
                Ok(())
            },
        }
    }

    /// Negates `input` into `output` without checking anything: the caller
    /// guarantees that the two dimensions agree.
    fn discard_neg_lwe_ciphertext_unchecked(
        &mut self,
        output: &mut OutputCiphertext,
        input: &InputCiphertext,
    )
        requires
            input.spec_lwe_dimension() == old(output).spec_lwe_dimension(),
        ensures
            old(self).negates(*input, *final(output)),
            final(output).spec_lwe_dimension() == old(output).spec_lwe_dimension(),
    ;
}

} // verus!
