//! Discarding keyswitch of LWE ciphertexts.
use crate::engines::AbstractEngine;
use crate::entities::{LweCiphertextEntity, LweKeyswitchKeyEntity};
use vstd::prelude::*;

verus! {

/// What can go wrong in a discarding LWE keyswitch.
#[derive(Debug)]
pub enum LweCiphertextDiscardingKeyswitchError<EngineError> {
    /// The input ciphertext and the key's input LWE dimensions differ.
    InputLweDimensionMismatch,
    /// The output ciphertext and the key's output LWE dimensions differ.
    OutputLweDimensionMismatch,
    /// The backend failed; its error is handed on as it came.
    Engine(EngineError),
}

/// Whether `input`, `output` and `ksk` fit together: the input ciphertext has the
/// key's input dimension and the output ciphertext the key's output dimension.
pub open spec fn keyswitch_dimensions_match<KeyswitchKey, InputCiphertext, OutputCiphertext>(
    output: OutputCiphertext,
    input: InputCiphertext,
    ksk: KeyswitchKey,
) -> bool where
    KeyswitchKey: LweKeyswitchKeyEntity,
    InputCiphertext: LweCiphertextEntity,
    OutputCiphertext: LweCiphertextEntity,
 {
    &&& input.spec_lwe_dimension() == ksk.spec_input_lwe_dimension()
    &&& output.spec_lwe_dimension() == ksk.spec_output_lwe_dimension()
}

impl<EngineError> LweCiphertextDiscardingKeyswitchError<EngineError> {
    /// The fixed message of a named kind; `None` for a backend error.
    pub fn message(&self) -> (r: Option<&'static str>)
        ensures
            (self is Engine) == (r is None),
            self is InputLweDimensionMismatch ==> r->0@
                == "The input ciphertext LWE dimension and keyswitch key input LWE dimensions must be the same."@,
            self is OutputLweDimensionMismatch ==> r->0@
                == "The output ciphertext LWE dimension and keyswitch output LWE dimensions must be the same."@,
    {
        match self {
            LweCiphertextDiscardingKeyswitchError::InputLweDimensionMismatch => {
                let m =
                    "The input ciphertext LWE dimension and keyswitch key input LWE dimensions must be the same.";
                proof {
                    reveal_strlit(
                        "The input ciphertext LWE dimension and keyswitch key input LWE dimensions must be the same.",
                    );
                }
                Some(m)
            },
            LweCiphertextDiscardingKeyswitchError::OutputLweDimensionMismatch => {
                let m =
                    "The output ciphertext LWE dimension and keyswitch output LWE dimensions must be the same.";
                proof {
                    reveal_strlit(
                        "The output ciphertext LWE dimension and keyswitch output LWE dimensions must be the same.",
                    );
                }
                Some(m)
            },
            LweCiphertextDiscardingKeyswitchError::Engine(_) => None,
        }
    }

    /// Validates the inputs of a keyswitch of `input` into `output` with `ksk`.
    ///
    /// The input side is checked first, so a pair of mismatches reports the input one.
    pub fn perform_generic_checks<KeyswitchKey, InputCiphertext, OutputCiphertext>(
        output: &OutputCiphertext,
        input: &InputCiphertext,
        ksk: &KeyswitchKey,
    ) -> (r: Result<(), Self>) where
        KeyswitchKey: LweKeyswitchKeyEntity,
        InputCiphertext: LweCiphertextEntity<KeyDistribution = KeyswitchKey::InputKeyDistribution>,
        OutputCiphertext: LweCiphertextEntity<KeyDistribution = KeyswitchKey::OutputKeyDistribution>,

        ensures
            r is Ok <==> keyswitch_dimensions_match(*output, *input, *ksk),
            input.spec_lwe_dimension() != ksk.spec_input_lwe_dimension() ==> r is Err
                && r->Err_0 is InputLweDimensionMismatch,
            input.spec_lwe_dimension() == ksk.spec_input_lwe_dimension()
                && output.spec_lwe_dimension() != ksk.spec_output_lwe_dimension() ==> r is Err
                && r->Err_0 is OutputLweDimensionMismatch,
    {
        if input.lwe_dimension() != ksk.input_lwe_dimension() {
            return Err(LweCiphertextDiscardingKeyswitchError::InputLweDimensionMismatch);
        }
        if output.lwe_dimension() != ksk.output_lwe_dimension() {
            return Err(LweCiphertextDiscardingKeyswitchError::OutputLweDimensionMismatch);
        }
        Ok(())
    }
}

/// An engine that keyswitches an LWE ciphertext into an existing output ciphertext.
///
/// The output starts as `(0, ..., 0, b_in)` and has subtracted from it, for each
/// input mask coefficient, the decomposed product of that coefficient with the
/// matching row of `ksk`. `keyswitches` is the backend's statement of that relation.
pub trait LweCiphertextDiscardingKeyswitchEngine<KeyswitchKey, InputCiphertext, OutputCiphertext>: AbstractEngine where
    KeyswitchKey: LweKeyswitchKeyEntity,
    InputCiphertext: LweCiphertextEntity<KeyDistribution = KeyswitchKey::InputKeyDistribution>,
    OutputCiphertext: LweCiphertextEntity<KeyDistribution = KeyswitchKey::OutputKeyDistribution>,
 {
    /// Whether `output` holds the keyswitch of `input` with `ksk`.
    spec fn keyswitches(
        &self,
        input: InputCiphertext,
        ksk: KeyswitchKey,
        output: OutputCiphertext,
    ) -> bool;

    /// Keyswitches `input` into `output` with `ksk`, after checking the dimensions.
    ///
    /// When they fit this never fails and writes what the unchecked entry point
    /// writes; otherwise it returns the first mismatch, input side first, and leaves
    /// `output` as it was.
    fn discard_keyswitch_lwe_ciphertext(
        &mut self,
        output: &mut OutputCiphertext,
        input: &InputCiphertext,
        ksk: &KeyswitchKey,
    ) -> (r: Result<(), LweCiphertextDiscardingKeyswitchError<Self::EngineError>>)
        ensures
            keyswitch_dimensions_match(*old(output), *input, *ksk) ==> {
                &&& r is Ok
                &&& old(self).keyswitches(*input, *ksk, *final(output))
                &&& final(output).spec_lwe_dimension() == old(output).spec_lwe_dimension()
            },
            !keyswitch_dimensions_match(*old(output), *input, *ksk) ==> {
                &&& r is Err
                &&& *final(output) == *old(output)
            },
            input.spec_lwe_dimension() != ksk.spec_input_lwe_dimension() ==> r is Err
                && r->Err_0 is InputLweDimensionMismatch,
            input.spec_lwe_dimension() == ksk.spec_input_lwe_dimension()
                && old(output).spec_lwe_dimension() != ksk.spec_output_lwe_dimension() ==> r is Err
                && r->Err_0 is OutputLweDimensionMismatch,
    {
        match LweCiphertextDiscardingKeyswitchError::perform_generic_checks(output, input, ksk) {
            Err(e) => Err(e),
            Ok(()) => {
                self.discard_keyswitch_lwe_ciphertext_unchecked(output, input, ksk);
                Ok(())
            },
        }
    }

    /// Keyswitches `input` into `output` with `ksk` without checking anything: the
    /// caller guarantees that the dimensions fit.
    fn discard_keyswitch_lwe_ciphertext_unchecked(
        &mut self,
        output: &mut OutputCiphertext,
        input: &InputCiphertext,
        ksk: &KeyswitchKey,
    )
        requires
            keyswitch_dimensions_match(*old(output), *input, *ksk),
        ensures
            old(self).keyswitches(*input, *ksk, *final(output)),
            final(output).spec_lwe_dimension() == old(output).spec_lwe_dimension(),
    ;
}

} // verus!
