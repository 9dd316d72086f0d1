use concrete_spec::entities::{
    DecompositionBaseLog, DecompositionLevelCount, GlweDimension, LweCiphertextEntity,
    LweDimension, PolynomialSize,
};
use concrete_spec::keyswitch::{
    LweCiphertextDiscardingKeyswitchEngine, LweCiphertextDiscardingKeyswitchError,
};
use concrete_spec::markers::{
    BinaryKeyDistribution, GaussianKeyDistribution, KeyDistribution, KeyDistributionMarker,
    TernaryKeyDistribution,
};
use concrete_spec::negation::{
    LweCiphertextDiscardingNegationEngine, LweCiphertextDiscardingNegationError,
};
use concrete_spec::reference::{
    GlweCiphertext64, LweCiphertext64, LweKeyswitchKey64, ReferenceEngine, ReferenceEngineError,
};
use concrete_spec::tensor_product::GlweCiphertextTensorProductError;
use std::marker::PhantomData;

type Ct = LweCiphertext64<BinaryKeyDistribution>;
type NegError = LweCiphertextDiscardingNegationError<ReferenceEngineError>;
type KsError = LweCiphertextDiscardingKeyswitchError<ReferenceEngineError>;
type TpError = GlweCiphertextTensorProductError<ReferenceEngineError>;

fn ksk(n_in: usize, n_out: usize) -> LweKeyswitchKey64<BinaryKeyDistribution, TernaryKeyDistribution> {
    LweKeyswitchKey64::new(
        vec![0; n_in * 2 * (n_out + 1)],
        LweDimension(n_in),
        LweDimension(n_out),
        DecompositionLevelCount(2),
        DecompositionBaseLog(4),
    )
    .unwrap()
}

fn glwe(k: usize, n: usize) -> GlweCiphertext64<BinaryKeyDistribution> {
    GlweCiphertext64 {
        data: vec![0; (k + 1) * n],
        glwe_dimension: GlweDimension(k),
        polynomial_size: PolynomialSize(n),
        key_distribution: PhantomData,
    }
}

#[test]
fn markers_name_their_formula() {
    assert_eq!(BinaryKeyDistribution::formula_kind(), KeyDistribution::Binary);
    assert_eq!(TernaryKeyDistribution::formula_kind(), KeyDistribution::Ternary);
    assert_eq!(GaussianKeyDistribution::formula_kind(), KeyDistribution::Gaussian);
}

#[test]
fn negation_checks_accept_equal_dimensions() {
    let input = Ct::zero(4);
    let output = Ct::zero(4);
    assert!(NegError::perform_generic_checks(&output, &input).is_ok());
}

#[test]
fn negation_checks_reject_different_dimensions() {
    let input = Ct::zero(4);
    let output = Ct::zero(5);
    let e = NegError::perform_generic_checks(&output, &input).unwrap_err();
    assert!(matches!(e, NegError::LweDimensionMismatch));
    assert_eq!(e.message(), Some("The input and output LWE dimension must be the same."));
}

#[test]
fn checked_negation_writes_what_unchecked_writes() {
    let mut engine = ReferenceEngine;
    let input = Ct::from_parts(vec![1, 2, u64::MAX, 0], 7);
    let mut checked = Ct::zero(4);
    let mut unchecked = Ct::from_parts(vec![9, 9, 9, 9], 9);
    engine.discard_neg_lwe_ciphertext(&mut checked, &input).unwrap();
    engine.discard_neg_lwe_ciphertext_unchecked(&mut unchecked, &input);
    assert_eq!(checked.mask, vec![u64::MAX, u64::MAX - 1, 1, 0]);
    assert_eq!(checked.body, u64::MAX - 6);
    assert_eq!(checked.mask, unchecked.mask);
    assert_eq!(checked.body, unchecked.body);
    assert_eq!(checked.lwe_dimension(), LweDimension(4));
}

#[test]
fn checked_negation_leaves_output_on_mismatch() {
    let mut engine = ReferenceEngine;
    let input = Ct::from_parts(vec![1, 2, 3], 7);
    let mut output = Ct::from_parts(vec![5, 6], 8);
    let r = engine.discard_neg_lwe_ciphertext(&mut output, &input);
    assert!(matches!(r, Err(NegError::LweDimensionMismatch)));
    assert_eq!(output.mask, vec![5, 6]);
    assert_eq!(output.body, 8);
}

#[test]
fn double_negation_decrypts_to_the_original() {
    let mut engine = ReferenceEngine;
    let key = vec![1u64, 0, 1, 1];
    let input = Ct::from_parts(vec![3, u64::MAX, 1 << 40, 12345], (5u64 << 59).wrapping_add(17));
    let mut once = Ct::zero(4);
    let mut twice = Ct::zero(4);
    engine.discard_neg_lwe_ciphertext(&mut once, &input).unwrap();
    engine.discard_neg_lwe_ciphertext(&mut twice, &once).unwrap();
    assert_eq!(twice.mask, input.mask);
    assert_eq!(twice.body, input.body);
    assert_eq!(twice.decrypt(&key), input.decrypt(&key));
    assert_eq!(once.decrypt(&key), 0u64.wrapping_sub(input.decrypt(&key)));
}

#[test]
fn decrypt_subtracts_the_mask_key_product() {
    // 10 - (2 * 1 + 3 * 0 + 4 * 1) = 4
    let ct = Ct::from_parts(vec![2, 3, 4], 10);
    assert_eq!(ct.decrypt(&vec![1, 0, 1]), 4);
    // 1 - 2 wraps round
    let ct = Ct::from_parts(vec![2], 1);
    assert_eq!(ct.decrypt(&vec![1]), u64::MAX);
}

#[test]
fn keyswitch_checks_accept_fitting_dimensions() {
    let input = Ct::zero(6);
    let output = LweCiphertext64::<TernaryKeyDistribution>::zero(3);
    assert!(KsError::perform_generic_checks(&output, &input, &ksk(6, 3)).is_ok());
}

#[test]
fn keyswitch_checks_report_input_mismatch_first() {
    let input = Ct::zero(5);
    let output = LweCiphertext64::<TernaryKeyDistribution>::zero(4);
    let e = KsError::perform_generic_checks(&output, &input, &ksk(6, 3)).unwrap_err();
    assert!(matches!(e, KsError::InputLweDimensionMismatch));
    assert_eq!(
        e.message(),
        Some("The input ciphertext LWE dimension and keyswitch key input LWE dimensions must be the same.")
    );
}

#[test]
fn keyswitch_checks_report_output_mismatch() {
    let input = Ct::zero(6);
    let output = LweCiphertext64::<TernaryKeyDistribution>::zero(4);
    let e = KsError::perform_generic_checks(&output, &input, &ksk(6, 3)).unwrap_err();
    assert!(matches!(e, KsError::OutputLweDimensionMismatch));
    assert_eq!(
        e.message(),
        Some("The output ciphertext LWE dimension and keyswitch output LWE dimensions must be the same.")
    );
}

#[test]
fn backend_errors_carry_no_fixed_message() {
    assert_eq!(NegError::Engine(ReferenceEngineError).message(), None);
    assert_eq!(KsError::Engine(ReferenceEngineError).message(), None);
    assert_eq!(TpError::Engine(ReferenceEngineError).message(), None);
}

#[test]
fn tensor_product_checks() {
    assert!(TpError::perform_generic_checks(&glwe(1, 256), &glwe(1, 256)).is_ok());
    let e = TpError::perform_generic_checks(&glwe(2, 256), &glwe(1, 512)).unwrap_err();
    assert!(matches!(e, TpError::PolynomialSizeMismatch));
    assert_eq!(e.message(), Some("The input ciphertexts polynomial sizes must be the same."));
    let e = TpError::perform_generic_checks(&glwe(2, 256), &glwe(1, 256)).unwrap_err();
    assert!(matches!(e, TpError::GlweDimensionMismatch));
    assert_eq!(e.message(), Some("The input ciphertexts GLWE dimensions must be the same."));
}

type OutCt = LweCiphertext64<TernaryKeyDistribution>;
type Ksk = LweKeyswitchKey64<BinaryKeyDistribution, TernaryKeyDistribution>;

fn key(data: Vec<u64>, n_in: usize, n_out: usize, levels: usize, base_log: usize) -> Option<Ksk> {
    Ksk::new(
        data,
        LweDimension(n_in),
        LweDimension(n_out),
        DecompositionLevelCount(levels),
        DecompositionBaseLog(base_log),
    )
}

#[test]
fn keyswitch_keys_must_fit_their_parameters() {
    assert!(key(vec![0; 12], 3, 1, 2, 4).is_some());
    assert!(key(vec![0; 11], 3, 1, 2, 4).is_none());
    assert!(key(vec![0; 12], 3, 1, 2, 0).is_none());
    assert!(key(vec![0; 12], 3, 1, 0, 4).is_none());
    assert!(key(vec![0; 12], 3, 1, 2, 32).is_none());
    assert!(key(vec![0; 6], 3, 1, 1, 63).is_some());
    assert!(key(vec![], 0, usize::MAX, 1, 1).is_some());
}

#[test]
fn keyswitch_subtracts_one_level_digit_products() {
    let mut engine = ReferenceEngine;
    // one level of 4 bits: 3 * 2^60 decomposes to the digit 3
    let ksk = key(vec![5, 7], 1, 1, 1, 4).unwrap();
    let input = Ct::from_parts(vec![3 << 60], 100);
    let mut output = OutCt::from_parts(vec![42], 42);
    engine.discard_keyswitch_lwe_ciphertext(&mut output, &input, &ksk).unwrap();
    assert_eq!(output.mask, vec![0u64.wrapping_sub(15)]);
    assert_eq!(output.body, 79);
}

#[test]
fn keyswitch_rounds_to_the_closest_representable_value() {
    let mut engine = ReferenceEngine;
    let ksk = key(vec![1, 1], 1, 1, 1, 4).unwrap();
    // 2.5 * 2^60 rounds up to 3 * 2^60
    let input = Ct::from_parts(vec![(2 << 60) + (1 << 59)], 10);
    let mut output = OutCt::zero(1);
    engine.discard_keyswitch_lwe_ciphertext(&mut output, &input, &ksk).unwrap();
    assert_eq!(output.body, 7);
    // values just under 2^64 round to 0
    let input = Ct::from_parts(vec![u64::MAX], 10);
    engine.discard_keyswitch_lwe_ciphertext(&mut output, &input, &ksk).unwrap();
    assert_eq!(output.mask, vec![0]);
    assert_eq!(output.body, 10);
}

#[test]
fn keyswitch_uses_every_level() {
    let mut engine = ReferenceEngine;
    // two levels of 2 bits: 11 * 2^60 has digits 2 and 3
    let ksk = key(vec![1, 10, 100, 1000], 1, 1, 2, 2).unwrap();
    let input = Ct::from_parts(vec![11 << 60], 5000);
    let mut checked = OutCt::zero(1);
    let mut unchecked = OutCt::from_parts(vec![9], 9);
    engine.discard_keyswitch_lwe_ciphertext(&mut checked, &input, &ksk).unwrap();
    engine.discard_keyswitch_lwe_ciphertext_unchecked(&mut unchecked, &input, &ksk);
    assert_eq!(checked.mask, vec![0u64.wrapping_sub(302)]);
    assert_eq!(checked.body, 5000 - 3020);
    assert_eq!(checked.mask, unchecked.mask);
    assert_eq!(checked.body, unchecked.body);
}

#[test]
fn keyswitch_keeps_the_phase_of_representable_masks() {
    let mut engine = ReferenceEngine;
    // trivial encryptions of s_in[i] * 2^(64 - 2 (j + 1)), for s_in = (1, 0, 1)
    let mut data = Vec::new();
    for s in [1u64, 0, 1] {
        for j in 0..2u32 {
            data.extend_from_slice(&[0, 0, s << (64 - 2 * (j + 1))]);
        }
    }
    let ksk = key(data, 3, 2, 2, 2).unwrap();
    let input = Ct::from_parts(vec![11 << 60, 7 << 60, 6 << 60], (5 << 60) + 123);
    let mut output = OutCt::zero(2);
    engine.discard_keyswitch_lwe_ciphertext(&mut output, &input, &ksk).unwrap();
    assert_eq!(output.decrypt(&vec![1, 1]), input.decrypt(&vec![1, 0, 1]));
}

#[test]
fn checked_keyswitch_leaves_output_on_mismatch() {
    let mut engine = ReferenceEngine;
    let ksk = key(vec![0; 4], 1, 1, 2, 2).unwrap();
    let input = Ct::from_parts(vec![1, 2], 3);
    let mut output = OutCt::from_parts(vec![4], 5);
    let r = engine.discard_keyswitch_lwe_ciphertext(&mut output, &input, &ksk);
    assert!(matches!(r, Err(KsError::InputLweDimensionMismatch)));
    let input = Ct::from_parts(vec![1], 3);
    let mut output = OutCt::from_parts(vec![4, 6], 5);
    let r = engine.discard_keyswitch_lwe_ciphertext(&mut output, &input, &ksk);
    assert!(matches!(r, Err(KsError::OutputLweDimensionMismatch)));
    assert_eq!(output.mask, vec![4, 6]);
    assert_eq!(output.body, 5);
}
