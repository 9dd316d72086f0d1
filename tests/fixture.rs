use concrete_spec::fixture::GlweCiphertextTensorProductFixture;

#[test]
fn expected_plaintext_wraps_negacyclically() {
    // (1 + 2X)(3 + 4X) = 3 + 10X + 8X^2 = -5 + 10X in Z[X]/(X^2 + 1)
    let r = GlweCiphertextTensorProductFixture::expected_plaintext(&vec![1, 2], &vec![3, 4]);
    assert_eq!(r, vec![0u64.wrapping_sub(5), 10]);
}

#[test]
fn expected_plaintext_of_constant_polynomials() {
    let r = GlweCiphertextTensorProductFixture::expected_plaintext(&vec![7, 0, 0], &vec![5, 6, 1]);
    assert_eq!(r, vec![35, 42, 7]);
}

#[test]
fn expected_plaintext_multiplies_modulo_two_to_the_64() {
    let a = vec![1u64 << 60, 0];
    let b = vec![32u64, 0];
    let r = GlweCiphertextTensorProductFixture::expected_plaintext(&a, &b);
    assert_eq!(r, vec![0, 0]);
    let r = GlweCiphertextTensorProductFixture::expected_plaintext(&vec![0, 1 << 62], &vec![0, 3]);
    // X * X = -1, 3 * 2^62 = -2^62 modulo 2^64, so -(3 * 2^62) = 2^62
    assert_eq!(r, vec![1u64 << 62, 0]);
}

#[test]
fn expected_plaintext_of_empty_polynomials() {
    let r = GlweCiphertextTensorProductFixture::expected_plaintext(&vec![], &vec![]);
    assert!(r.is_empty());
}

#[test]
fn outcomes_are_concatenated_in_sample_order() {
    let outcomes = vec![(vec![1, 2], vec![3, 4]), (vec![], vec![5]), (vec![6], vec![])];
    let (expected, actual) = GlweCiphertextTensorProductFixture::collect_outcomes(&outcomes);
    assert_eq!(expected, vec![1, 2, 6]);
    assert_eq!(actual, vec![3, 4, 5]);
}
