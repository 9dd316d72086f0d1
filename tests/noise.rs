use concrete_commons::dispersion::{DispersionParameter, Variance};
use concrete_commons::key_kinds::BinaryKeyKind;
use concrete_commons::parameters::{GlweDimension, PolynomialSize};
use concrete_spec::fixture::GlweCiphertextTensorProductFixture;
use concrete_spec::markers::{BinaryKeyDistribution, KeyDistribution, KeyDistributionMarker};

fn predicted(glwe_dimension: usize, polynomial_size: usize) -> f64 {
    assert_eq!(BinaryKeyDistribution::formula_kind(), KeyDistribution::Binary);
    concrete_npe::estimate_tensor_product_noise::<u64, _, _, BinaryKeyKind>(
        PolynomialSize(polynomial_size),
        GlweDimension(glwe_dimension),
        Variance(0.00000001),
        Variance(0.00000001),
        16.,
        16.,
        4.,
        4.,
    )
    .get_variance()
}

#[test]
fn predicted_variance_differs_between_glwe_dimensions() {
    let small = predicted(1, 256);
    let large = predicted(200, 256);
    assert!(small.is_finite() && large.is_finite());
    assert!(large > small);
}

#[test]
fn predicted_variance_grows_with_polynomial_size() {
    assert!(predicted(1, 512) > predicted(1, 256));
}

#[test]
fn plaintexts_keep_their_five_top_bits() {
    let r = GlweCiphertextTensorProductFixture::most_significant_bits(&vec![u64::MAX, 0, 1 << 59, (1 << 59) - 1], 5);
    assert_eq!(r, vec![0xf800_0000_0000_0000, 0, 1 << 59, 0]);
    let r = GlweCiphertextTensorProductFixture::most_significant_bits(&vec![12345], 64);
    assert_eq!(r, vec![12345]);
}

#[test]
fn signed_errors_are_centred() {
    let r = GlweCiphertextTensorProductFixture::signed_errors(
        &vec![10, 0, 0, 1 << 63],
        &vec![13, u64::MAX, 1 << 63, 0],
    );
    assert_eq!(r, vec![3, -1, i64::MIN, i64::MIN]);
}
