//! Key-distribution and precision markers.
use vstd::prelude::*;

verus! {

/// The closed set of secret-key distributions a key or ciphertext is produced under.
#[derive(Clone, Copy, Debug, PartialEq, Eq, Structural)]
pub enum KeyDistribution {
    Binary,
    Ternary,
    Gaussian,
}

/// A type-level tag for one key distribution.
///
/// Every marker names the closed-form noise formula variant that applies to it, so
/// that a noise oracle dispatches on `formula_kind` rather than on type identity.
pub trait KeyDistributionMarker {
    spec fn spec_formula_kind() -> KeyDistribution;

    fn formula_kind() -> (r: KeyDistribution)
        ensures
            r == Self::spec_formula_kind(),
    ;
}

/// Secret key coefficients drawn uniformly from {0, 1}.
pub struct BinaryKeyDistribution;

/// Secret key coefficients drawn uniformly from {-1, 0, 1}.
pub struct TernaryKeyDistribution;

/// Secret key coefficients drawn from a discrete gaussian.
pub struct GaussianKeyDistribution;

impl KeyDistributionMarker for BinaryKeyDistribution {
    open spec fn spec_formula_kind() -> KeyDistribution {
        KeyDistribution::Binary
    }

    fn formula_kind() -> (r: KeyDistribution) {
        KeyDistribution::Binary
    }
}

impl KeyDistributionMarker for TernaryKeyDistribution {
    open spec fn spec_formula_kind() -> KeyDistribution {
        KeyDistribution::Ternary
    }

    fn formula_kind() -> (r: KeyDistribution) {
        KeyDistribution::Ternary
    }
}

impl KeyDistributionMarker for GaussianKeyDistribution {
    open spec fn spec_formula_kind() -> KeyDistribution {
        KeyDistribution::Gaussian
    }

    fn formula_kind() -> (r: KeyDistribution) {
        KeyDistribution::Gaussian
    }
}

/// An unsigned-integer precision for raw plaintext and cleartext values.
pub trait IntegerPrecision {
    type Raw;

    /// The width of `Raw`, in bits.
    spec fn spec_bits() -> nat;
}

/// A floating-point precision for raw cleartext values.
pub trait FloatPrecision {
    type Raw;
}

/// Raw values held in `u32`.
pub struct Precision32;

/// Raw values held in `u64`.
pub struct Precision64;

impl IntegerPrecision for Precision32 {
    type Raw = u32;

    open spec fn spec_bits() -> nat {
        32
    }
}

impl IntegerPrecision for Precision64 {
    type Raw = u64;

    open spec fn spec_bits() -> nat {
        64
    }
}

} // verus!
