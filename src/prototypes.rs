//! Prototypes: backend-independent values that stand for entities.
use crate::markers::{
    BinaryKeyDistribution, FloatPrecision, IntegerPrecision, Precision32, Precision64,
};
use crate::reference::{Cleartext32, Cleartext64, GgswCiphertext64};
use vstd::prelude::*;

verus! {

/// A trait implemented by cleartext prototypes.
pub trait CleartextPrototype {
    type Precision: IntegerPrecision;
}

/// A trait implemented by cleartext float prototypes.
pub trait CleartextFloatPrototype {
    type Precision: FloatPrecision;
}

/// A type representing the prototype of a 32 bit cleartext entity.
pub struct ProtoCleartext32(pub Cleartext32);

impl CleartextPrototype for ProtoCleartext32 {
    type Precision = Precision32;
}

/// A type representing the prototype of a 64 bit cleartext entity.
pub struct ProtoCleartext64(pub Cleartext64);

impl CleartextPrototype for ProtoCleartext64 {
    type Precision = Precision64;
}

/// The prototype of a 64 bit GGSW ciphertext under a binary key.
pub struct ProtoBinaryGgswCiphertext64(pub GgswCiphertext64<BinaryKeyDistribution>);

impl ProtoBinaryGgswCiphertext64 {
    /// The prototype of the ciphertext `c`.
    pub fn new(c: GgswCiphertext64<BinaryKeyDistribution>) -> (r: Self)
        ensures
            r.0@ == c@,
    {
        ProtoBinaryGgswCiphertext64(c)
    }

    /// The ciphertext this prototype holds.
    pub fn ciphertext(&self) -> (r: &GgswCiphertext64<BinaryKeyDistribution>)
        ensures
            r@ == self.0@,
    {
        &self.0
    }
}

} // verus!
