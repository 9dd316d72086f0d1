//! Making and reading prototypes from raw values.
use crate::markers::{FloatPrecision, IntegerPrecision, KeyDistributionMarker, Precision32, Precision64, BinaryKeyDistribution};
use crate::prototypes::{
    CleartextFloatPrototype, CleartextPrototype, ProtoBinaryGgswCiphertext64, ProtoCleartext32,
    ProtoCleartext64,
};
use crate::reference::{Cleartext32, Cleartext64, GgswView};
use vstd::prelude::*;

verus! {

/// The generator of prototypes, and the adapter between prototypes and entities.
pub struct Maker;

/// A trait allowing to manipulate cleartext prototypes.
pub trait PrototypesCleartext<Precision: IntegerPrecision> {
    type CleartextProto: CleartextPrototype<Precision = Precision>;

    /// The raw value a cleartext prototype stands for.
    spec fn spec_cleartext_raw(cleartext: Self::CleartextProto) -> Precision::Raw;

    fn transform_raw_to_cleartext(&mut self, raw: &Precision::Raw) -> (r: Self::CleartextProto)
        ensures
            Self::spec_cleartext_raw(r) == *raw,
    ;

    fn transform_cleartext_to_raw(&mut self, cleartext: &Self::CleartextProto) -> (r:
        Precision::Raw)
        ensures
            r == Self::spec_cleartext_raw(*cleartext),
    ;
}

impl PrototypesCleartext<Precision32> for Maker {
    type CleartextProto = ProtoCleartext32;

    open spec fn spec_cleartext_raw(cleartext: ProtoCleartext32) -> u32 {
        cleartext.0.0
    }

    fn transform_raw_to_cleartext(&mut self, raw: &u32) -> (r: ProtoCleartext32) {
        ProtoCleartext32(Cleartext32(*raw))
    }

    fn transform_cleartext_to_raw(&mut self, cleartext: &ProtoCleartext32) -> (r: u32) {
        cleartext.0.0
    }
}

impl PrototypesCleartext<Precision64> for Maker {
    type CleartextProto = ProtoCleartext64;

    open spec fn spec_cleartext_raw(cleartext: ProtoCleartext64) -> u64 {
        cleartext.0.0
    }

    fn transform_raw_to_cleartext(&mut self, raw: &u64) -> (r: ProtoCleartext64) {
        ProtoCleartext64(Cleartext64(*raw))
    }

    fn transform_cleartext_to_raw(&mut self, cleartext: &ProtoCleartext64) -> (r: u64) {
        cleartext.0.0
    }
}

/// A trait allowing to manipulate float cleartext prototypes.
pub trait PrototypesFloatCleartext<Precision: FloatPrecision> {
    type CleartextProto: CleartextFloatPrototype<Precision = Precision>;

    fn transform_raw_to_cleartext(&mut self, raw: &Precision::Raw) -> Self::CleartextProto;

    fn transform_cleartext_to_raw(&mut self, cleartext: &Self::CleartextProto) -> Precision::Raw;
}

/// Turning a raw value into a cleartext prototype and back gives the raw value.
pub proof fn lemma_cleartext_round_trip<Precision: IntegerPrecision, M: PrototypesCleartext<Precision>>(
    raw: Precision::Raw,
    proto: M::CleartextProto,
    back: Precision::Raw,
)
    requires
        M::spec_cleartext_raw(proto) == raw,
        back == M::spec_cleartext_raw(proto),
    ensures
        back == raw,
{
}

/// A trait allowing to manipulate GGSW ciphertext prototypes.
pub trait PrototypesGgswCiphertext<Precision: IntegerPrecision, KeyDistribution: KeyDistributionMarker> {
    type GgswCiphertextProto;

    /// The coefficients and structural parameters a prototype holds.
    spec fn spec_ggsw_proto_content(proto: Self::GgswCiphertextProto) -> GgswView;
}

impl PrototypesGgswCiphertext<Precision64, BinaryKeyDistribution> for Maker {
    type GgswCiphertextProto = ProtoBinaryGgswCiphertext64;

    open spec fn spec_ggsw_proto_content(proto: ProtoBinaryGgswCiphertext64) -> GgswView {
        proto.0@
    }
}

} // verus!
