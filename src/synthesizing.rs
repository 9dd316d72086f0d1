//! Turning prototypes into backend entities and back.
use crate::entities::GgswCiphertextEntity;
use crate::markers::{BinaryKeyDistribution, IntegerPrecision, Precision64};
use crate::prototyping::{Maker, PrototypesGgswCiphertext};
use crate::prototypes::ProtoBinaryGgswCiphertext64;
use crate::reference::{GgswCiphertext64, GgswView};
use vstd::prelude::*;

verus! {

/// A trait allowing to synthesize an actual ggsw ciphertext entity from a prototype.
///
/// Every entity obtained from `synthesize_ggsw_ciphertext` is to be handed to
/// `destroy_ggsw_ciphertext` exactly once.
pub trait SynthesizesGgswCiphertext<Precision: IntegerPrecision, GgswCiphertext>:
    PrototypesGgswCiphertext<Precision, GgswCiphertext::KeyDistribution> where
    GgswCiphertext: GgswCiphertextEntity,
 {
    /// The coefficients and structural parameters an entity holds.
    spec fn spec_ggsw_entity_content(entity: GgswCiphertext) -> GgswView;

    fn synthesize_ggsw_ciphertext(&mut self, prototype: &Self::GgswCiphertextProto) -> (r:
        GgswCiphertext)
        ensures
            Self::spec_ggsw_entity_content(r) == Self::spec_ggsw_proto_content(*prototype),
    ;

    fn unsynthesize_ggsw_ciphertext(&mut self, entity: &GgswCiphertext) -> (r:
        Self::GgswCiphertextProto)
        ensures
            Self::spec_ggsw_proto_content(r) == Self::spec_ggsw_entity_content(*entity),
    ;

    fn destroy_ggsw_ciphertext(&mut self, entity: GgswCiphertext);
}

impl SynthesizesGgswCiphertext<Precision64, GgswCiphertext64<BinaryKeyDistribution>> for Maker {
    open spec fn spec_ggsw_entity_content(entity: GgswCiphertext64<BinaryKeyDistribution>) -> GgswView {
        entity@
    }

    fn synthesize_ggsw_ciphertext(&mut self, prototype: &ProtoBinaryGgswCiphertext64) -> (r:
        GgswCiphertext64<BinaryKeyDistribution>) {
        prototype.0.duplicate()
    }

    fn unsynthesize_ggsw_ciphertext(&mut self, entity: &GgswCiphertext64<BinaryKeyDistribution>) -> (r:
        ProtoBinaryGgswCiphertext64) {
        ProtoBinaryGgswCiphertext64(entity.duplicate())
    }

    fn destroy_ggsw_ciphertext(&mut self, entity: GgswCiphertext64<BinaryKeyDistribution>) {
    }
}

/// Synthesizing a prototype and un-synthesizing the entity gives a prototype with
/// the same coefficients and structural parameters.
pub proof fn lemma_ggsw_round_trip<Precision: IntegerPrecision, G: GgswCiphertextEntity, M: SynthesizesGgswCiphertext<Precision, G>>(
    proto: M::GgswCiphertextProto,
    entity: G,
    back: M::GgswCiphertextProto,
)
    requires
        M::spec_ggsw_entity_content(entity) == M::spec_ggsw_proto_content(proto),
        M::spec_ggsw_proto_content(back) == M::spec_ggsw_entity_content(entity),
    ensures
        M::spec_ggsw_proto_content(back) == M::spec_ggsw_proto_content(proto),
{
}

} // verus!
