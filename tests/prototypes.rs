use concrete_spec::entities::{
    DecompositionBaseLog, DecompositionLevelCount, GgswCiphertextEntity, GlweDimension,
    PolynomialSize,
};
use concrete_spec::markers::{BinaryKeyDistribution, Precision32, Precision64};
use concrete_spec::prototypes::ProtoBinaryGgswCiphertext64;
use concrete_spec::prototyping::{Maker, PrototypesCleartext};
use concrete_spec::reference::GgswCiphertext64;
use concrete_spec::synthesizing::SynthesizesGgswCiphertext;
use std::marker::PhantomData;

#[test]
fn cleartext_32_round_trip() {
    let mut maker = Maker;
    for raw in [0u32, 1, 17, u32::MAX] {
        let proto = <Maker as PrototypesCleartext<Precision32>>::transform_raw_to_cleartext(&mut maker, &raw);
        assert_eq!(proto.0 .0, raw);
        let back = <Maker as PrototypesCleartext<Precision32>>::transform_cleartext_to_raw(&mut maker, &proto);
        assert_eq!(back, raw);
    }
}

#[test]
fn cleartext_64_round_trip() {
    let mut maker = Maker;
    for raw in [0u64, 3, 1 << 63, u64::MAX] {
        let proto = <Maker as PrototypesCleartext<Precision64>>::transform_raw_to_cleartext(&mut maker, &raw);
        let back = <Maker as PrototypesCleartext<Precision64>>::transform_cleartext_to_raw(&mut maker, &proto);
        assert_eq!(back, raw);
    }
}

#[test]
fn ggsw_synthesis_round_trip() {
    let mut maker = Maker;
    let data: Vec<u64> = (0..2 * 2 * 2 * 4).map(|i| (i as u64) * 0x0101_0101_0101).collect();
    let ct = GgswCiphertext64::<BinaryKeyDistribution> {
        data: data.clone(),
        glwe_dimension: GlweDimension(1),
        polynomial_size: PolynomialSize(4),
        level_count: DecompositionLevelCount(2),
        base_log: DecompositionBaseLog(7),
        key_distribution: PhantomData,
    };
    let proto = ProtoBinaryGgswCiphertext64::new(ct);
    let entity: GgswCiphertext64<BinaryKeyDistribution> = maker.synthesize_ggsw_ciphertext(&proto);
    assert_eq!(entity.data, data);
    assert_eq!(entity.polynomial_size(), PolynomialSize(4));
    assert_eq!(entity.decomposition_level_count(), DecompositionLevelCount(2));
    let back = maker.unsynthesize_ggsw_ciphertext(&entity);
    maker.destroy_ggsw_ciphertext(entity);
    assert_eq!(back.ciphertext().data, data);
    assert_eq!(back.ciphertext().glwe_dimension, GlweDimension(1));
    assert_eq!(back.ciphertext().base_log, DecompositionBaseLog(7));
}
