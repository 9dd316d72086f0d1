//! A reference backend: LWE ciphertexts over the ring of integers modulo 2^64,
//! held as plain vectors, and an engine that negates and keyswitches them.
use crate::engines::AbstractEngine;
use crate::entities::{
    CleartextEntity, DecompositionBaseLog, DecompositionLevelCount, GgswCiphertextEntity,
    GlweCiphertextEntity, GlweDimension, LweCiphertextEntity, LweDimension, LweKeyswitchKeyEntity,
    PolynomialSize,
};
use crate::markers::KeyDistributionMarker;
use crate::keyswitch::LweCiphertextDiscardingKeyswitchEngine;
use crate::negation::LweCiphertextDiscardingNegationEngine;
use std::marker::PhantomData;
use vstd::arithmetic::div_mod::{
    lemma_add_mod_noop, lemma_fundamental_div_mod, lemma_mod_bound, lemma_sub_mod_noop,
};
use vstd::arithmetic::power2::pow2;
use vstd::bits::{lemma_u64_pow2_no_overflow, lemma_u64_shl_is_mul, lemma_u64_shr_is_div};
use vstd::prelude::*;

verus! {

/// The modulus of the ciphertext ring.
pub open spec fn modulus() -> int {
    0x1_0000_0000_0000_0000
}

/// `-x` in the integers modulo 2^64.
pub open spec fn neg_mod(x: u64) -> u64 {
    if x == 0 {
        0
    } else {
        (modulus() - x) as u64
    }
}

/// `sum_{i < n} a[i] * b[i]`, over the integers.
pub open spec fn dot(a: Seq<u64>, b: Seq<u64>, n: nat) -> int
    decreases n,
{
    if n == 0 {
        0
    } else {
        dot(a, b, (n - 1) as nat) + a[n - 1] as int * b[n - 1] as int
    }
}

/// The mask and body of a ciphertext.
pub type LweView = (Seq<u64>, u64);

/// The phase of a ciphertext under a key: `b - <a, s>` modulo 2^64, which is its
/// plaintext plus its noise.
pub open spec fn lwe_phase(c: LweView, key: Seq<u64>) -> int {
    (c.1 as int - dot(c.0, key, c.0.len())) % modulus()
}

/// The ciphertext whose mask coefficients and body are those of `c`, negated.
pub open spec fn negated(c: LweView) -> LweView {
    (c.0.map_values(|x: u64| neg_mod(x)), neg_mod(c.1))
}

/// An LWE ciphertext with 64-bit coefficients under a key of distribution `K`.
pub struct LweCiphertext64<K> {
    pub mask: Vec<u64>,
    pub body: u64,
    pub key_distribution: PhantomData<K>,
}

impl<K> View for LweCiphertext64<K> {
    type V = LweView;

    open spec fn view(&self) -> LweView {
        (self.mask@, self.body)
    }
}

impl<K> LweCiphertext64<K> {
    /// A ciphertext with the given mask and body.
    pub fn from_parts(mask: Vec<u64>, body: u64) -> (r: Self)
        ensures
            r@ == (mask@, body),
    {
        LweCiphertext64 { mask, body, key_distribution: PhantomData }
    }

    /// The ciphertext `(0, ..., 0, 0)` of dimension `n`.
    pub fn zero(n: usize) -> (r: Self)
        ensures
            r@.0 == Seq::new(n as nat, |i: int| 0u64),
            r@.1 == 0,
    {
        let mask = vec![0u64; n];
        proof {
            assert(mask@ =~= Seq::new(n as nat, |i: int| 0u64));
        }
        LweCiphertext64 { mask, body: 0, key_distribution: PhantomData }
    }

    /// The phase of this ciphertext under `key`, which has the same dimension.
    pub fn decrypt(&self, key: &Vec<u64>) -> (r: u64)
        requires
            key@.len() == self.mask@.len(),
        ensures
            r as int == lwe_phase(self@, key@),
    {
        let n = self.mask.len();
        let mut acc: u64 = 0;
        let mut i: usize = 0;
        while i < n
            invariant
                n == self.mask@.len(),
                n == key@.len(),
                i <= n,
                acc as int == dot(self.mask@, key@, i as nat) % modulus(),
            decreases n - i,
        {
            let p = self.mask[i].wrapping_mul(key[i]);
            proof {
                let a = self.mask@[i as int] as int;
                let b = key@[i as int] as int;
                let d = dot(self.mask@, key@, i as nat);
                lemma_add_mod_noop(d, a * b, modulus());
                lemma_mod_bound(d, modulus());
                lemma_mod_bound(a * b, modulus());
                assert(dot(self.mask@, key@, (i + 1) as nat) == d + a * b);
            }
            acc = acc.wrapping_add(p);
            i += 1;
        }
        proof {
            let d = dot(self.mask@, key@, n as nat);
            lemma_sub_mod_noop(self.body as int, d, modulus());
            lemma_mod_bound(d, modulus());
            assert(self.body as int % modulus() == self.body as int);
        }
        self.body.wrapping_sub(acc)
    }
}

impl<K: KeyDistributionMarker> LweCiphertextEntity for LweCiphertext64<K> {
    type KeyDistribution = K;

    open spec fn spec_lwe_dimension(&self) -> LweDimension {
        LweDimension(self.mask@.len() as usize)
    }

    fn lwe_dimension(&self) -> (r: LweDimension) {
        LweDimension(self.mask.len())
    }
}

/// The content of an LWE keyswitch key.
pub struct KeyswitchKeyView {
    pub data: Seq<u64>,
    pub input_lwe_dimension: nat,
    pub output_lwe_dimension: nat,
    pub level_count: nat,
    pub base_log: nat,
}

/// Whether the parameters and storage of a keyswitch key fit together: a
/// decomposition of one to 63 bits in all, and one ciphertext of dimension
/// `n_out` for each input coefficient and level.
pub open spec fn keyswitch_key_fits(k: KeyswitchKeyView) -> bool {
    &&& 1 <= k.base_log
    &&& 1 <= k.level_count
    &&& k.base_log * k.level_count < 64
    &&& k.data.len() == k.input_lwe_dimension * k.level_count * (k.output_lwe_dimension + 1)
}

/// The `bits` most significant bits of `a`, rounded to nearest.
pub open spec fn rounded_top_bits(a: u64, bits: nat) -> int {
    ((a as int + pow2((63 - bits) as nat) as int) % modulus()) / pow2((64 - bits) as nat) as int
}

/// Digit `j` of the decomposition of `a` in base `2^base_log` over `level_count`
/// levels; digit 0 is the most significant one.
pub open spec fn decomposition_digit(a: u64, base_log: nat, level_count: nat, j: nat) -> int {
    (rounded_top_bits(a, base_log * level_count) / pow2(
        (base_log * (level_count - 1 - j)) as nat,
    ) as int) % pow2(base_log) as int
}

/// Term `f` of coefficient `t` of the keyswitch: the digit of level `f % L` of
/// input coefficient `f / L` times coefficient `t` of the key's ciphertext `f`.
pub open spec fn keyswitch_term(a: Seq<u64>, k: KeyswitchKeyView, t: int, f: int) -> int {
    decomposition_digit(a[f / k.level_count as int], k.base_log, k.level_count, (f % k.level_count as int) as nat)
        * k.data[f * (k.output_lwe_dimension + 1) + t] as int
}

/// The sum of the first `m` terms of coefficient `t` of the keyswitch.
pub open spec fn keyswitch_sum(a: Seq<u64>, k: KeyswitchKeyView, t: int, m: nat) -> int
    decreases m,
{
    if m == 0 {
        0
    } else {
        keyswitch_sum(a, k, t, (m - 1) as nat) + keyswitch_term(a, k, t, m - 1)
    }
}

/// Coefficient `t` of the keyswitch of `c`: that of `(0, ..., 0, b)` less the
/// decomposed products of the mask coefficients with the key, modulo 2^64.
pub open spec fn keyswitch_coefficient(c: LweView, k: KeyswitchKeyView, t: int) -> u64 {
    let start: int = if t == k.output_lwe_dimension {
        c.1 as int
    } else {
        0
    };
    ((start - keyswitch_sum(c.0, k, t, k.input_lwe_dimension * k.level_count)) % modulus()) as u64
}

/// The keyswitch of `c` with `k`.
pub open spec fn keyswitched(c: LweView, k: KeyswitchKeyView) -> LweView {
    (
        Seq::new(k.output_lwe_dimension, |t: int| keyswitch_coefficient(c, k, t)),
        keyswitch_coefficient(c, k, k.output_lwe_dimension as int),
    )
}

/// An LWE keyswitch key from keys of distribution `KIn` to keys of distribution `KOut`.
///
/// `data` holds, for each input mask coefficient `i` and each decomposition level
/// `j`, an encryption of dimension `output_lwe_dimension` (mask, then body) of
/// `s_in[i] * 2^(64 - base_log * (j + 1))`, at `(i * level_count + j) * (n_out + 1)`.
pub struct LweKeyswitchKey64<KIn, KOut> {
    pub(crate) data: Vec<u64>,
    pub(crate) input_lwe_dimension: LweDimension,
    pub(crate) output_lwe_dimension: LweDimension,
    pub(crate) level_count: DecompositionLevelCount,
    pub(crate) base_log: DecompositionBaseLog,
    pub(crate) key_distributions: PhantomData<(KIn, KOut)>,
}

impl<KIn, KOut> View for LweKeyswitchKey64<KIn, KOut> {
    type V = KeyswitchKeyView;

    closed spec fn view(&self) -> KeyswitchKeyView {
        KeyswitchKeyView {
            data: self.data@,
            input_lwe_dimension: self.input_lwe_dimension.0 as nat,
            output_lwe_dimension: self.output_lwe_dimension.0 as nat,
            level_count: self.level_count.0 as nat,
            base_log: self.base_log.0 as nat,
        }
    }
}

impl<KIn, KOut> LweKeyswitchKey64<KIn, KOut> {
    #[verifier::type_invariant]
    closed spec fn fits(self) -> bool {
        keyswitch_key_fits(self@)
    }

    /// The key with the given storage and parameters, if they fit together.
    pub fn new(
        data: Vec<u64>,
        input_lwe_dimension: LweDimension,
        output_lwe_dimension: LweDimension,
        level_count: DecompositionLevelCount,
        base_log: DecompositionBaseLog,
    ) -> (r: Option<Self>)
        ensures
            ({
                let v = KeyswitchKeyView {
                    data: data@,
                    input_lwe_dimension: input_lwe_dimension.0 as nat,
                    output_lwe_dimension: output_lwe_dimension.0 as nat,
                    level_count: level_count.0 as nat,
                    base_log: base_log.0 as nat,
                };
                &&& r is Some <==> keyswitch_key_fits(v)
                &&& r is Some ==> r->0@ == v
            }),
    {
        let b = base_log.0;
        let l = level_count.0;
        let n = data.len();
        let n_in = input_lwe_dimension.0;
        let n_out = output_lwe_dimension.0;
        if b < 1 || l < 1 || b >= 64 || l >= 64 {
            proof {
                if b >= 64 && l >= 1 {
                    assert(b * l >= b) by (nonlinear_arith)
                        requires
                            l >= 1,
                    ;
                }
                if l >= 64 && b >= 1 {
                    assert(b * l >= l) by (nonlinear_arith)
                        requires
                            b >= 1,
                    ;
                }
            }
            return None;
        }
        assert(b * l < 4096) by (nonlinear_arith)
            requires
                b < 64,
                l < 64,
        ;
        if b * l >= 64 {
            return None;
        }
        let rows = match n_in.checked_mul(l) {
            Some(x) => x,
            None => {
                proof {
                    assert(n_in * l * (n_out + 1) >= n_in * l) by (nonlinear_arith);
                }
                return None;
            },
        };
        let len: usize = if rows == 0 {
            proof {
                assert(rows * (n_out + 1) == 0) by (nonlinear_arith)
                    requires
                        rows == 0,
                ;
            }
            0
        } else if n_out == usize::MAX {
            proof {
                assert(rows * (n_out + 1) >= n_out + 1) by (nonlinear_arith)
                    requires
                        rows >= 1,
                ;
            }
            return None;
        } else {
            match rows.checked_mul(n_out + 1) {
                Some(x) => x,
                None => {
                    return None;
                },
            }
        };
        assert(len == n_in * l * (n_out + 1));
        if data.len() != len {
            return None;
        }
        Some(
            LweKeyswitchKey64 {
                data,
                input_lwe_dimension,
                output_lwe_dimension,
                level_count,
                base_log,
                key_distributions: PhantomData,
            },
        )
    }
}

impl<KIn: KeyDistributionMarker, KOut: KeyDistributionMarker> LweKeyswitchKeyEntity for LweKeyswitchKey64<
    KIn,
    KOut,
> {
    type InputKeyDistribution = KIn;

    type OutputKeyDistribution = KOut;

    open spec fn spec_input_lwe_dimension(&self) -> LweDimension {
        LweDimension(self@.input_lwe_dimension as usize)
    }

    open spec fn spec_output_lwe_dimension(&self) -> LweDimension {
        LweDimension(self@.output_lwe_dimension as usize)
    }

    fn input_lwe_dimension(&self) -> (r: LweDimension) {
        self.input_lwe_dimension
    }

    fn output_lwe_dimension(&self) -> (r: LweDimension) {
        self.output_lwe_dimension
    }
}

/// A GLWE ciphertext with 64-bit coefficients under a key of distribution `K`.
///
/// `data` holds `glwe_dimension + 1` polynomials of `polynomial_size` coefficients.
pub struct GlweCiphertext64<K> {
    pub data: Vec<u64>,
    pub glwe_dimension: GlweDimension,
    pub polynomial_size: PolynomialSize,
    pub key_distribution: PhantomData<K>,
}

impl<K: KeyDistributionMarker> GlweCiphertextEntity for GlweCiphertext64<K> {
    type KeyDistribution = K;

    open spec fn spec_glwe_dimension(&self) -> GlweDimension {
        self.glwe_dimension
    }

    open spec fn spec_polynomial_size(&self) -> PolynomialSize {
        self.polynomial_size
    }

    fn glwe_dimension(&self) -> (r: GlweDimension) {
        self.glwe_dimension
    }

    fn polynomial_size(&self) -> (r: PolynomialSize) {
        self.polynomial_size
    }
}

/// A 32-bit cleartext.
#[derive(Clone, Copy, Debug, PartialEq, Eq, Structural)]
pub struct Cleartext32(pub u32);

/// A 64-bit cleartext.
#[derive(Clone, Copy, Debug, PartialEq, Eq, Structural)]
pub struct Cleartext64(pub u64);

impl CleartextEntity for Cleartext32 {

}

impl CleartextEntity for Cleartext64 {

}

/// The coefficients and structural parameters of a GGSW ciphertext.
pub type GgswView = (
    Seq<u64>,
    GlweDimension,
    PolynomialSize,
    DecompositionLevelCount,
    DecompositionBaseLog,
);

/// A GGSW ciphertext with 64-bit coefficients under a key of distribution `K`.
///
/// `data` holds the `level_count * (k + 1) * (k + 1) * N` coefficients, row by row.
pub struct GgswCiphertext64<K> {
    pub data: Vec<u64>,
    pub glwe_dimension: GlweDimension,
    pub polynomial_size: PolynomialSize,
    pub level_count: DecompositionLevelCount,
    pub base_log: DecompositionBaseLog,
    pub key_distribution: PhantomData<K>,
}

impl<K> View for GgswCiphertext64<K> {
    type V = GgswView;

    open spec fn view(&self) -> GgswView {
        (self.data@, self.glwe_dimension, self.polynomial_size, self.level_count, self.base_log)
    }
}

impl<K> GgswCiphertext64<K> {
    /// A copy of this ciphertext, in storage of its own.
    pub fn duplicate(&self) -> (r: Self)
        ensures
            r@ == self@,
    {
        let mut data: Vec<u64> = Vec::with_capacity(self.data.len());
        let mut i: usize = 0;
        while i < self.data.len()
            invariant
                i <= self.data@.len(),
                data@ == self.data@.subrange(0, i as int),
            decreases self.data@.len() - i,
        {
            data.push(self.data[i]);
            i += 1;
            proof {
                assert(data@ =~= self.data@.subrange(0, i as int));
            }
        }
        proof {
            assert(data@ =~= self.data@);
        }
        GgswCiphertext64 {
            data,
            glwe_dimension: self.glwe_dimension,
            polynomial_size: self.polynomial_size,
            level_count: self.level_count,
            base_log: self.base_log,
            key_distribution: PhantomData,
        }
    }
}

impl<K: KeyDistributionMarker> GgswCiphertextEntity for GgswCiphertext64<K> {
    type KeyDistribution = K;

    open spec fn spec_glwe_dimension(&self) -> GlweDimension {
        self.glwe_dimension
    }

    open spec fn spec_polynomial_size(&self) -> PolynomialSize {
        self.polynomial_size
    }

    open spec fn spec_decomposition_level_count(&self) -> DecompositionLevelCount {
        self.level_count
    }

    open spec fn spec_decomposition_base_log(&self) -> DecompositionBaseLog {
        self.base_log
    }

    fn glwe_dimension(&self) -> (r: GlweDimension) {
        self.glwe_dimension
    }

    fn polynomial_size(&self) -> (r: PolynomialSize) {
        self.polynomial_size
    }

    fn decomposition_level_count(&self) -> (r: DecompositionLevelCount) {
        self.level_count
    }

    fn decomposition_base_log(&self) -> (r: DecompositionBaseLog) {
        self.base_log
    }
}

/// The error type of the reference backend, whose operations never fail.
#[derive(Debug)]
pub struct ReferenceEngineError;

/// An engine that computes directly on the plain vectors of `LweCiphertext64`.
pub struct ReferenceEngine;

impl AbstractEngine for ReferenceEngine {
    type EngineError = ReferenceEngineError;
}

impl<K: KeyDistributionMarker> LweCiphertextDiscardingNegationEngine<
    LweCiphertext64<K>,
    LweCiphertext64<K>,
> for ReferenceEngine {
    open spec fn negates(&self, input: LweCiphertext64<K>, output: LweCiphertext64<K>) -> bool {
        output@ == negated(input@)
    }

    fn discard_neg_lwe_ciphertext_unchecked(
        &mut self,
        output: &mut LweCiphertext64<K>,
        input: &LweCiphertext64<K>,
    ) {
        let n = input.mask.len();
        let m = output.mask.len();
        assert(n == m);
        let mut i: usize = 0;
        while i < n
            invariant
                n == input.mask@.len(),
                n == output.mask@.len(),
                i <= n,
                forall|j: int| 0 <= j < i ==> output.mask@[j] == neg_mod(#[trigger] input.mask@[j]),
            decreases n - i,
        {
            output.mask.set(i, 0u64.wrapping_sub(input.mask[i]));
            i += 1;
        }
        output.body = 0u64.wrapping_sub(input.body);
        proof {
            assert(output.mask@ =~= input.mask@.map_values(|x: u64| neg_mod(x)));
        }
    }
}

/// Digit `j` of the decomposition of `a` in base `2^base_log` over `level_count` levels.
fn decompose_digit(a: u64, base_log: usize, level_count: usize, j: usize) -> (r: u64)
    requires
        1 <= base_log,
        1 <= level_count,
        base_log * level_count < 64,
        j < level_count,
    ensures
        r as int == decomposition_digit(a, base_log as nat, level_count as nat, j as nat),
{
    let bits = base_log * level_count;
    proof {
        assert(base_log * (level_count - 1 - j) <= bits - base_log) by (nonlinear_arith)
            requires
                bits == base_log * level_count,
                j < level_count,
        ;
        lemma_u64_pow2_no_overflow((63 - bits) as nat);
        lemma_u64_shl_is_mul(1, (63 - bits) as u64);
        lemma_u64_pow2_no_overflow(base_log as nat);
        lemma_u64_shl_is_mul(1, base_log as u64);
    }
    let half: u64 = 1u64 << ((63 - bits) as u64);
    let shift: u64 = (64 - bits) as u64;
    let sum = a.wrapping_add(half);
    proof {
        lemma_u64_shr_is_div(sum, shift);
    }
    let rounded = sum >> shift;
    let low: u64 = (base_log * (level_count - 1 - j)) as u64;
    proof {
        lemma_u64_shr_is_div(rounded, low);
    }
    let radix: u64 = 1u64 << (base_log as u64);
    (rounded >> low) % radix
}

impl<KIn: KeyDistributionMarker, KOut: KeyDistributionMarker> LweCiphertextDiscardingKeyswitchEngine<
    LweKeyswitchKey64<KIn, KOut>,
    LweCiphertext64<KIn>,
    LweCiphertext64<KOut>,
> for ReferenceEngine {
    open spec fn keyswitches(
        &self,
        input: LweCiphertext64<KIn>,
        ksk: LweKeyswitchKey64<KIn, KOut>,
        output: LweCiphertext64<KOut>,
    ) -> bool {
        output@ == keyswitched(input@, ksk@)
    }

    fn discard_keyswitch_lwe_ciphertext_unchecked(
        &mut self,
        output: &mut LweCiphertext64<KOut>,
        input: &LweCiphertext64<KIn>,
        ksk: &LweKeyswitchKey64<KIn, KOut>,
    ) {
        proof {
            use_type_invariant(ksk);
        }
        let n_in = input.mask.len();
        let n_out = output.mask.len();
        let b = ksk.base_log.0;
        let l = ksk.level_count.0;
        let m = ksk.data.len();
        let ghost k = ksk@;
        let ghost a = input.mask@;
        assert(n_in == k.input_lwe_dimension && n_out == k.output_lwe_dimension);
        let mut t: usize = 0;
        while t < n_out
            invariant
                n_out == output.mask@.len(),
                t <= n_out,
                forall|u: int| 0 <= u < t ==> output.mask@[u] == 0,
            decreases n_out - t,
        {
            output.mask.set(t, 0);
            t += 1;
        }
        output.body = input.body;
        proof {
            assert(n_in * l <= n_in * l * (n_out + 1)) by (nonlinear_arith);
            assert(n_in * l <= m);
        }
        let total = n_in * l;
        let mut f: usize = 0;
        while f < total
            invariant
                k == ksk@,
                a == input.mask@,
                keyswitch_key_fits(k),
                m == k.data.len(),
                n_in == k.input_lwe_dimension,
                n_out == k.output_lwe_dimension,
                b == k.base_log,
                l == k.level_count,
                n_in == a.len(),
                n_out == output.mask@.len(),
                total == n_in * l,
                f <= total,
                forall|u: int|
                    0 <= u < n_out ==> #[trigger] output.mask@[u] as int == (0 - keyswitch_sum(
                        a,
                        k,
                        u,
                        f as nat,
                    )) % modulus(),
                output.body as int == (input.body as int - keyswitch_sum(
                    a,
                    k,
                    n_out as int,
                    f as nat,
                )) % modulus(),
            decreases total - f,
        {
            proof {
                lemma_fundamental_div_mod(f as int, l as int);
                lemma_mod_bound(f as int, l as int);
                assert((f as int) / (l as int) < n_in) by (nonlinear_arith)
                    requires
                        f as int == l * ((f as int) / (l as int)) + (f as int) % (l as int),
                        (f as int) % (l as int) >= 0,
                        f < n_in * l,
                        l >= 1,
                ;
                assert(f * (n_out + 1) + n_out < n_in * l * (n_out + 1)) by (nonlinear_arith)
                    requires
                        f + 1 <= n_in * l,
                ;
            }
            let i = f / l;
            let j = f % l;
            assert(i < a.len());
            let d = decompose_digit(input.mask[i], b, l, j);
            let base = f * (n_out + 1);
            let mut u: usize = 0;
            while u < n_out
                invariant
                    k == ksk@,
                    a == input.mask@,
                    keyswitch_key_fits(k),
                    m == k.data.len(),
                    n_out == k.output_lwe_dimension,
                    n_out == output.mask@.len(),
                    l == k.level_count,
                    b == k.base_log,
                    f < total,
                    total == n_in * l,
                    i == f / l,
                    j == f % l,
                    i < a.len(),
                    output.body as int == (input.body as int - keyswitch_sum(
                        a,
                        k,
                        n_out as int,
                        f as nat,
                    )) % modulus(),
                    d as int == decomposition_digit(a[i as int], b as nat, l as nat, j as nat),
                    base == f * (n_out + 1),
                    base + n_out < k.data.len(),
                    u <= n_out,
                    forall|w: int|
                        0 <= w < u ==> #[trigger] output.mask@[w] as int == (0 - keyswitch_sum(
                            a,
                            k,
                            w,
                            (f + 1) as nat,
                        )) % modulus(),
                    forall|w: int|
                        u <= w < n_out ==> #[trigger] output.mask@[w] as int == (0 - keyswitch_sum(
                            a,
                            k,
                            w,
                            f as nat,
                        )) % modulus(),
                decreases n_out - u,
            {
                let c = ksk.data[base + u];
                let p = d.wrapping_mul(c);
                let prev = output.mask[u];
                proof {
                    let s = keyswitch_sum(a, k, u as int, f as nat);
                    let dc = d as int * c as int;
                    assert(keyswitch_term(a, k, u as int, f as int) == dc);
                    lemma_mod_bound(0 - s, modulus());
                    lemma_mod_bound(dc, modulus());
                    lemma_sub_mod_noop(0 - s, dc, modulus());
                }
                output.mask.set(u, prev.wrapping_sub(p));
                u += 1;
            }
            let c = ksk.data[base + n_out];
            let p = d.wrapping_mul(c);
            proof {
                let s = keyswitch_sum(a, k, n_out as int, f as nat);
                let dc = d as int * c as int;
                assert(keyswitch_term(a, k, n_out as int, f as int) == dc);
                assert(keyswitch_sum(a, k, n_out as int, (f + 1) as nat) == s + dc);
                lemma_mod_bound(input.body as int - s, modulus());
                lemma_mod_bound(dc, modulus());
                lemma_sub_mod_noop(input.body as int - s, dc, modulus());
            }
            output.body = output.body.wrapping_sub(p);
            f += 1;
        }
        proof {
            assert forall|u: int| 0 <= u < n_out implies output.mask@[u] == keyswitch_coefficient(
                input@,
                k,
                u,
            ) by {
                lemma_mod_bound(0 - keyswitch_sum(a, k, u, total as nat), modulus());
            }
            assert(output.mask@ =~= keyswitched(input@, k).0);
            lemma_mod_bound(input.body as int - keyswitch_sum(a, k, n_out as int, total as nat), modulus());
        }
    }
}

/// Negation is an involution: negating a ciphertext twice gives it back, so the
/// result has the phase of the original under every key.
pub proof fn lemma_double_negation<K: KeyDistributionMarker>(
    engine: ReferenceEngine,
    ct: LweCiphertext64<K>,
    once: LweCiphertext64<K>,
    twice: LweCiphertext64<K>,
    key: Seq<u64>,
)
    requires
        <ReferenceEngine as LweCiphertextDiscardingNegationEngine<
            LweCiphertext64<K>,
            LweCiphertext64<K>,
        >>::negates(&engine, ct, once),
        <ReferenceEngine as LweCiphertextDiscardingNegationEngine<
            LweCiphertext64<K>,
            LweCiphertext64<K>,
        >>::negates(&engine, once, twice),
    ensures
        twice@ == ct@,
        lwe_phase(twice@, key) == lwe_phase(ct@, key),
{
    assert(twice@.0 =~= ct@.0);
}

} // verus!
