//! The statistical fixture of the GLWE tensor product: the parts of its protocol
//! that compute on integers and entities. Sampling and the noise oracle work on
//! floating-point variances and stand outside this crate's verified part.
use crate::entities::{CleartextEntity, GlweCiphertextEntity};
use crate::reference::modulus;
use crate::tensor_product::{glwe_shapes_match, GlweCiphertextTensorProductEngine};
use vstd::arithmetic::div_mod::{
    lemma_add_mod_noop, lemma_fundamental_div_mod, lemma_mod_bound, lemma_sub_mod_noop,
};
use vstd::arithmetic::power2::{lemma_pow2_pos, pow2};
use vstd::bits::{lemma_u64_shl_is_mul, lemma_u64_shr_is_div};
use vstd::prelude::*;

verus! {

/// The `i`-th term of coefficient `k` of the product of `a` and `b` in
/// `Z[X]/(X^N + 1)`, `N` the length of `a`: `X^N` wraps round to `-1`.
pub open spec fn negacyclic_term(a: Seq<u64>, b: Seq<u64>, k: int, i: int) -> int {
    if i <= k {
        a[i] as int * b[k - i] as int
    } else {
        -(a[i] as int * b[k - i + a.len()] as int)
    }
}

/// The sum of the first `m` terms of coefficient `k`.
pub open spec fn negacyclic_sum(a: Seq<u64>, b: Seq<u64>, k: int, m: nat) -> int
    decreases m,
{
    if m == 0 {
        0
    } else {
        negacyclic_sum(a, b, k, (m - 1) as nat) + negacyclic_term(a, b, k, m - 1)
    }
}

/// Coefficient `k` of the product of `a` and `b` in `Z_{2^64}[X]/(X^N + 1)`.
pub open spec fn negacyclic_coefficient(a: Seq<u64>, b: Seq<u64>, k: int) -> int {
    negacyclic_sum(a, b, k, a.len()) % modulus()
}

/// The first components of the first `m` outcomes, one after the other.
pub open spec fn expected_prefix(outcomes: Seq<(Vec<u64>, Vec<u64>)>, m: nat) -> Seq<u64>
    decreases m,
{
    if m == 0 {
        Seq::empty()
    } else {
        expected_prefix(outcomes, (m - 1) as nat) + outcomes[m - 1].0@
    }
}

/// The second components of the first `m` outcomes, one after the other.
pub open spec fn actual_prefix(outcomes: Seq<(Vec<u64>, Vec<u64>)>, m: nat) -> Seq<u64>
    decreases m,
{
    if m == 0 {
        Seq::empty()
    } else {
        actual_prefix(outcomes, (m - 1) as nat) + outcomes[m - 1].1@
    }
}

/// The representative of `x`, taken modulo 2^64, in `[-2^63, 2^63)`.
pub open spec fn centered(x: int) -> int {
    let m = x % modulus();
    if m < 0x8000_0000_0000_0000 {
        m
    } else {
        m - modulus()
    }
}

/// Appends `src` to `dst`.
fn append_all(dst: &mut Vec<u64>, src: &Vec<u64>)
    ensures
        final(dst)@ == old(dst)@ + src@,
{
    let mut j: usize = 0;
    while j < src.len()
        invariant
            j <= src@.len(),
            dst@ == old(dst)@ + src@.subrange(0, j as int),
        decreases src@.len() - j,
    {
        dst.push(src[j]);
        j += 1;
        proof {
            assert(dst@ =~= old(dst)@ + src@.subrange(0, j as int));
        }
    }
    proof {
        assert(src@.subrange(0, src@.len() as int) =~= src@);
    }
}

/// The fixture for engines implementing `GlweCiphertextTensorProductEngine`.
pub struct GlweCiphertextTensorProductFixture;

impl GlweCiphertextTensorProductFixture {
    /// The plaintext a tensor product of encryptions of `p1` and `p2` with scale 1
    /// decrypts to, noise aside: their product in `Z_{2^64}[X]/(X^N + 1)`.
    pub fn expected_plaintext(p1: &Vec<u64>, p2: &Vec<u64>) -> (r: Vec<u64>)
        requires
            p1@.len() == p2@.len(),
        ensures
            r@.len() == p1@.len(),
            forall|k: int|
                0 <= k < r@.len() ==> #[trigger] r@[k] as int == negacyclic_coefficient(
                    p1@,
                    p2@,
                    k,
                ),
    {
        let n = p1.len();
        let mut r: Vec<u64> = Vec::with_capacity(n);
        let mut k: usize = 0;
        while k < n
            invariant
                n == p1@.len(),
                n == p2@.len(),
                k <= n,
                r@.len() == k,
                forall|j: int|
                    0 <= j < k ==> #[trigger] r@[j] as int == negacyclic_coefficient(p1@, p2@, j),
            decreases n - k,
        {
            let mut acc: u64 = 0;
            let mut i: usize = 0;
            while i < n
                invariant
                    n == p1@.len(),
                    n == p2@.len(),
                    k < n,
                    i <= n,
                    acc as int == negacyclic_sum(p1@, p2@, k as int, i as nat) % modulus(),
                decreases n - i,
            {
                let x = p1[i];
                let y = if i <= k {
                    p2[k - i]
                } else {
                    p2[n - i + k]
                };
                let p = x.wrapping_mul(y);
                proof {
                    let s = negacyclic_sum(p1@, p2@, k as int, i as nat);
                    let xy = x as int * y as int;
                    lemma_mod_bound(s, modulus());
                    lemma_mod_bound(xy, modulus());
                    lemma_add_mod_noop(s, xy, modulus());
                    lemma_sub_mod_noop(s, xy, modulus());
                    assert(negacyclic_sum(p1@, p2@, k as int, (i + 1) as nat) == s
                        + negacyclic_term(p1@, p2@, k as int, i as int));
                }
                if i <= k {
                    acc = acc.wrapping_add(p);
                } else {
                    acc = acc.wrapping_sub(p);
                }
                i += 1;
            }
            r.push(acc);
            k += 1;
        }
        r
    }

    /// Raw plaintexts made from random words, of which only the `n` most
    /// significant bits are kept: each word with its `64 - n` low bits cleared.
    pub fn most_significant_bits(words: &Vec<u64>, n: u64) -> (r: Vec<u64>)
        requires
            1 <= n <= 64,
        ensures
            r@.len() == words@.len(),
            forall|i: int|
                0 <= i < r@.len() ==> #[trigger] r@[i] as int == words@[i] as int - words@[i] as int
                    % pow2((64 - n) as nat) as int,
    {
        let shift: u64 = 64 - n;
        let mut r: Vec<u64> = Vec::with_capacity(words.len());
        let mut i: usize = 0;
        while i < words.len()
            invariant
                shift == 64 - n,
                1 <= n <= 64,
                i <= words@.len(),
                r@.len() == i,
                forall|j: int|
                    0 <= j < i ==> #[trigger] r@[j] as int == words@[j] as int - words@[j] as int
                        % pow2((64 - n) as nat) as int,
            decreases words@.len() - i,
        {
            let x = words[i];
            let q = x >> shift;
            proof {
                let p = pow2(shift as nat) as int;
                lemma_pow2_pos(shift as nat);
                lemma_u64_shr_is_div(x, shift);
                lemma_fundamental_div_mod(x as int, p);
                lemma_mod_bound(x as int, p);
                assert(q as int * p <= x as int) by (nonlinear_arith)
                    requires
                        x as int == p * (x as int / p) + x as int % p,
                        q as int == x as int / p,
                        x as int % p >= 0,
                ;
                lemma_u64_shl_is_mul(q, shift);
            }
            r.push(q << shift);
            i += 1;
        }
        r
    }

    /// Runs the engine's unchecked tensor product on a prepared context, and hands
    /// back the inputs together with the output.
    pub fn execute_engine<Engine, CiphertextIn1, CiphertextIn2, CiphertextOut, Cleartext>(
        engine: &mut Engine,
        context: (CiphertextIn1, CiphertextIn2, Cleartext),
    ) -> (r: (CiphertextIn1, CiphertextIn2, CiphertextOut, Cleartext)) where
        Engine: GlweCiphertextTensorProductEngine<
            CiphertextIn1,
            CiphertextIn2,
            CiphertextOut,
            Cleartext,
        >,
        CiphertextIn1: GlweCiphertextEntity,
        CiphertextIn2: GlweCiphertextEntity<KeyDistribution = CiphertextIn1::KeyDistribution>,
        CiphertextOut: GlweCiphertextEntity<KeyDistribution = CiphertextIn1::KeyDistribution>,
        Cleartext: CleartextEntity,

        requires
            glwe_shapes_match(context.0, context.1),
        ensures
            r.0 == context.0,
            r.1 == context.1,
            r.3 == context.2,
            old(engine).tensor_product_of(context.0, context.1, context.2, r.2),
    {
        let (ciphertext1, ciphertext2, scale) = context;
        let output = engine.tensor_product_glwe_ciphertext_unchecked(
            &ciphertext1,
            &ciphertext2,
            &scale,
        );
        (ciphertext1, ciphertext2, output, scale)
    }

    /// The decryption errors `actual[i] - expected[i]`, read as signed values
    /// modulo 2^64.
    pub fn signed_errors(expected: &Vec<u64>, actual: &Vec<u64>) -> (r: Vec<i64>)
        requires
            expected@.len() == actual@.len(),
        ensures
            r@.len() == expected@.len(),
            forall|i: int|
                0 <= i < r@.len() ==> #[trigger] r@[i] as int == centered(
                    actual@[i] as int - expected@[i] as int,
                ),
    {
        let mut r: Vec<i64> = Vec::with_capacity(expected.len());
        let mut i: usize = 0;
        while i < expected.len()
            invariant
                i <= expected@.len(),
                expected@.len() == actual@.len(),
                r@.len() == i,
                forall|j: int|
                    0 <= j < i ==> #[trigger] r@[j] as int == centered(
                        actual@[j] as int - expected@[j] as int,
                    ),
            decreases expected@.len() - i,
        {
            let d = actual[i].wrapping_sub(expected[i]);
            let e: i64 = if d <= 0x7fff_ffff_ffff_ffff {
                d as i64
            } else {
                let m = 0u64.wrapping_sub(d);
                if m == 0x8000_0000_0000_0000 {
                    i64::MIN
                } else {
                    -(m as i64)
                }
            };
            r.push(e);
            i += 1;
        }
        r
    }

    /// Splits the outcomes of all samples into the expected values and the
    /// decrypted values, each concatenated in sample order.
    pub fn collect_outcomes(outcomes: &Vec<(Vec<u64>, Vec<u64>)>) -> (r: (Vec<u64>, Vec<u64>))
        ensures
            r.0@ == expected_prefix(outcomes@, outcomes@.len()),
            r.1@ == actual_prefix(outcomes@, outcomes@.len()),
    {
        let mut expected: Vec<u64> = Vec::new();
        let mut actual: Vec<u64> = Vec::new();
        let mut i: usize = 0;
        while i < outcomes.len()
            invariant
                i <= outcomes@.len(),
                expected@ == expected_prefix(outcomes@, i as nat),
                actual@ == actual_prefix(outcomes@, i as nat),
            decreases outcomes@.len() - i,
        {
            append_all(&mut expected, &outcomes[i].0);
            append_all(&mut actual, &outcomes[i].1);
            i += 1;
        }
        (expected, actual)
    }
}

} // verus!
