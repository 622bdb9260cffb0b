//! Laws of the analysis: facts that hold of every successful key analysis,
//! stated over the values its rendered fields denote and proved from the
//! contracts of the parsing and derivation functions.

use vstd::prelude::*;

use crate::arith::{gcd, lcm, lemma_lcm_divides_product};
use crate::keys::{analysis_ok, canonical_pair, truncate_u32, KeyType, RsaKeyAnalysis};
use crate::radix::{bit_len, dec_val, hex_val, lemma_bit_len_product, lemma_radix_round_trip};

verus! {

/// A canonical decimal/hexadecimal pair denotes one value: reading the
/// hexadecimal field in base sixteen yields the same number as reading the
/// decimal field in base ten.
pub proof fn lemma_canonical_pair_consistent(s10: Seq<char>, s16: Seq<char>)
    requires
        canonical_pair(s10, s16),
    ensures
        hex_val(s16) == dec_val(s10),
{
    lemma_radix_round_trip(dec_val(s10), 16);
}

/// Radix consistency: in every successful analysis, each numeric field
/// parses to the same value from its hexadecimal form as from its decimal
/// form.
pub proof fn lemma_radix_consistency(a: RsaKeyAnalysis)
    requires
        analysis_ok(a),
    ensures
        match a.public_params {
            Some(p) => {
                &&& hex_val(p.n_hex@) == dec_val(p.n@)
                &&& hex_val(p.e_hex@) == dec_val(p.e@)
            },
            None => false,
        },
        match a.private_params {
            Some(pp) => {
                &&& hex_val(pp.n_hex@) == dec_val(pp.n@)
                &&& hex_val(pp.e_hex@) == dec_val(pp.e@)
                &&& hex_val(pp.d_hex@) == dec_val(pp.d@)
                &&& hex_val(pp.p_hex@) == dec_val(pp.p@)
                &&& hex_val(pp.q_hex@) == dec_val(pp.q@)
                &&& hex_val(pp.dp_hex@) == dec_val(pp.dp@)
                &&& hex_val(pp.dq_hex@) == dec_val(pp.dq@)
                &&& hex_val(pp.qinv_hex@) == dec_val(pp.qinv@)
            },
            None => a.key_type is Public,
        },
{
    match a.public_params {
        Some(p) => {
            lemma_canonical_pair_consistent(p.n@, p.n_hex@);
            lemma_canonical_pair_consistent(p.e@, p.e_hex@);
        },
        None => {},
    }
    match a.private_params {
        Some(pp) => {
            lemma_canonical_pair_consistent(pp.n@, pp.n_hex@);
            lemma_canonical_pair_consistent(pp.e@, pp.e_hex@);
            lemma_canonical_pair_consistent(pp.d@, pp.d_hex@);
            lemma_canonical_pair_consistent(pp.p@, pp.p_hex@);
            lemma_canonical_pair_consistent(pp.q@, pp.q_hex@);
            lemma_canonical_pair_consistent(pp.dp@, pp.dp_hex@);
            lemma_canonical_pair_consistent(pp.dq@, pp.dq_hex@);
            lemma_canonical_pair_consistent(pp.qinv@, pp.qinv_hex@);
        },
        None => {},
    }
}

/// Modulus factorization: in every private-key analysis the values of the
/// two rendered primes multiply to the value of the rendered modulus.
pub proof fn lemma_modulus_factorization(a: RsaKeyAnalysis)
    requires
        analysis_ok(a),
        a.key_type is Private,
    ensures
        match a.private_params {
            Some(pp) => dec_val(pp.p@) * dec_val(pp.q@) == dec_val(pp.n@),
            None => false,
        },
{
}

/// CRT correctness: in every private-key analysis, `dp` and `dq` are the
/// private exponent reduced modulo each prime minus one, and the CRT
/// coefficient is below `p` and is an inverse of `q` modulo `p` exactly
/// when one exists, the zero fallback otherwise; in particular, whenever it
/// is not zero, multiplying it by `q` leaves a remainder of one modulo `p`.
pub proof fn lemma_crt_correctness(a: RsaKeyAnalysis)
    requires
        analysis_ok(a),
        a.key_type is Private,
    ensures
        match a.private_params {
            Some(pp) => {
                &&& dec_val(pp.dp@) == dec_val(pp.d@) % ((dec_val(pp.p@) - 1) as nat)
                &&& dec_val(pp.dq@) == dec_val(pp.d@) % ((dec_val(pp.q@) - 1) as nat)
                &&& dec_val(pp.qinv@) < dec_val(pp.p@)
                &&& (gcd(dec_val(pp.q@), dec_val(pp.p@)) == 1 ==> (dec_val(pp.qinv@) * dec_val(
                    pp.q@,
                )) % dec_val(pp.p@) == 1)
                &&& (gcd(dec_val(pp.q@), dec_val(pp.p@)) != 1 ==> dec_val(pp.qinv@) == 0)
                &&& (dec_val(pp.qinv@) != 0 ==> (dec_val(pp.qinv@) * dec_val(pp.q@)) % dec_val(
                    pp.p@,
                ) == 1)
            },
            None => false,
        },
{
}

/// Size derivation: in every analysis of a key whose modulus has `b` bits,
/// with `b` below the 32-bit bound the result fields hold, the reported
/// key size is `b` and, for a private key, the derived sizes are `b` bits
/// and `b / 8` bytes.
pub proof fn lemma_size_derivation(a: RsaKeyAnalysis, b: nat)
    requires
        analysis_ok(a),
        b < 0x100000000,
        match a.public_params {
            Some(p) => bit_len(dec_val(p.n@)) == b,
            None => false,
        },
    ensures
        a.key_size == b,
        a.key_type is Private ==> match a.derived_params {
            Some(der) => der.key_size_bits == b && der.key_size_bytes == b / 8,
            None => false,
        },
{
    assert(truncate_u32(b) == b);
}

/// Derived-value consistency: in every private-key analysis the rendered
/// derived fields denote exactly the values computed from the rendered
/// primes: `p-1`, `q-1`, their product (Euler's totient of the modulus),
/// and their least common multiple (the Carmichael function).
pub proof fn lemma_derived_values(a: RsaKeyAnalysis)
    requires
        analysis_ok(a),
        a.key_type is Private,
    ensures
        match (a.private_params, a.derived_params) {
            (Some(pp), Some(der)) => {
                &&& dec_val(der.p_minus_1@) == dec_val(pp.p@) - 1
                &&& dec_val(der.q_minus_1@) == dec_val(pp.q@) - 1
                &&& dec_val(der.phi_n@) == (dec_val(pp.p@) - 1) * (dec_val(pp.q@) - 1)
                &&& dec_val(der.lambda_n@) == lcm(
                    (dec_val(pp.p@) - 1) as nat,
                    (dec_val(pp.q@) - 1) as nat,
                )
            },
            _ => false,
        },
{
    match (a.private_params, a.derived_params) {
        (Some(pp), Some(der)) => {
            let p = dec_val(pp.p@);
            let q = dec_val(pp.q@);
            lemma_radix_round_trip((p - 1) as nat, 10);
            lemma_radix_round_trip((q - 1) as nat, 10);
            lemma_radix_round_trip(((p - 1) * (q - 1)) as nat, 10);
            lemma_radix_round_trip(lcm((p - 1) as nat, (q - 1) as nat), 10);
        },
        _ => {},
    }
}

/// Prime sizes: in every private-key analysis the bit lengths of the two
/// rendered primes sum to the bit length of the rendered modulus, or to
/// one more; for a modulus of 1024 bits the primes are in that sense each
/// about half its size.
pub proof fn lemma_prime_sizes(a: RsaKeyAnalysis)
    requires
        analysis_ok(a),
        a.key_type is Private,
    ensures
        match a.private_params {
            Some(pp) => {
                &&& bit_len(dec_val(pp.n@)) <= bit_len(dec_val(pp.p@)) + bit_len(dec_val(pp.q@))
                &&& bit_len(dec_val(pp.p@)) + bit_len(dec_val(pp.q@)) <= bit_len(dec_val(pp.n@))
                    + 1
            },
            None => false,
        },
{
    match a.private_params {
        Some(pp) => {
            lemma_bit_len_product(dec_val(pp.p@), dec_val(pp.q@));
        },
        None => {},
    }
}

/// Totient/Carmichael relation: in every private-key analysis the rendered
/// Carmichael value is positive and divides the rendered totient.
pub proof fn lemma_totient_carmichael(a: RsaKeyAnalysis)
    requires
        analysis_ok(a),
        a.key_type is Private,
    ensures
        match a.derived_params {
            Some(der) => {
                &&& dec_val(der.lambda_n@) >= 1
                &&& dec_val(der.phi_n@) % dec_val(der.lambda_n@) == 0
            },
            None => false,
        },
{
    match (a.private_params, a.derived_params) {
        (Some(pp), Some(der)) => {
            let p = dec_val(pp.p@);
            let q = dec_val(pp.q@);
            lemma_radix_round_trip(((p - 1) * (q - 1)) as nat, 10);
            lemma_radix_round_trip(lcm((p - 1) as nat, (q - 1) as nat), 10);
            lemma_lcm_divides_product((p - 1) as nat, (q - 1) as nat);
        },
        _ => {},
    }
}

} // verus!
