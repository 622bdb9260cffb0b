//! Parsing and introspection of RSA keys.
//!
//! A PEM-encoded key (PKCS8 private or SubjectPublicKeyInfo public) is
//! decoded into its big-integer components; from those the public
//! parameters, the private parameters with their CRT exponents, and the
//! derived number-theoretic values are computed, every numeric field
//! rendered in decimal and lowercase hexadecimal.

use vstd::prelude::*;

use num_bigint_dig::BigUint;
use rsa::pkcs8::DecodePrivateKey;
use rsa::pkcs8::DecodePublicKey;
use rsa::traits::PrivateKeyParts;
use rsa::traits::PublicKeyParts;

use crate::arith::{gcd, lcm};
use crate::bigint::{
    biguint_bits, biguint_clone, biguint_from_u64, biguint_lcm, biguint_mod_inverse, biguint_mul,
    biguint_rem, biguint_sub_one, biguint_to_str_radix, nat_of,
};
use crate::radix::{bit_len, dec_val, lemma_radix_round_trip, radix_seq};

verus! {

/// A freshly generated keypair, both halves PEM-encoded.
#[derive(Debug, Clone)]
pub struct RsaKeyPair {
    pub private_key: String,
    pub public_key: String,
}

/// Whether a parsed key carries only public material or the full private
/// components.
#[derive(Debug, PartialEq, Eq, Structural)]
pub enum KeyType {
    Public,
    Private,
}

/// The single error this library reports: the input is not a recognizable
/// RSA key. Which decoder failed is deliberately not surfaced.
#[derive(Debug)]
pub enum UtilityError {
    InvalidInput(String),
}

/// The modulus and public exponent of a parsed key.
pub struct PublicComponents {
    pub n: BigUint,
    pub e: BigUint,
}

/// The full components of a parsed private key; the primes keep the order
/// the key format stores them in, `p` before `q`.
pub struct PrivateComponents {
    pub n: BigUint,
    pub e: BigUint,
    pub d: BigUint,
    pub p: BigUint,
    pub q: BigUint,
}

/// A key as the parser classified it.
pub enum ParsedKey {
    Public(PublicComponents),
    Private(PrivateComponents),
}

/// The components that decoding the given text as a PKCS8 private key
/// yields — modulus, public exponent, private exponent, first and second
/// prime — or nothing when the text does not decode. The decode is a pure
/// function of the text.
pub uninterp spec fn pkcs8_private_components(s: Seq<char>) -> Option<(nat, nat, nat, nat, nat)>;

/// The modulus and public exponent that decoding the given text as a
/// SubjectPublicKeyInfo public key yields, or nothing when the text does
/// not decode. The decode is a pure function of the text.
pub uninterp spec fn spki_public_components(s: Seq<char>) -> Option<(nat, nat)>;

/// What decoding a public key guarantees of its components: the modulus is
/// odd and at most 4096 bits, the public exponent is odd, at least two and
/// below the modulus.
pub open spec fn public_wf(c: PublicComponents) -> bool {
    &&& nat_of(c.n) % 2 == 1
    &&& bit_len(nat_of(c.n)) <= 4096
    &&& nat_of(c.e) % 2 == 1
    &&& nat_of(c.e) >= 2
    &&& nat_of(c.e) < nat_of(c.n)
}

/// What decoding a private key guarantees of its components: two primes
/// greater than one whose product is the modulus, a public exponent that is
/// odd, at least two and below the modulus, and a private exponent whose
/// product with the public exponent is congruent to one modulo each prime
/// minus one.
pub open spec fn private_wf(c: PrivateComponents) -> bool {
    &&& nat_of(c.p) >= 2
    &&& nat_of(c.q) >= 2
    &&& nat_of(c.n) == nat_of(c.p) * nat_of(c.q)
    &&& nat_of(c.e) % 2 == 1
    &&& nat_of(c.e) >= 2
    &&& nat_of(c.e) < nat_of(c.n)
    &&& (nat_of(c.e) * nat_of(c.d)) % ((nat_of(c.p) - 1) as nat) == 1
    &&& (nat_of(c.e) * nat_of(c.d)) % ((nat_of(c.q) - 1) as nat) == 1
}

/// Well-formedness of a parsed key, by variant.
pub open spec fn key_wf(k: ParsedKey) -> bool {
    match k {
        ParsedKey::Public(c) => public_wf(c),
        ParsedKey::Private(c) => private_wf(c),
    }
}

/// The public parameters of a key: modulus and exponent in decimal and
/// hexadecimal, and the modulus bit length.
#[derive(Debug)]
pub struct PublicKeyParams {
    pub n: String,
    pub e: String,
    pub n_hex: String,
    pub e_hex: String,
    pub n_bits: usize,
}

/// The private parameters of a key: modulus, exponents, primes and CRT
/// values, each in decimal and hexadecimal.
#[derive(Debug)]
pub struct PrivateKeyParams {
    pub n: String,
    pub e: String,
    pub d: String,
    pub p: String,
    pub q: String,
    pub dp: String,
    pub dq: String,
    pub qinv: String,
    pub n_hex: String,
    pub e_hex: String,
    pub d_hex: String,
    pub p_hex: String,
    pub q_hex: String,
    pub dp_hex: String,
    pub dq_hex: String,
    pub qinv_hex: String,
}

/// Values derived from the private components: Euler's totient, the
/// Carmichael function, the primes less one, and the key size.
#[derive(Debug)]
pub struct DerivedParams {
    pub phi_n: String,
    pub lambda_n: String,
    pub p_minus_1: String,
    pub q_minus_1: String,
    pub key_size_bits: u32,
    pub key_size_bytes: u32,
}

/// A security assessment of a key size.
#[derive(Debug)]
pub struct SecurityInfo {
    pub recommended_minimum_bits: u32,
    pub is_secure: bool,
    pub security_level: String,
    pub vulnerabilities: Vec<String>,
    pub recommendations: Vec<String>,
}

/// Digests of a key's public half.
#[derive(Debug)]
pub struct KeyFingerprint {
    pub sha256: String,
    pub sha1: String,
    pub md5: String,
}

/// The complete analysis of one key: its type, its size, and its parameter
/// sets; the private and derived sets are present exactly for private keys.
#[derive(Debug)]
pub struct RsaKeyAnalysis {
    pub key_type: KeyType,
    pub key_size: u32,
    pub public_params: Option<PublicKeyParams>,
    pub private_params: Option<PrivateKeyParams>,
    pub derived_params: Option<DerivedParams>,
}

/// The low 32 bits of a natural number, as a `u32` cast truncates them.
pub open spec fn truncate_u32(n: nat) -> u32 {
    (n % 0x100000000) as u32
}

/// A decimal and a hexadecimal string that render one and the same value,
/// each in canonical form.
pub open spec fn canonical_pair(s10: Seq<char>, s16: Seq<char>) -> bool {
    &&& s10 == radix_seq(dec_val(s10), 10)
    &&& s16 == radix_seq(dec_val(s10), 16)
}

/// What holds of a produced set of public parameters.
pub open spec fn public_params_ok(p: PublicKeyParams) -> bool {
    &&& canonical_pair(p.n@, p.n_hex@)
    &&& canonical_pair(p.e@, p.e_hex@)
    &&& p.n_bits == bit_len(dec_val(p.n@))
}

/// What holds of a produced set of private parameters: every field is a
/// canonical rendering, the primes multiply to the modulus, the CRT
/// exponents are the private exponent reduced modulo each prime minus one,
/// and the CRT coefficient is below `p` and is an inverse of `q` modulo
/// `p` exactly when one exists, the zero fallback otherwise.
pub open spec fn private_params_ok(pp: PrivateKeyParams) -> bool {
    let n = dec_val(pp.n@);
    let e = dec_val(pp.e@);
    let d = dec_val(pp.d@);
    let p = dec_val(pp.p@);
    let q = dec_val(pp.q@);
    let dp = dec_val(pp.dp@);
    let dq = dec_val(pp.dq@);
    let qinv = dec_val(pp.qinv@);
    &&& canonical_pair(pp.n@, pp.n_hex@)
    &&& canonical_pair(pp.e@, pp.e_hex@)
    &&& canonical_pair(pp.d@, pp.d_hex@)
    &&& canonical_pair(pp.p@, pp.p_hex@)
    &&& canonical_pair(pp.q@, pp.q_hex@)
    &&& canonical_pair(pp.dp@, pp.dp_hex@)
    &&& canonical_pair(pp.dq@, pp.dq_hex@)
    &&& canonical_pair(pp.qinv@, pp.qinv_hex@)
    &&& p >= 2
    &&& q >= 2
    &&& n == p * q
    &&& e % 2 == 1
    &&& e >= 2
    &&& e < n
    &&& (e * d) % ((p - 1) as nat) == 1
    &&& (e * d) % ((q - 1) as nat) == 1
    &&& dp == d % ((p - 1) as nat)
    &&& dq == d % ((q - 1) as nat)
    &&& qinv < p
    &&& (gcd(q, p) == 1 ==> (qinv * q) % p == 1)
    &&& (gcd(q, p) != 1 ==> qinv == 0)
}

/// What holds of a produced set of derived parameters for primes `p`, `q`
/// and a modulus of `nbits` bits.
pub open spec fn derived_params_ok(dv: DerivedParams, p: nat, q: nat, nbits: nat) -> bool {
    &&& p >= 2
    &&& q >= 2
    &&& dv.p_minus_1@ == radix_seq((p - 1) as nat, 10)
    &&& dv.q_minus_1@ == radix_seq((q - 1) as nat, 10)
    &&& dv.phi_n@ == radix_seq(((p - 1) * (q - 1)) as nat, 10)
    &&& dv.lambda_n@ == radix_seq(lcm((p - 1) as nat, (q - 1) as nat), 10)
    &&& dv.key_size_bits == truncate_u32(nbits)
    &&& dv.key_size_bytes == dv.key_size_bits / 8
}

/// The invariant of a successful analysis: the optional parameter sets
/// agree with the key type, every numeric field is a canonical rendering,
/// and the rendered values stand in the arithmetic relations the derivation
/// computes.
pub open spec fn analysis_ok(a: RsaKeyAnalysis) -> bool {
    match a.key_type {
        KeyType::Public => match (a.public_params, a.private_params, a.derived_params) {
            (Some(pubp), None, None) => {
                &&& public_params_ok(pubp)
                &&& a.key_size == truncate_u32(bit_len(dec_val(pubp.n@)))
            },
            _ => false,
        },
        KeyType::Private => match (a.public_params, a.private_params, a.derived_params) {
            (Some(pubp), Some(privp), Some(der)) => {
                &&& public_params_ok(pubp)
                &&& private_params_ok(privp)
                &&& dec_val(pubp.n@) == dec_val(privp.n@)
                &&& dec_val(pubp.e@) == dec_val(privp.e@)
                &&& derived_params_ok(
                    der,
                    dec_val(privp.p@),
                    dec_val(privp.q@),
                    bit_len(dec_val(privp.n@)),
                )
                &&& a.key_size == truncate_u32(bit_len(dec_val(privp.n@)))
            },
            _ => false,
        },
    }
}

/// Relies on `rsa::RsaPrivateKey::from_pkcs8_pem` and the accessors `n`,
/// `e`, `d` and `primes`: a PKCS8 private key decodes to exactly two primes
/// (multi-prime keys are rejected), and construction validates that each
/// prime exceeds one, that the product of the primes is the modulus, that
/// the public exponent is odd, at least two and below the odd modulus, and
/// that d*e is congruent to one modulo each prime minus one.
#[verifier::external_body]
fn parse_private_key_pem(pem: &str) -> (r: Option<PrivateComponents>)
    ensures
        r is Some <==> pkcs8_private_components(pem@) is Some,
        r matches Some(c) ==> private_wf(c) && pkcs8_private_components(pem@) == Some(
            (nat_of(c.n), nat_of(c.e), nat_of(c.d), nat_of(c.p), nat_of(c.q)),
        ),
{
    let k = rsa::RsaPrivateKey::from_pkcs8_pem(pem).ok()?;
    let primes = k.primes();
    Some(PrivateComponents {
        n: k.n().clone(),
        e: k.e().clone(),
        d: k.d().clone(),
        p: primes[0].clone(),
        q: primes[1].clone(),
    })
}

/// Relies on `rsa::RsaPublicKey::from_public_key_pem` and the accessors `n`
/// and `e`: construction checks that the modulus is odd and at most 4096
/// bits and that the public exponent is odd, at least two and below the
/// modulus.
#[verifier::external_body]
fn parse_public_key_pem(pem: &str) -> (r: Option<PublicComponents>)
    ensures
        r is Some <==> spki_public_components(pem@) is Some,
        r matches Some(c) ==> public_wf(c) && spki_public_components(pem@) == Some(
            (nat_of(c.n), nat_of(c.e)),
        ),
{
    let k = rsa::RsaPublicKey::from_public_key_pem(pem).ok()?;
    Some(PublicComponents { n: k.n().clone(), e: k.e().clone() })
}

impl PrivateComponents {
    /// The public counterpart of a private key: the same modulus and public
    /// exponent.
    pub fn to_public(&self) -> (r: PublicComponents)
        ensures
            nat_of(r.n) == nat_of(self.n),
            nat_of(r.e) == nat_of(self.e),
    {
        PublicComponents { n: biguint_clone(&self.n), e: biguint_clone(&self.e) }
    }
}

/// Classify PEM text as a private or a public RSA key, trying the private
/// decoding first; when neither decoding succeeds, report the one generic
/// `InvalidInput` failure.
pub fn parse_rsa_key(pem: &str) -> (r: Result<ParsedKey, UtilityError>)
    ensures
        r matches Ok(k) ==> key_wf(k),
        r is Ok <==> (pkcs8_private_components(pem@) is Some || spki_public_components(pem@)
            is Some),
        r matches Ok(k) ==> (k is Private <==> pkcs8_private_components(pem@) is Some),
        r matches Ok(k) ==> match k {
            ParsedKey::Private(c) => pkcs8_private_components(pem@) == Some(
                (nat_of(c.n), nat_of(c.e), nat_of(c.d), nat_of(c.p), nat_of(c.q)),
            ),
            ParsedKey::Public(c) => spki_public_components(pem@) == Some(
                (nat_of(c.n), nat_of(c.e)),
            ),
        },
        r matches Err(e) ==> (e matches UtilityError::InvalidInput(m) && m@
            == "Invalid RSA key format"@),
{
    match parse_private_key_pem(pem) {
        Some(c) => Ok(ParsedKey::Private(c)),
        None => match parse_public_key_pem(pem) {
            Some(c) => Ok(ParsedKey::Public(c)),
            None => Err(UtilityError::InvalidInput(String::from_str("Invalid RSA key format"))),
        },
    }
}

/// Render the public parameters of a key: modulus and exponent in decimal
/// and hexadecimal, and the modulus bit length. Total: any components
/// render.
pub fn extract_rsa_public_key_params(key: &PublicComponents) -> (r: PublicKeyParams)
    ensures
        r.n@ == radix_seq(nat_of(key.n), 10),
        r.n_hex@ == radix_seq(nat_of(key.n), 16),
        r.e@ == radix_seq(nat_of(key.e), 10),
        r.e_hex@ == radix_seq(nat_of(key.e), 16),
        r.n_bits == bit_len(nat_of(key.n)),
        public_params_ok(r),
{
    let n_bits = biguint_bits(&key.n);
    let r = PublicKeyParams {
        n: biguint_to_str_radix(&key.n, 10),
        e: biguint_to_str_radix(&key.e, 10),
        n_hex: biguint_to_str_radix(&key.n, 16),
        e_hex: biguint_to_str_radix(&key.e, 16),
        n_bits,
    };
    proof {
        lemma_radix_round_trip(nat_of(key.n), 10);
        lemma_radix_round_trip(nat_of(key.e), 10);
    }
    r
}

/// Render the private parameters: the five stored components and the three
/// CRT values `dp = d mod (p-1)`, `dq = d mod (q-1)` and `qinv`, the
/// modular inverse of `q` modulo `p` below `p` when one exists and zero
/// otherwise, each in decimal and hexadecimal.
pub fn extract_rsa_private_key_params(key: &PrivateComponents) -> (r: PrivateKeyParams)
    requires
        nat_of(key.p) >= 2,
        nat_of(key.q) >= 2,
    ensures
        r.n@ == radix_seq(nat_of(key.n), 10),
        r.e@ == radix_seq(nat_of(key.e), 10),
        r.d@ == radix_seq(nat_of(key.d), 10),
        r.p@ == radix_seq(nat_of(key.p), 10),
        r.q@ == radix_seq(nat_of(key.q), 10),
        r.dp@ == radix_seq(nat_of(key.d) % ((nat_of(key.p) - 1) as nat), 10),
        r.dq@ == radix_seq(nat_of(key.d) % ((nat_of(key.q) - 1) as nat), 10),
        r.n_hex@ == radix_seq(nat_of(key.n), 16),
        r.e_hex@ == radix_seq(nat_of(key.e), 16),
        r.d_hex@ == radix_seq(nat_of(key.d), 16),
        r.p_hex@ == radix_seq(nat_of(key.p), 16),
        r.q_hex@ == radix_seq(nat_of(key.q), 16),
        r.dp_hex@ == radix_seq(nat_of(key.d) % ((nat_of(key.p) - 1) as nat), 16),
        r.dq_hex@ == radix_seq(nat_of(key.d) % ((nat_of(key.q) - 1) as nat), 16),
        r.qinv@ == radix_seq(dec_val(r.qinv@), 10),
        r.qinv_hex@ == radix_seq(dec_val(r.qinv@), 16),
        dec_val(r.qinv@) < nat_of(key.p),
        gcd(nat_of(key.q), nat_of(key.p)) == 1 ==> (dec_val(r.qinv@) * nat_of(key.q)) % nat_of(
            key.p,
        ) == 1,
        gcd(nat_of(key.q), nat_of(key.p)) != 1 ==> dec_val(r.qinv@) == 0,
        private_wf(*key) ==> private_params_ok(r),
{
    let p_minus_1 = biguint_sub_one(&key.p);
    let q_minus_1 = biguint_sub_one(&key.q);
    let dp = biguint_rem(&key.d, &p_minus_1);
    let dq = biguint_rem(&key.d, &q_minus_1);
    let qinv = match biguint_mod_inverse(&key.q, &key.p) {
        Some(inv) => inv,
        None => biguint_from_u64(0),
    };
    let r = PrivateKeyParams {
        n: biguint_to_str_radix(&key.n, 10),
        e: biguint_to_str_radix(&key.e, 10),
        d: biguint_to_str_radix(&key.d, 10),
        p: biguint_to_str_radix(&key.p, 10),
        q: biguint_to_str_radix(&key.q, 10),
        dp: biguint_to_str_radix(&dp, 10),
        dq: biguint_to_str_radix(&dq, 10),
        qinv: biguint_to_str_radix(&qinv, 10),
        n_hex: biguint_to_str_radix(&key.n, 16),
        e_hex: biguint_to_str_radix(&key.e, 16),
        d_hex: biguint_to_str_radix(&key.d, 16),
        p_hex: biguint_to_str_radix(&key.p, 16),
        q_hex: biguint_to_str_radix(&key.q, 16),
        dp_hex: biguint_to_str_radix(&dp, 16),
        dq_hex: biguint_to_str_radix(&dq, 16),
        qinv_hex: biguint_to_str_radix(&qinv, 16),
    };
    proof {
        lemma_radix_round_trip(nat_of(key.n), 10);
        lemma_radix_round_trip(nat_of(key.e), 10);
        lemma_radix_round_trip(nat_of(key.d), 10);
        lemma_radix_round_trip(nat_of(key.p), 10);
        lemma_radix_round_trip(nat_of(key.q), 10);
        lemma_radix_round_trip(nat_of(dp), 10);
        lemma_radix_round_trip(nat_of(dq), 10);
        lemma_radix_round_trip(nat_of(qinv), 10);
    }
    r
}

/// Derive the number-theoretic values of a private key: Euler's totient
/// `(p-1)(q-1)`, the Carmichael function `lcm(p-1, q-1)`, the primes less
/// one, and the key size in bits and bytes (bytes by truncating division,
/// as the stored bit length is divided by eight).
pub fn calculate_rsa_derived_params(key: &PrivateComponents) -> (r: DerivedParams)
    requires
        nat_of(key.p) >= 2,
        nat_of(key.q) >= 2,
    ensures
        r.p_minus_1@ == radix_seq((nat_of(key.p) - 1) as nat, 10),
        r.q_minus_1@ == radix_seq((nat_of(key.q) - 1) as nat, 10),
        r.phi_n@ == radix_seq(((nat_of(key.p) - 1) * (nat_of(key.q) - 1)) as nat, 10),
        r.lambda_n@ == radix_seq(lcm((nat_of(key.p) - 1) as nat, (nat_of(key.q) - 1) as nat), 10),
        r.key_size_bits == truncate_u32(bit_len(nat_of(key.n))),
        r.key_size_bytes == r.key_size_bits / 8,
        derived_params_ok(r, nat_of(key.p), nat_of(key.q), bit_len(nat_of(key.n))),
{
    let p_minus_1 = biguint_sub_one(&key.p);
    let q_minus_1 = biguint_sub_one(&key.q);
    let phi_n = biguint_mul(&p_minus_1, &q_minus_1);
    let lambda_n = biguint_lcm(&p_minus_1, &q_minus_1);
    let n_bits = biguint_bits(&key.n);
    let key_size_bits: u32 = ((n_bits as u64) % 0x100000000) as u32;
    let key_size_bytes: u32 = key_size_bits / 8;
    DerivedParams {
        phi_n: biguint_to_str_radix(&phi_n, 10),
        lambda_n: biguint_to_str_radix(&lambda_n, 10),
        p_minus_1: biguint_to_str_radix(&p_minus_1, 10),
        q_minus_1: biguint_to_str_radix(&q_minus_1, 10),
        key_size_bits,
        key_size_bytes,
    }
}

/// The key size the analysis reports: the stored bit length of the
/// modulus, truncated to the 32 bits the result field holds.
fn stored_key_size(n_bits: usize) -> (r: u32)
    ensures
        r == truncate_u32(n_bits as nat),
{
    ((n_bits as u64) % 0x100000000) as u32
}

/// What a complete analysis of the given text says: success exactly when
/// one of the two decodes succeeds, the private classification exactly for
/// a private-key decode, the rendered components equal to the decoded
/// ones, and the one generic error otherwise.
pub open spec fn analysis_matches_text(s: Seq<char>, r: Result<
    RsaKeyAnalysis,
    UtilityError,
>) -> bool {
    match r {
        Ok(a) => {
            &&& analysis_ok(a)
            &&& (a.key_type is Private <==> pkcs8_private_components(s) is Some)
            &&& match pkcs8_private_components(s) {
                Some(t) => match a.private_params {
                    Some(pp) => {
                        &&& dec_val(pp.n@) == t.0
                        &&& dec_val(pp.e@) == t.1
                        &&& dec_val(pp.d@) == t.2
                        &&& dec_val(pp.p@) == t.3
                        &&& dec_val(pp.q@) == t.4
                    },
                    None => false,
                },
                None => match (spki_public_components(s), a.public_params) {
                    (Some(t), Some(pb)) => dec_val(pb.n@) == t.0 && dec_val(pb.e@) == t.1,
                    _ => false,
                },
            }
        },
        Err(e) => {
            &&& pkcs8_private_components(s) is None
            &&& spki_public_components(s) is None
            &&& (e matches UtilityError::InvalidInput(m) && m@ == "Invalid RSA key format"@)
        },
    }
}

/// Analyze PEM text as an RSA key: classify it, extract its public (and,
/// for a private key, private) parameters, and derive its number-theoretic
/// values. Success comes exactly when the text decodes as one of the two
/// key forms; anything else yields the single `InvalidInput` error.
pub fn analyze_rsa_key(key: String) -> (r: Result<RsaKeyAnalysis, UtilityError>)
    ensures
        analysis_matches_text(key@, r),
        r matches Ok(a) ==> analysis_ok(a),
{
    match parse_rsa_key(key.as_str()) {
        Ok(ParsedKey::Private(c)) => {
            let public_half = c.to_public();
            let public_params = extract_rsa_public_key_params(&public_half);
            let private_params = extract_rsa_private_key_params(&c);
            let derived_params = calculate_rsa_derived_params(&c);
            let n_bits = biguint_bits(&c.n);
            let key_size = stored_key_size(n_bits);
            proof {
                lemma_radix_round_trip(nat_of(c.n), 10);
                lemma_radix_round_trip(nat_of(c.e), 10);
                lemma_radix_round_trip(nat_of(c.d), 10);
                lemma_radix_round_trip(nat_of(c.p), 10);
                lemma_radix_round_trip(nat_of(c.q), 10);
            }
            Ok(
                (RsaKeyAnalysis {
                    key_type: KeyType::Private,
                    key_size,
                    public_params: Some(public_params),
                    private_params: Some(private_params),
                    derived_params: Some(derived_params),
                }),
            )
        },
        Ok(ParsedKey::Public(c)) => {
            let public_params = extract_rsa_public_key_params(&c);
            let n_bits = biguint_bits(&c.n);
            let key_size = stored_key_size(n_bits);
            proof {
                lemma_radix_round_trip(nat_of(c.n), 10);
                lemma_radix_round_trip(nat_of(c.e), 10);
            }
            Ok(
                (RsaKeyAnalysis {
                    key_type: KeyType::Public,
                    key_size,
                    public_params: Some(public_params),
                    private_params: None,
                    derived_params: None,
                }),
            )
        },
        Err(e) => Err(e),
    }
}

} // verus!
