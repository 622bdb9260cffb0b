//! RSA key introspection: parse a PEM-encoded RSA key (PKCS8 private or
//! SubjectPublicKeyInfo public), extract its numeric components, and derive
//! number-theoretic parameters (CRT exponents, Euler's totient, Carmichael
//! function) with exact big-integer arithmetic.

pub mod radix;
pub mod arith;
pub mod bigint;
pub mod keys;
pub mod laws;
