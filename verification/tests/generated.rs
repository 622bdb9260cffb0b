//! Round-trip tests on freshly generated keypairs: the private PEM analyzes
//! as a private key and the public PEM as a public key.

use rand::rngs::OsRng;
use rsa::pkcs8::{EncodePrivateKey, EncodePublicKey, LineEnding};
use rsa::{RsaPrivateKey, RsaPublicKey};
use rsa_introspect::keys::{analyze_rsa_key, KeyType, RsaKeyPair};

fn generate_keypair(bits: usize) -> RsaKeyPair {
    let mut rng = OsRng;
    let private_key = RsaPrivateKey::new(&mut rng, bits).expect("key generation");
    let public_key = RsaPublicKey::from(&private_key);
    RsaKeyPair {
        private_key: private_key.to_pkcs8_pem(LineEnding::LF).expect("private pem").to_string(),
        public_key: public_key.to_public_key_pem(LineEnding::LF).expect("public pem"),
    }
}

#[test]
fn generated_keypair_round_trip() {
    let pair = generate_keypair(512);

    let a = analyze_rsa_key(pair.private_key).expect("private analysis");
    assert!(matches!(a.key_type, KeyType::Private));
    assert_eq!(a.derived_params.unwrap().key_size_bits, 512);

    let b = analyze_rsa_key(pair.public_key).expect("public analysis");
    assert!(matches!(b.key_type, KeyType::Public));
    assert_eq!(b.public_params.unwrap().n_bits, 512);
    assert!(b.private_params.is_none());
    assert!(b.derived_params.is_none());
}
