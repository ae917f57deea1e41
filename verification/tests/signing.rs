use hmac::{Hmac, KeyInit, Mac};
use sha2::Sha256;
use zero2prod::signing::{hex_encode, sign, verify};

#[test]
fn verify_accepts_what_sign_produced() {
    let cases: &[(&[u8], &[u8])] = &[
        (b"error=Authentication%20failed", b"super-long-and-secret-random-key"),
        (b"", b"key"),
        (b"payload", b""),
        (b"a much longer payload that spans more than one block of the hash function, to exercise the key padding path", b"k"),
    ];
    for (payload, secret) in cases {
        let tag = sign(payload, secret);
        assert!(verify(payload, &tag, secret).is_ok());
    }
}

#[test]
fn flipping_any_single_byte_of_the_tag_fails_verification() {
    let payload = b"error=Authentication%20failed";
    let secret = b"super-long-and-secret-random-key";
    let tag = sign(payload, secret);
    assert_eq!(tag.len(), 32);
    for i in 0..tag.len() {
        let mut tampered = tag.clone();
        tampered[i] ^= 0x01;
        assert!(verify(payload, &tampered, secret).is_err());
    }
}

#[test]
fn verification_is_keyed_to_payload_and_secret() {
    let tag = sign(b"payload", b"secret");
    assert!(verify(b"payload!", &tag, b"secret").is_err());
    assert!(verify(b"payload", &tag, b"secret!").is_err());
    assert!(verify(b"payload", &tag[..31], b"secret").is_err());
}

#[test]
fn sign_computes_the_standard_hmac_sha256() {
    let mut mac = <Hmac<Sha256> as KeyInit>::new_from_slice(b"secret").unwrap();
    mac.update(b"payload");
    let expected = mac.finalize().into_bytes().to_vec();
    assert_eq!(sign(b"payload", b"secret"), expected);
}

#[test]
fn hex_encode_writes_two_lowercase_digits_per_byte() {
    assert_eq!(hex_encode(&[]), "");
    assert_eq!(hex_encode(&[0x00]), "00");
    assert_eq!(hex_encode(&[0xbe, 0xef]), "beef");
    assert_eq!(hex_encode(&[0x01, 0x23, 0x45, 0x67, 0x89, 0xab, 0xcd, 0xef]), "0123456789abcdef");
}
