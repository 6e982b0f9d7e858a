use kwrap::codec::decode_base64;
use kwrap::container::{FormatError, KwrapFile};
use kwrap::crypto::{pbkdf2, sha256, Aes256Gcm, AuthenticationError};
use kwrap::local::{decrypt_container, VaultError};
use ring::aead::{Aad, LessSafeKey, Nonce, UnboundKey, AES_256_GCM};

const MAGIC: [u8; 6] = [0xff, 0x4b, 0x57, 0x52, 0x41, 0x50];

fn seal(key: &[u8; 32], nonce: [u8; 12], plaintext: &[u8]) -> Vec<u8> {
    let k = LessSafeKey::new(UnboundKey::new(&AES_256_GCM, key).unwrap());
    let mut body = plaintext.to_vec();
    k.seal_in_place_append_tag(Nonce::assume_unique_for_key(nonce), Aad::empty(), &mut body)
        .unwrap();
    let mut out = nonce.to_vec();
    out.extend_from_slice(&body);
    out
}

fn container(version: u8, salt: &[u8; 32], iterations: u32, data: &[u8]) -> Vec<u8> {
    let mut b = MAGIC.to_vec();
    b.push(version);
    b.extend_from_slice(salt);
    b.extend_from_slice(&iterations.to_be_bytes());
    b.extend_from_slice(data);
    b
}

fn fixed_salt() -> [u8; 32] {
    let mut s = [0u8; 32];
    for (i, b) in s.iter_mut().enumerate() {
        *b = (i as u8).wrapping_mul(7).wrapping_add(3);
    }
    s
}

#[test]
fn sha256_hex_digest() {
    assert_eq!(
        sha256("abc"),
        "ba7816bf8f01cfea414140de5dae2223b00361a396177a9cb410ff61f20015ad"
    );
    assert_eq!(sha256("").len(), 64);
    assert_eq!(
        sha256("alice"),
        "2bd806c97f0e00af1a1fc3328fa763a9269723c8db8fac4f93af71db186d6e90"
    );
}

#[test]
fn pbkdf2_known_vectors() {
    assert_eq!(
        hex::encode(pbkdf2(b"password", b"salt", 1)),
        "120fb6cffcf8b32c43e7225256c4f837a86548c92ccc35480805987cb70be17b"
    );
    assert_eq!(
        hex::encode(pbkdf2(b"password", b"salt", 2)),
        "ae4d0c95af6b46d32d0adff928f06dd02a303f8ef3c251dfd6e2d85a95474c43"
    );
}

#[test]
fn derive_key_is_deterministic() {
    let a = pbkdf2(b"secret", &fixed_salt(), 1000);
    let b = pbkdf2(b"secret", &fixed_salt(), 1000);
    assert_eq!(a, b);
    assert_ne!(a, pbkdf2(b"secret", &fixed_salt(), 1001));
}

#[test]
fn decrypt_round_trip() {
    let salt = fixed_salt();
    for (iterations, text) in [(1u32, &b"hello"[..]), (7, &b""[..]), (3, &b"[{\"name\":\"x\"}]"[..])] {
        let key = pbkdf2(b"pw", &salt, iterations);
        let mut buf = seal(&key, [9u8; 12], text);
        let cipher = Aes256Gcm::new(key);
        assert_eq!(cipher.decrypt(&mut buf), Ok(()));
        assert_eq!(buf, text.to_vec());
    }
}

#[test]
fn decrypt_detects_tampering() {
    let key = pbkdf2(b"pw", &fixed_salt(), 5);
    let sealed = seal(&key, [1u8; 12], b"[]");
    for i in 0..sealed.len() {
        for bit in 0..8 {
            let mut buf = sealed.clone();
            buf[i] ^= 1 << bit;
            let cipher = Aes256Gcm::new(key);
            assert_eq!(cipher.decrypt(&mut buf), Err(AuthenticationError));
            assert!(buf.is_empty());
        }
    }
}

#[test]
fn decrypt_rejects_short_buffer() {
    let cipher = Aes256Gcm::new([0u8; 32]);
    let mut buf = vec![0u8; 11];
    assert_eq!(cipher.decrypt(&mut buf), Err(AuthenticationError));
    let mut buf = vec![0u8; 27];
    assert_eq!(cipher.decrypt(&mut buf), Err(AuthenticationError));
}

#[test]
fn local_vault_scenario() {
    let salt = fixed_salt();
    let key = pbkdf2(b"correct-password", &salt, 100000);
    let data = seal(&key, [0x42u8; 12], b"[]");
    let bytes = container(1, &salt, 100000, &data);
    assert_eq!(&bytes[..7], &[0xff, 0x4b, 0x57, 0x52, 0x41, 0x50, 0x01]);
    let plain = decrypt_container(&bytes, "correct-password").unwrap();
    let records: Vec<serde_json::Value> = serde_json::from_slice(&plain).unwrap();
    assert!(records.is_empty());
    assert_eq!(
        decrypt_container(&bytes, "wrong-password"),
        Err(VaultError::Authentication)
    );
}

#[test]
fn parse_reads_fields() {
    let salt = fixed_salt();
    let data: Vec<u8> = (0..40u8).collect();
    let f = KwrapFile::parse(&container(1, &salt, 0x0102_0304, &data)).unwrap();
    assert_eq!(f.salt, salt);
    assert_eq!(f.iterations, 0x0102_0304);
    assert_eq!(f.data, data);
}

#[test]
fn parse_rejects_foreign_prefix() {
    let salt = fixed_salt();
    let mut bytes = container(1, &salt, 10, &[0u8; 40]);
    bytes[3] = b'X';
    assert_eq!(KwrapFile::parse(&bytes).err(), Some(FormatError::BadIdentifier));
    assert_eq!(
        decrypt_container(&bytes, "pw"),
        Err(VaultError::Format(FormatError::BadIdentifier))
    );
    assert_eq!(KwrapFile::parse(b"PK\x03\x04").err(), Some(FormatError::UnexpectedEnd));
}

#[test]
fn parse_rejects_unsupported_version() {
    let bytes = container(2, &fixed_salt(), 10, &[0u8; 40]);
    assert_eq!(KwrapFile::parse(&bytes).err(), Some(FormatError::UnsupportedVersion));
    assert_eq!(
        decrypt_container(&bytes, "pw"),
        Err(VaultError::Format(FormatError::UnsupportedVersion))
    );
}

#[test]
fn parse_rejects_zero_iterations() {
    let bytes = container(1, &fixed_salt(), 0, &[0u8; 40]);
    assert_eq!(KwrapFile::parse(&bytes).err(), Some(FormatError::InvalidIterations));
}

#[test]
fn parse_enforces_minimum_payload() {
    let salt = fixed_salt();
    let short = container(1, &salt, 10, &[0u8; 29]);
    assert_eq!(KwrapFile::parse(&short).err(), Some(FormatError::TruncatedPayload));
    assert_eq!(FormatError::TruncatedPayload.message(), "truncated payload");
    let exact = container(1, &salt, 10, &[0u8; 30]);
    assert_eq!(KwrapFile::parse(&exact).unwrap().data.len(), 30);
}

#[test]
fn parse_rejects_truncated_header() {
    let bytes = container(1, &fixed_salt(), 10, &[]);
    assert_eq!(KwrapFile::parse(&bytes[..20]).err(), Some(FormatError::UnexpectedEnd));
    assert_eq!(KwrapFile::parse(&bytes[..6]).err(), Some(FormatError::UnexpectedEnd));
    assert_eq!(KwrapFile::parse(&bytes[..41]).err(), Some(FormatError::UnexpectedEnd));
}

#[test]
fn base64_decoding() {
    assert_eq!(decode_base64("aGVsbG8gd29ybGQ="), Some(b"hello world".to_vec()));
    assert_eq!(decode_base64("not base64!"), None);
}
