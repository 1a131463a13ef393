use classified::crypto::crypto_algorithm::CryptoAlgorithm;
use classified::crypto::crypto_builder::CryptoBuilder;
use classified::crypto::crypto_primitive::CryptoPrimitive;
use classified::crypto::crypto_stage::CryptoStage;
use classified::crypto::helpers::parse_algorithm;
use classified::crypto::helpers::parse_key_length;
use classified::crypto::key_length::KeyLength;
use classified::classified_data::ClassifiedData;
use classified::errors::SecureError;

#[test]
fn parses_valid_algorithm_strings() {
    assert_eq!(parse_algorithm(&Some("AES-256".into())).unwrap(), CryptoAlgorithm::AES);
    assert_eq!(parse_algorithm(&Some("RSA".into())).unwrap(), CryptoAlgorithm::RSA);
    assert_eq!(parse_algorithm(&Some("ECDSA".into())).unwrap(), CryptoAlgorithm::ECDSA);
}

#[test]
fn returns_error_on_invalid_algorithm() {
    let err = parse_algorithm(&Some("SHA256".into())).unwrap_err();
    assert!(matches!(err, SecureError::PipelineError(_)));

    let none_case = parse_algorithm(&None).unwrap_err();
    assert!(matches!(none_case, SecureError::PipelineError(_)));
}

#[test]
fn parses_key_length_from_algorithm_string() {
    assert_eq!(parse_key_length(&Some("AES-256".into())).unwrap(), KeyLength::Bits256);
    assert_eq!(parse_key_length(&Some("RSA".into())).unwrap(), KeyLength::Bits2048);
    assert_eq!(parse_key_length(&Some("ECDSA".into())).unwrap(), KeyLength::Bits256);
}

#[test]
fn returns_error_on_invalid_key_length_request() {
    let err = parse_key_length(&Some("SHA1".into())).unwrap_err();
    assert!(matches!(err, SecureError::PipelineError(_)));

    let none_case = parse_key_length(&None).unwrap_err();
    assert!(matches!(none_case, SecureError::PipelineError(_)));
}

#[test]
fn key_lengths_in_bytes() {
    assert_eq!(KeyLength::Bits256.as_bytes(), 32);
    assert_eq!(KeyLength::Bits512.as_bytes(), 64);
    assert_eq!(KeyLength::Bits1024.as_bytes(), 128);
    assert_eq!(KeyLength::Bits2048.as_bytes(), 256);
    assert_eq!(KeyLength::Bits4096.as_bytes(), 512);
    assert_eq!(KeyLength::default(), KeyLength::Bits2048);
}

#[test]
fn builds_with_default_rsa_settings() {
    let builder = CryptoBuilder::new().key_length(KeyLength::Bits2048);
    let result = builder.build();
    assert!(result.is_ok());

    let crypto = result.unwrap();
    assert_eq!(crypto.algorithm, CryptoAlgorithm::RSA);
    assert_eq!(crypto.key_length, KeyLength::Bits2048);
    assert_eq!(crypto.key_material.expose().len(), 256);
    assert!(!crypto.zeroize);
}

#[test]
fn builds_with_aes_and_zeroize() {
    let builder = CryptoBuilder::new()
        .algorithm(CryptoAlgorithm::AES)
        .key_length(KeyLength::Bits256)
        .with_zeroize();

    let result = builder.build();
    assert!(result.is_ok());

    let crypto = result.unwrap();
    assert_eq!(crypto.algorithm, CryptoAlgorithm::AES);
    assert_eq!(crypto.key_length, KeyLength::Bits256);
    assert_eq!(crypto.key_material.expose().len(), 32);
    assert!(crypto.zeroize);
}

#[test]
fn builds_with_ecdsa() {
    let builder = CryptoBuilder::new()
        .algorithm(CryptoAlgorithm::ECDSA)
        .key_length(KeyLength::Bits256);

    let result = builder.build();
    assert!(result.is_ok());

    let crypto = result.unwrap();
    assert_eq!(crypto.algorithm, CryptoAlgorithm::ECDSA);
    assert_eq!(crypto.key_length, KeyLength::Bits256);
    assert_eq!(crypto.key_material.expose().len(), 256);
}

#[test]
fn fails_without_key_length() {
    let builder = CryptoBuilder::new().algorithm(CryptoAlgorithm::RSA);
    let result = builder.build();
    match result {
        Err(e) => {
            assert_eq!(e.message(), "Pipeline setup failed: Key length must be specified");
        },
        Ok(_) => panic!("build without a key length must fail"),
    }
}

#[test]
fn creates_aes_primitive_with_valid_key() {
    let key = vec![0u8; 32];
    let result = CryptoPrimitive::new(&CryptoAlgorithm::AES, key, true);
    assert!(result.is_ok());
}

#[test]
fn errors_on_invalid_key_length() {
    let key = vec![0u8; 10];
    let result = CryptoPrimitive::new(&CryptoAlgorithm::AES, key, true);
    assert!(result.is_err());
}

/// The placeholder AES transform round-trips: decrypting what encrypt
/// produced restores the plaintext.
#[test]
fn aes_encrypt_and_decrypt_is_symmetric() {
    let key = vec![1u8; 32];
    let primitive = CryptoPrimitive::new(&CryptoAlgorithm::AES, key, false).unwrap();

    let plaintext = b"secret data";
    let encrypted = primitive.encrypt(plaintext).unwrap();

    let decrypted = primitive.decrypt(&encrypted).unwrap();
    assert_eq!(decrypted, plaintext);
}

#[test]
fn rsa_encrypt_decrypt_is_passthrough() {
    let key = vec![2u8; 256];
    let primitive = CryptoPrimitive::new(&CryptoAlgorithm::RSA, key, false).unwrap();

    let data = b"just testing";
    let enc = primitive.encrypt(data).unwrap();
    assert_eq!(enc, data);

    let dec = primitive.decrypt(&enc).unwrap();
    assert_eq!(dec, data);
}

#[test]
fn ecdsa_encrypt_fails() {
    let key = vec![3u8; 32];
    let primitive = CryptoPrimitive::new(&CryptoAlgorithm::ECDSA, key, false).unwrap();

    let data = b"can't encrypt this";
    let result = primitive.encrypt(data);
    assert!(result.is_err());
}

#[test]
fn ecdsa_decrypt_fails() {
    let key = vec![3u8; 32];
    let primitive = CryptoPrimitive::new(&CryptoAlgorithm::ECDSA, key, false).unwrap();

    let data = b"can't decrypt this";
    let result = primitive.decrypt(data);
    assert!(result.is_err());
}

#[test]
fn crypto_stage_passes_data_through() {
    let key = vec![9u8; 32];
    let primitive = CryptoPrimitive::new(&CryptoAlgorithm::AES, key, true).unwrap();
    let stage = CryptoStage::new(primitive);
    let out = stage.process(ClassifiedData::new(b"frame".to_vec())).unwrap();
    assert_eq!(out.expose().as_slice(), b"frame");
}

#[test]
fn error_messages_render_exactly() {
    match CryptoPrimitive::new(&CryptoAlgorithm::AES, vec![0u8; 3], true) {
        Err(e) => assert_eq!(e.message(), "Cryptographic error: Key length mismatch"),
        Ok(_) => panic!("a 3-byte AES key must fail"),
    }

    let err = CryptoPrimitive::new(&CryptoAlgorithm::ECDSA, vec![0u8; 32], true)
        .unwrap()
        .encrypt(b"x")
        .unwrap_err();
    assert_eq!(err.message(), "Cryptographic error: ECDSA is for signing, not encryption");

    assert_eq!(SecureError::InvalidKeyLength.message(), "Invalid key length specified");
}
