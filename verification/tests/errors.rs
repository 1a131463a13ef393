use classified::errors::ClassifiedError;
use classified::errors::ClassifiedErrorMaster;
use classified::errors::ConcurrencyError;
use classified::errors::CryptoError;
use classified::errors::HexError;
use classified::errors::InvalidKeyLength;
use classified::errors::SecureError;
use classified::errors::SecureErrors;

/// The key-length marker converts to the hex-coded error carrying its
/// assigned three-byte code and the type's name.
#[test]
fn invalid_key_length_converts_to_hex_code() {
    let err = SecureError::from(InvalidKeyLength);
    match err {
        SecureError::HexCodeError(h) => {
            assert_eq!(h.code, [0x00, 0x10, 0x01]);
            assert_eq!(h.message, "InvalidKeyLength");
        },
        _ => panic!("expected the hex-coded error"),
    }
}

#[test]
fn crypto_errors_convert_to_invalid_key_length() {
    let err = SecureError::from(CryptoError::DecryptionError);
    assert!(matches!(err, SecureError::InvalidKeyLength));
}

#[test]
fn master_error_defaults_to_invalid_key_length() {
    let master = ClassifiedErrorMaster::default();
    assert!(matches!(master, ClassifiedErrorMaster::SecureError(SecureError::InvalidKeyLength)));
}

#[test]
fn messages_of_each_variant() {
    assert_eq!(
        SecureError::PipelineError("boom".to_string()).message(),
        "Pipeline setup failed: boom"
    );
    assert_eq!(
        SecureError::HexCodeError(HexError { code: [1, 2, 3], message: "m".to_string() }).message(),
        "Hex code error"
    );
    assert_eq!(ConcurrencyError::InvalidKeyLength.message(), "Invalid key length specified");
    assert_eq!(
        ConcurrencyError::PipelineError("p".to_string()).message(),
        "Pipeline setup failed: p"
    );
    assert_eq!(CryptoError::InvalidKeyLength.message(), "Invalid key length");
    assert_eq!(CryptoError::AESDecryptionError.message(), "AES Decryption failed");
    assert_eq!(CryptoError::RSADecryptionError.message(), "RSA Decryption failed");
    assert_eq!(CryptoError::DecryptionError.message(), "Decryption failed");
    assert_eq!(CryptoError::AESEncryptionError.message(), "AES Decryption failed");
    assert_eq!(CryptoError::RSAEncryptionError.message(), "RSA Decryption failed");
    assert_eq!(CryptoError::EncryptionError.message(), "Decryption failed");
}

#[test]
fn wrapped_error_variants_carry_their_payloads() {
    let wrapped = SecureErrors::PipelineError("setup".to_string());
    assert!(matches!(wrapped, SecureErrors::PipelineError(ref m) if m == "setup"));

    let classified = ClassifiedError::ConfigError("bad field".to_string());
    assert!(matches!(classified, ClassifiedError::ConfigError(ref m) if m == "bad field"));
}
